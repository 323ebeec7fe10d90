//! Zero-knowledge proofs whose parameters rotate per epoch (moving target
//! defense): parameter derivation, constraint systems, the epoch-bound proof
//! envelope, Merkle batching and a lightweight on-chain verification path.

use vstd::prelude::*;

pub mod adapters;
pub mod batching;
pub mod common;
pub mod mtd;
pub mod prelude;
pub mod solana;
pub mod stark;
pub mod utils;

pub use crate::batching::{BatchProver, BatchVerifier, ProofBatch};
pub use crate::common::errors::{Result, ZKMTDError};
pub use crate::common::traits::EntropySource;
pub use crate::common::types::{Proof, PublicInputs, Witness};
pub use crate::mtd::entropy::SystemEntropy;
pub use crate::mtd::{Epoch, MTDManager};
pub use crate::solana::{LightweightProof, OnchainVerifier, ProofCommitment};
pub use crate::stark::{MTDProver, MTDVerifier, StarkConfig};

verus! {

/// Version of the library.
pub const VERSION: &'static str = "0.1.0";

/// Name of the library.
pub const NAME: &'static str = "ZKMTD";

} // verus!
