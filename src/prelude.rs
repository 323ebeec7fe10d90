//! The items most programs need.

pub use crate::common::errors::{Result, ZKMTDError};
pub use crate::common::traits::EntropySource;
pub use crate::common::types::{Proof, PublicInputs, Witness};
pub use crate::mtd::{Epoch, MTDManager};
pub use crate::stark::{MTDProver, MTDVerifier};
pub use crate::utils::compression::{CompressedProof, CompressionAlgorithm};
