//! Chain adapters: transport encodings of proofs.

use vstd::prelude::*;
use crate::common::errors::Result;
use crate::common::types::Proof;

pub mod solana;

pub use solana::SolanaAdapter;

verus! {

/// What a chain adapter offers.
pub trait SolanaChainAdapter {
    /// The chain's name.
    fn name(&self) -> &'static str;

    /// The transport encoding of a proof.
    fn serialize_proof(&self, proof: &Proof) -> Result<Vec<u8>>;

    /// Reads a transport encoding.
    fn deserialize_proof(&self, data: &[u8]) -> Result<Proof>;

    /// Compute units that verifying a proof of this size costs.
    fn estimate_compute_units(&self, proof_size: usize) -> u32;
}

} // verus!
