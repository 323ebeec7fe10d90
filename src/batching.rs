//! Merkle trees over proofs and batch verification.

pub mod aggregator;
pub mod batch_verifier;
pub mod merkle;

pub use aggregator::{create_proof_batch, prove_batch, BatchProver};
pub use batch_verifier::BatchVerifier;
pub use merkle::{MerklePath, MerkleTree};

pub use crate::common::types::ProofBatch;
