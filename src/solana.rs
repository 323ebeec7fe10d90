//! Lightweight on-chain verification.

pub mod lightweight;
pub mod onchain_verifier;
pub mod syscall_helpers;

pub use lightweight::{BatchLightweightProof, LightweightProof, ProofCommitment};
pub use onchain_verifier::{OnchainVerifier, VerificationStatus};
