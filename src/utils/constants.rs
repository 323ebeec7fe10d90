//! Library-wide constants: limits, epoch timing and the domain tags that keep
//! every hash of the system in its own namespace.

use vstd::prelude::*;

verus! {

/// Version byte of the on-chain transport envelope.
pub const LIBRARY_VERSION: u8 = 1;

pub const MIN_PROOF_SIZE: usize = 1024;

pub const MAX_PROOF_SIZE: usize = 1048576;

pub const MIN_WITNESS_SIZE: usize = 4;

pub const MAX_WITNESS_SIZE: usize = 1048576;

/// Largest output that the run-length decoder will produce (10 MiB).
pub const MAX_RLE_DECOMPRESSED_SIZE: usize = 10485760;

pub const MIN_PUBLIC_INPUTS_SIZE: usize = 1;

pub const MAX_PUBLIC_INPUTS_SIZE: usize = 256;

/// Length of one epoch in seconds.
pub const EPOCH_DURATION_SECS: u64 = 3600;

/// Largest epoch value (`u64::MAX - 1`).
pub const MAX_EPOCH: u64 = 0xFFFF_FFFF_FFFF_FFFE;

pub const SYSTEM_SALT: &'static str = "ZKMTD-v1-system-salt-2024";

pub const DOMAIN_PROOF_GENERATION: &'static str = "ZKMTD::ProofGeneration";

pub const DOMAIN_PROOF_VERIFICATION: &'static str = "ZKMTD::ProofVerification";

pub const DOMAIN_MTD_PARAMS: &'static str = "ZKMTD::MTD::Parameters";

pub const DOMAIN_ENTROPY: &'static str = "ZKMTD::Entropy";

pub const DOMAIN_MERKLE: &'static str = "ZKMTD::Merkle";

pub const DOMAIN_COMMITMENT: &'static str = "ZKMTD::Commitment";

pub const DOMAIN_PV_COMMIT: &'static str = "ZKMTD::PV::Commit";

pub const DOMAIN_PV_SALT: &'static str = "ZKMTD::PV::Salt";

pub const DOMAIN_BINDING: &'static str = "ZKMTD_BINDING";

pub const DOMAIN_IDENTITY: &'static str = "ZKMTD::Privacy::Identity";

pub const DOMAIN_FINANCIAL: &'static str = "ZKMTD::Privacy::Financial";

pub const DOMAIN_MEDICAL: &'static str = "ZKMTD::Privacy::Medical";

pub const DOMAIN_LOCATION: &'static str = "ZKMTD::Privacy::Location";

pub const DOMAIN_BIOMETRIC: &'static str = "ZKMTD::Privacy::Biometric";

pub const DOMAIN_CREDENTIAL: &'static str = "ZKMTD::Privacy::Credential";

pub const DOMAIN_COMMUNICATION: &'static str = "ZKMTD::Privacy::Communication";

pub const DOMAIN_MTD_DOMAIN_SEP: &'static str = "MTD_DOMAIN_SEP";

pub const DOMAIN_MTD_SALT: &'static str = "MTD_SALT";

pub const DOMAIN_MTD_FRI_SEED: &'static str = "MTD_FRI_SEED";

pub const DOMAIN_PROOF_INTEGRITY: &'static str = "PROOF_INTEGRITY";

pub const DOMAIN_SEED_FINGERPRINT: &'static str = "SEED_FINGERPRINT";

pub const DOMAIN_COMPRESSION_CHECKSUM: &'static str = "COMPRESSION_CHECKSUM";

pub const DOMAIN_SOLANA_ENTROPY: &'static str = "SOLANA_ENTROPY_V1";

pub const SOLANA_MAX_TX_SIZE: usize = 1000;

pub const SOLANA_MAX_COMPUTE_UNITS: u32 = 200000;

pub const SOLANA_TARGET_PROOF_SIZE: usize = 500;

pub const SOLANA_BASE_CU: u32 = 5000;

pub const SOLANA_PER_BYTE_CU: u32 = 10;

pub const SOLANA_HASH_CU: u32 = 100;

pub const ONCHAIN_BASE_CU: u64 = 500;

pub const ONCHAIN_HASH_CU: u64 = 100;

pub const ONCHAIN_BUFFER_CU: u64 = 200;

/// Seed of the stream that yields the sponge permutation's round constants.
pub const ZKMTD_POSEIDON2_SEED: u64 = 0x5A4B4D54445F5032;

pub const MIN_ENTROPY_BITS: usize = 128;

pub const RECOMMENDED_ENTROPY_BITS: usize = 256;

pub const MAX_BATCH_SIZE: usize = 1000;

pub const FRI_FOLDING_FACTOR: usize = 4;

pub const FRI_NUM_QUERIES: usize = 100;

pub const POSEIDON_OUTPUT_SIZE: usize = 32;

/// Number of past parameter sets that an `MTDManager` keeps.
pub const MTD_PARAM_CACHE_SIZE: usize = 16;

/// Slack, in seconds, allowed on either side of an epoch's time window.
pub const TIMESTAMP_TOLERANCE_SECS: u64 = 300;

/// Order of the Goldilocks field, `2^64 - 2^32 + 1`.
pub const GOLDILOCKS_ORDER: u64 = 0xFFFF_FFFF_0000_0001;

} // verus!
