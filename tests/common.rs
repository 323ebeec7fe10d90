use zkmtd::common::errors::{Result, ZKMTDError};
use zkmtd::common::traits::{EntropySource, Prover, Verifier};
use zkmtd::common::types::{CommittedPublicInputs, Proof, ProofBatch, PublicInputs, Witness};
use zkmtd::utils::constants::{
    DOMAIN_BINDING, DOMAIN_BIOMETRIC, DOMAIN_COMMITMENT, DOMAIN_COMMUNICATION,
    DOMAIN_COMPRESSION_CHECKSUM, DOMAIN_CREDENTIAL, DOMAIN_ENTROPY, DOMAIN_FINANCIAL,
    DOMAIN_IDENTITY, DOMAIN_LOCATION, DOMAIN_MEDICAL, DOMAIN_MERKLE, DOMAIN_MTD_DOMAIN_SEP,
    DOMAIN_MTD_FRI_SEED, DOMAIN_MTD_PARAMS, DOMAIN_MTD_SALT, DOMAIN_PROOF_GENERATION,
    DOMAIN_PROOF_INTEGRITY, DOMAIN_PROOF_VERIFICATION, DOMAIN_PV_COMMIT, DOMAIN_PV_SALT,
    DOMAIN_SEED_FINGERPRINT, DOMAIN_SOLANA_ENTROPY, EPOCH_DURATION_SECS, MAX_PROOF_SIZE,
    MAX_PUBLIC_INPUTS_SIZE, MAX_WITNESS_SIZE, MIN_ENTROPY_BITS, MIN_PROOF_SIZE,
    MIN_PUBLIC_INPUTS_SIZE, MIN_WITNESS_SIZE, RECOMMENDED_ENTROPY_BITS, SYSTEM_SALT,
};
use zkmtd::{NAME, VERSION};

struct DummyProver;

impl Prover for DummyProver {
    fn proves(&self, _witness: Witness, _public_inputs: PublicInputs, proof: Proof) -> bool {
        proof == Proof::default()
    }


    fn prove(&self, _witness: &Witness, _public_inputs: &PublicInputs) -> Result<Proof> {
        Ok(Proof::default())
    }

    fn min_witness_size(&self) -> usize {
        4
    }

    fn min_public_inputs_size(&self) -> usize {
        2
    }
}

struct DummyVerifier;

impl Verifier for DummyVerifier {
    fn verifies(&self, _proof: Proof, _public_inputs: PublicInputs) -> bool {
        true
    }


    fn verify(&self, _proof: &Proof, _public_inputs: &PublicInputs) -> Result<bool> {
        Ok(true)
    }
}

struct FailingVerifier;

impl Verifier for FailingVerifier {
    fn verifies(&self, _proof: Proof, _public_inputs: PublicInputs) -> bool {
        false
    }


    fn verify(&self, _proof: &Proof, _public_inputs: &PublicInputs) -> Result<bool> {
        Err(ZKMTDError::VerificationFailed {
            reason: "test error".into(),
        })
    }
}

struct DummyEntropy;

impl EntropySource for DummyEntropy {
    fn spec_secure(&self) -> bool {
        false
    }


    fn generate(&mut self, num_bytes: usize) -> Result<Vec<u8>> {
        Ok(vec![0u8; num_bytes])
    }

    fn fill_bytes(&mut self, output: &mut [u8]) -> Result<()> {
        output.fill(0);
        Ok(())
    }

    fn entropy_bits(&self) -> usize {
        128
    }

    fn is_cryptographically_secure(&self) -> bool {
        false
    }
}

#[test]
fn test_error_display_invalid_proof() {
    let err = ZKMTDError::InvalidProof;
    assert_eq!(err.to_string(), "Invalid proof");
}

#[test]
fn test_error_display_proof_generation_failed() {
    let err = ZKMTDError::ProofGenerationFailed {
        reason: "test error".into(),
    };
    let msg = err.to_string();
    assert!(msg.contains("Proof generation failed"));
    assert!(msg.contains("test error"));
}

#[test]
fn test_error_display_verification_failed() {
    let err = ZKMTDError::VerificationFailed {
        reason: "invalid signature".into(),
    };
    let msg = err.to_string();
    assert!(msg.contains("verification failed"));
    assert!(msg.contains("invalid signature"));
}

#[test]
fn test_error_display_invalid_witness() {
    let err = ZKMTDError::InvalidWitness {
        reason: "too small".into(),
    };
    let msg = err.to_string();
    assert!(msg.contains("Invalid witness"));
    assert!(msg.contains("too small"));
}

#[test]
fn test_error_display_invalid_public_inputs() {
    let err = ZKMTDError::InvalidPublicInputs {
        reason: "mismatch".into(),
    };
    let msg = err.to_string();
    assert!(msg.contains("Invalid public inputs"));
    assert!(msg.contains("mismatch"));
}

#[test]
fn test_error_display_mtd_error() {
    let err = ZKMTDError::MTDError {
        reason: "param error".into(),
    };
    let msg = err.to_string();
    assert!(msg.contains("MTD error"));
    assert!(msg.contains("param error"));
}

#[test]
fn test_error_display_invalid_epoch() {
    let err = ZKMTDError::InvalidEpoch {
        current: 12345,
        reason: "expired".into(),
    };
    let msg = err.to_string();
    assert!(msg.contains("Invalid epoch"));
    assert!(msg.contains("12345"));
    assert!(msg.contains("expired"));
}

#[test]
fn test_error_display_entropy_error() {
    let err = ZKMTDError::EntropyError {
        reason: "insufficient".into(),
    };
    let msg = err.to_string();
    assert!(msg.contains("Entropy error"));
    assert!(msg.contains("insufficient"));
}

#[test]
fn test_error_display_batch_error() {
    let err = ZKMTDError::BatchError {
        reason: "empty batch".into(),
    };
    let msg = err.to_string();
    assert!(msg.contains("Batch processing error"));
    assert!(msg.contains("empty batch"));
}

#[test]
fn test_error_display_merkle_error() {
    let err = ZKMTDError::MerkleError {
        reason: "invalid path".into(),
    };
    let msg = err.to_string();
    assert!(msg.contains("Merkle tree error"));
    assert!(msg.contains("invalid path"));
}

#[test]
fn test_error_display_configuration_error() {
    let err = ZKMTDError::ConfigurationError {
        reason: "invalid config".into(),
    };
    let msg = err.to_string();
    assert!(msg.contains("Configuration error"));
    assert!(msg.contains("invalid config"));
}

#[test]
fn test_error_display_serialization_error() {
    let err = ZKMTDError::SerializationError {
        reason: "parse failed".into(),
    };
    let msg = err.to_string();
    assert!(msg.contains("Serialization error"));
    assert!(msg.contains("parse failed"));
}

#[test]
fn test_error_display_unsupported_feature() {
    let err = ZKMTDError::UnsupportedFeature {
        feature: "fancy_crypto".into(),
    };
    let msg = err.to_string();
    assert!(msg.contains("Unsupported feature"));
    assert!(msg.contains("fancy_crypto"));
}

#[test]
fn test_error_display_resource_limit() {
    let err = ZKMTDError::ResourceLimitExceeded {
        reason: "out of memory".into(),
    };
    let msg = err.to_string();
    assert!(msg.contains("Resource limit exceeded"));
    assert!(msg.contains("out of memory"));
}

#[test]
fn test_error_display_internal_error() {
    let err = ZKMTDError::InternalError {
        reason: "unexpected state".into(),
    };
    let msg = err.to_string();
    assert!(msg.contains("Internal error"));
    assert!(msg.contains("unexpected state"));
}

#[test]
fn test_error_debug() {
    let err = ZKMTDError::InvalidProof;
    let debug = format!("{:?}", err);
    assert!(debug.contains("InvalidProof"));
}

#[test]
fn test_error_equality() {
    let err1 = ZKMTDError::InvalidProof;
    let err2 = ZKMTDError::InvalidProof;
    let err3 = ZKMTDError::VerificationFailed {
        reason: "test".into(),
    };

    assert_eq!(err1, err2);
    assert_ne!(err1, err3);
}


#[test]
fn test_entropy_default_not_secure() {
    let entropy = DummyEntropy;
    assert!(!entropy.is_cryptographically_secure());
    assert_eq!(entropy.entropy_bits(), 128);
}

#[test]
fn test_entropy_generate() {
    let mut entropy = DummyEntropy;
    let bytes = entropy.generate(16).unwrap();
    assert_eq!(bytes.len(), 16);
}

#[test]
fn test_entropy_fill_bytes() {
    let mut entropy = DummyEntropy;
    let mut buf = [1u8; 8];
    entropy.fill_bytes(&mut buf).unwrap();
    assert_eq!(buf, [0u8; 8]);
}


#[test]
fn test_version() {
    assert!(!VERSION.is_empty());
}

#[test]
fn test_name() {
    assert_eq!(NAME, "ZKMTD");
}


#[test]
fn test_constants_validity() {
    // Compile-time verified constants (Clippy lint-compliant)
    const _: () = assert!(MIN_PROOF_SIZE < MAX_PROOF_SIZE);
    const _: () = assert!(MIN_WITNESS_SIZE < MAX_WITNESS_SIZE);
    const _: () = assert!(MIN_PUBLIC_INPUTS_SIZE < MAX_PUBLIC_INPUTS_SIZE);
    const _: () = assert!(MIN_ENTROPY_BITS < RECOMMENDED_ENTROPY_BITS);
    const _: () = assert!(EPOCH_DURATION_SECS > 0);

    // Runtime check for test confirmation
    assert_ne!(SYSTEM_SALT.len(), 0);
}

#[test]
fn test_domain_tags_uniqueness() {
    // Verify ALL domain separation tags are unique (NIST SP 800-185 compliance)
    let tags: &[&str] = &[
        DOMAIN_PROOF_GENERATION,
        DOMAIN_PROOF_VERIFICATION,
        DOMAIN_MTD_PARAMS,
        DOMAIN_ENTROPY,
        DOMAIN_MERKLE,
        DOMAIN_COMMITMENT,
        DOMAIN_PV_COMMIT,
        DOMAIN_PV_SALT,
        DOMAIN_BINDING,
        DOMAIN_IDENTITY,
        DOMAIN_FINANCIAL,
        DOMAIN_MEDICAL,
        DOMAIN_LOCATION,
        DOMAIN_BIOMETRIC,
        DOMAIN_CREDENTIAL,
        DOMAIN_COMMUNICATION,
        DOMAIN_MTD_DOMAIN_SEP,
        DOMAIN_MTD_SALT,
        DOMAIN_MTD_FRI_SEED,
        DOMAIN_PROOF_INTEGRITY,
        DOMAIN_SEED_FINGERPRINT,
        DOMAIN_COMPRESSION_CHECKSUM,
        DOMAIN_SOLANA_ENTROPY,
    ];

    for i in 0..tags.len() {
        for j in (i + 1)..tags.len() {
            assert_ne!(
                tags[i], tags[j],
                "Domain tags duplicated: {:?} == {:?}",
                tags[i],
                tags[j]
            );
        }
    }
}


#[test]
fn test_proof_creation() {
    let proof = Proof::default();
    assert!(proof.is_empty());
    assert_eq!(proof.epoch, 0);
    assert_eq!(proof.version, 1);
}

#[test]
fn test_proof_with_data() {
    let data = vec![1, 2, 3, 4, 5];
    let proof = Proof::new(data.clone(), 12345);
    assert_eq!(proof.size(), 5);
    assert!(!proof.is_empty());
    assert_eq!(proof.epoch, 12345);
}

#[test]
fn test_witness_zeroize() {
    {
        let mut witness = Witness::new(vec![1, 2, 3, 4, 5]);
        assert_eq!(witness.len(), 5);

        witness.zeroize();

        // After zeroize, all values should be 0
        for &val in &witness.data {
            assert_eq!(val, 0);
        }
    }
}

#[test]
fn test_public_inputs() {
    let inputs = PublicInputs::default();
    assert!(inputs.is_empty());
    assert_eq!(inputs.len(), 0);
}

#[test]
fn test_committed_public_inputs() {
    let values = vec![1u64, 1, 2, 3, 5, 8, 13, 21];
    let salt = [42u8; 32];

    let committed = CommittedPublicInputs::commit(&values, &salt);
    assert_eq!(committed.value_count, 8);
    assert!(committed.verify(&values, &salt));
}

#[test]
fn test_committed_public_inputs_wrong_values() {
    let values = vec![1u64, 1, 2, 3, 5, 8, 13, 21];
    let salt = [42u8; 32];

    let committed = CommittedPublicInputs::commit(&values, &salt);

    let wrong_values = vec![1u64, 2, 3, 4, 5, 6, 7, 8];
    assert!(!committed.verify(&wrong_values, &salt));
}

#[test]
fn test_committed_public_inputs_wrong_salt() {
    let values = vec![1u64, 1, 2, 3, 5, 8, 13, 21];
    let salt = [42u8; 32];

    let committed = CommittedPublicInputs::commit(&values, &salt);

    let wrong_salt = [99u8; 32];
    assert!(!committed.verify(&values, &wrong_salt));
}

#[test]
fn test_committed_public_inputs_deterministic() {
    let values = vec![0u64, 1, 1, 2, 3, 5];
    let salt = [7u8; 32];

    let c1 = CommittedPublicInputs::commit(&values, &salt);
    let c2 = CommittedPublicInputs::commit(&values, &salt);
    assert_eq!(c1, c2);
}

#[test]
fn test_proof_batch() {
    let proof1 = Proof::new(vec![1, 2, 3], 100);
    let proof2 = Proof::new(vec![4, 5, 6], 100);
    let proofs = vec![proof1, proof2];
    let merkle_root = [0u8; 32];

    let batch = ProofBatch::new(proofs, merkle_root, 100);
    assert_eq!(batch.len(), 2);
    assert!(!batch.is_empty());
}


#[test]
fn test_prover_trait() {
    let prover = DummyProver;
    assert_eq!(prover.min_witness_size(), 4);
    assert_eq!(prover.min_public_inputs_size(), 2);
}

#[test]
fn test_prover_prove() {
    let prover = DummyProver;
    let witness = Witness::default();
    let inputs = PublicInputs::default();
    assert!(prover.prove(&witness, &inputs).is_ok());
}

#[test]
fn test_verifier_trait() {
    let verifier = DummyVerifier;
    let proof = Proof::default();
    let public_inputs = PublicInputs::default();
    assert!(verifier.verify(&proof, &public_inputs).unwrap());
}

#[test]
fn test_verifier_batch_success() {
    let verifier = DummyVerifier;
    let proofs = vec![Proof::default(), Proof::default()];
    let inputs = vec![PublicInputs::default(), PublicInputs::default()];

    let results = verifier.verify_batch(&proofs, &inputs).unwrap();
    assert_eq!(results.len(), 2);
    assert!(results.iter().all(|&r| r));
}

#[test]
fn test_verifier_batch_mismatched() {
    let verifier = DummyVerifier;
    let proofs = vec![Proof::default(), Proof::default()];
    let inputs = vec![PublicInputs::default()];

    let result = verifier.verify_batch(&proofs, &inputs);
    assert!(result.is_err());
}

#[test]
fn test_verifier_batch_error_propagation() {
    let verifier = FailingVerifier;
    let proofs = vec![Proof::default()];
    let inputs = vec![PublicInputs::default()];

    let result = verifier.verify_batch(&proofs, &inputs);
    assert!(result.is_err());
}

#[test]
fn test_error_clone() {
    let err = ZKMTDError::InvalidProof;
    let cloned = err.clone();
    assert_eq!(err, cloned);
}
