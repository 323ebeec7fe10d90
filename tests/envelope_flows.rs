use std::collections::BTreeSet;

use zkmtd::batching::merkle::MerkleTree;
use zkmtd::common::errors::ZKMTDError;
use zkmtd::common::types::{Proof, Witness};
use zkmtd::mtd::{Epoch, MTDManager, WarpingParams};
use zkmtd::solana::lightweight::LightweightProof;
use zkmtd::solana::onchain_verifier::{OnchainVerifier, VerificationStatus};
use zkmtd::stark::air::AirType;
use zkmtd::stark::config::StarkConfig;
use zkmtd::stark::integrated::{IntegratedProver, IntegratedVerifier};
use zkmtd::stark::prover::MTDProver;
use zkmtd::utils::compression::{compress_rle, CompressedProof, CompressionAlgorithm};
use zkmtd::utils::constants::{MAX_EPOCH, MTD_PARAM_CACHE_SIZE};
use zkmtd::utils::hash::{field_to_bytes, poseidon_hash};

const SEED: &[u8] = b"scenario-seed";
const SALT: [u8; 32] = [42u8; 32];

fn prover_at_epoch_100() -> IntegratedProver {
    IntegratedProver::new(SEED, Epoch::new(100)).unwrap()
}

#[test]
fn fibonacci_8_completeness() {
    let prover = prover_at_epoch_100();
    let proof = prover.prove_fibonacci(8, SALT).unwrap();
    assert_eq!(proof.public_values(), &[0, 1, 13, 21]);
    let verifier = prover.get_verifier();
    assert!(verifier.verify(&proof, true).unwrap());
    // An independent verifier with the same seed and epoch agrees.
    let independent = IntegratedVerifier::new(SEED, Epoch::new(100)).unwrap();
    assert!(independent.verify(&proof, true).unwrap());
    // The backend's verdict is honoured.
    assert!(!independent.verify(&proof, false).unwrap());
}

#[test]
fn fibonacci_16_public_values() {
    let prover = prover_at_epoch_100();
    let proof = prover.prove_fibonacci(16, SALT).unwrap();
    assert_eq!(proof.public_values(), &[0, 1, 610, 987]);
    assert_eq!(proof.num_rows(), 16);
}

#[test]
fn binding_tamper() {
    let prover = prover_at_epoch_100();
    let mut proof = prover.prove_fibonacci(8, SALT).unwrap();
    proof.binding_hash[0] ^= 0x01;
    assert!(!prover.get_verifier().verify(&proof, true).unwrap());
}

#[test]
fn salt_erasure_preserves_validity() {
    let prover = prover_at_epoch_100();
    let verifier = prover.get_verifier();
    let mut proof = prover.prove_fibonacci(8, SALT).unwrap();
    let values = proof.public_values().to_vec();
    assert!(verifier.verify_with_salt(&proof, &values, &SALT, true).unwrap());
    proof.erase_salt();
    assert!(!proof.has_salt());
    assert!(verifier.verify(&proof, true).unwrap());
    assert!(!verifier.verify_with_salt(&proof, &values, &SALT, true).unwrap());
    assert!(!verifier.verify_with_salt(&proof, &values, &[0u8; 32], true).unwrap());
    // Erasing twice changes nothing.
    proof.erase_salt();
    assert!(verifier.verify(&proof, true).unwrap());
}

#[test]
fn range_boundary() {
    let prover = prover_at_epoch_100();
    let ok = prover.prove_range((1u64 << 32) - 1, 0, SALT);
    assert!(ok.is_ok());
    let proof = ok.unwrap();
    assert_eq!(proof.public_values(), &[0]);
    assert!(prover.get_verifier().verify(&proof, true).unwrap());
    let err = prover.prove_range(1u64 << 32, 0, SALT);
    assert!(matches!(err, Err(ZKMTDError::InvalidWitness { .. })));
}

#[test]
fn range_overflow_rejected_for_threshold_and_order() {
    let prover = prover_at_epoch_100();
    assert!(prover.prove_range(5, 1u64 << 32, SALT).is_err());
    assert!(prover.prove_range(u64::MAX, 0, SALT).is_err());
    assert!(prover.prove_range(17, 18, SALT).is_err());
    assert!(prover.prove_range(18, 18, SALT).is_ok());
}


#[test]
fn hash_thousand_distinct_inputs() {
    let mut seen = BTreeSet::new();
    for i in 0..1000u64 {
        let h = poseidon_hash(&i.to_le_bytes(), b"collision-domain");
        assert!(seen.insert(h), "collision at {}", i);
    }
    assert_eq!(seen.len(), 1000);
}

#[test]
fn hash_of_empty_input_is_not_zero() {
    // The permutation runs even when nothing but an empty domain is absorbed.
    let h = poseidon_hash(b"", b"");
    assert_ne!(h, [0u8; 32]);
    let h2 = poseidon_hash(b"", b"x");
    assert_ne!(h, h2);
}

#[test]
fn hash_long_message_uses_every_block() {
    let mut a = vec![7u8; 200];
    let h1 = poseidon_hash(&a, b"blocks");
    a[199] = 8;
    let h2 = poseidon_hash(&a, b"blocks");
    assert_ne!(h1, h2);
}

#[test]
fn field_to_bytes_exact() {
    assert_eq!(field_to_bytes(0x0102030405060708), [8, 7, 6, 5, 4, 3, 2, 1]);
}

#[test]
fn mtd_parameters_pairwise_distinct() {
    for e in [0u64, 1, 100, 1 << 40, MAX_EPOCH] {
        let p = WarpingParams::generate(SEED, Epoch::new(e)).unwrap();
        assert_ne!(p.domain_separator, p.salt);
        assert_ne!(p.domain_separator, p.fri_seed);
        assert_ne!(p.salt, p.fri_seed);
        assert_eq!(p.to_bytes().len(), 104);
        let back = WarpingParams::from_bytes(&p.to_bytes()).unwrap();
        assert_eq!(back, p);
    }
}

#[test]
fn warping_from_bytes_rejects_wrong_length() {
    assert!(matches!(
        WarpingParams::from_bytes(&[0u8; 103]),
        Err(ZKMTDError::SerializationError { .. })
    ));
}

#[test]
fn merkle_path_rejects_any_mutated_byte() {
    let leaves: Vec<[u8; 32]> = (0..5u8).map(|i| [i; 32]).collect();
    let tree = MerkleTree::new(leaves.clone()).unwrap();
    for i in 0..leaves.len() {
        let path = tree.get_proof(i).unwrap();
        assert!(path.verify(&leaves[i]));
        assert!(path.verify_against(&leaves[i], tree.root()));
        for b in [0usize, 17, 31] {
            let mut bad = leaves[i];
            bad[b] ^= 0x80;
            assert!(!path.verify(&bad));
        }
    }
    assert!(tree.get_proof(5).is_err());
}

#[test]
fn cross_epoch_and_cross_seed_rejection() {
    let prover = prover_at_epoch_100();
    let proof = prover.prove_fibonacci(8, SALT).unwrap();
    let later = IntegratedVerifier::new(SEED, Epoch::new(101)).unwrap();
    assert!(!later.verify(&proof, true).unwrap());
    let other_seed = IntegratedVerifier::new(b"another-seed", Epoch::new(100)).unwrap();
    assert!(!other_seed.verify(&proof, true).unwrap());
}

#[test]
fn air_type_retag_rejected() {
    let prover = prover_at_epoch_100();
    let mut proof = prover.prove_sum(&[1, 2], &[3, 4], SALT).unwrap();
    assert_eq!(proof.public_values(), &[4, 6]);
    assert!(prover.get_verifier().verify(&proof, true).unwrap());
    proof.stark_proof.air_type = AirType::Multiplication;
    assert!(!prover.get_verifier().verify(&proof, true).unwrap());
}

#[test]
fn tampered_commitment_and_public_values_rejected() {
    let prover = prover_at_epoch_100();
    let verifier = prover.get_verifier();
    let proof = prover.prove_fibonacci(8, SALT).unwrap();
    for i in 0..4 {
        let mut p = prover.prove_fibonacci(8, SALT).unwrap();
        p.stark_proof.public_values[i] ^= 1;
        assert!(!verifier.verify(&p, true).unwrap());
    }
    let mut p = prover.prove_fibonacci(8, SALT).unwrap();
    p.committed_public_values.commitment[31] ^= 1;
    assert!(!verifier.verify(&p, true).unwrap());
    assert!(verifier.verify(&proof, true).unwrap());
}

#[test]
fn verify_with_params_uses_the_given_anchors() {
    let prover = prover_at_epoch_100();
    let proof = prover.prove_fibonacci(8, SALT).unwrap();
    let params = *prover.current_params();
    let stranger = IntegratedVerifier::new(b"unrelated", Epoch::new(5)).unwrap();
    assert!(stranger.verify_with_params(&proof, Epoch::new(100), &params, true).unwrap());
    assert!(!stranger.verify_with_params(&proof, Epoch::new(99), &params, true).unwrap());
}

#[test]
fn fibonacci_rejects_bad_heights() {
    let prover = prover_at_epoch_100();
    assert!(matches!(prover.prove_fibonacci(0, SALT), Err(ZKMTDError::InvalidWitness { .. })));
    assert!(prover.prove_fibonacci(1, SALT).is_err());
    assert!(prover.prove_fibonacci(12, SALT).is_err());
    assert!(prover.prove_fibonacci(2, SALT).is_ok());
}

#[test]
fn sum_and_multiplication_reject_mismatched_columns() {
    let prover = prover_at_epoch_100();
    assert!(prover.prove_sum(&[1, 2], &[3], SALT).is_err());
    assert!(prover.prove_multiplication(&[], &[], SALT).is_err());
    let p = prover.prove_multiplication(&[3, 4], &[5, 6], SALT).unwrap();
    assert_eq!(p.public_values(), &[15, 24]);
}

#[test]
fn compression_round_trip_both_algorithms() {
    let mut long_run = vec![5u8; 600];
    long_run.extend_from_slice(&[1, 2, 3, 3, 3]);
    let inputs: Vec<Vec<u8>> = vec![vec![], vec![9], vec![1, 1, 1, 2, 2, 3], long_run];
    for data in inputs {
        for algo in [CompressionAlgorithm::Uncompressed, CompressionAlgorithm::Rle] {
            let proof = Proof::new(data.clone(), 7);
            let c = CompressedProof::compress(&proof, algo).unwrap();
            let back = c.decompress().unwrap();
            assert_eq!(back.data, data);
            assert_eq!(back.epoch, 7);
        }
    }
}

#[test]
fn rle_splits_runs_over_255() {
    let data = vec![5u8; 600];
    assert_eq!(compress_rle(&data), vec![5, 255, 5, 255, 5, 90]);
}

#[test]
fn compression_tamper_detected() {
    let proof = Proof::new(vec![1, 1, 1, 2, 2, 3, 4, 4, 4, 4], 1);
    let c = CompressedProof::compress(&proof, CompressionAlgorithm::Rle).unwrap();
    for i in 0..c.compressed_data.len() {
        let mut t = c.clone();
        t.compressed_data[i] ^= 0x01;
        assert!(matches!(t.decompress(), Err(ZKMTDError::SerializationError { .. })));
    }
    let mut t = c.clone();
    t.checksum[0] ^= 0x01;
    assert!(t.decompress().is_err());
    let mut t = c.clone();
    t.compressed_data.push(1);
    assert!(t.decompress().is_err());
}

#[test]
fn onchain_epoch_window() {
    let committed = [7u8; 32];
    let verifier = OnchainVerifier::new(100, committed).with_epoch_tolerance(3);
    for e in 90..=105u64 {
        let proof = LightweightProof::from_commitment([1u8; 32], e, vec![1, 2], committed);
        let status = verifier.verify(&proof);
        if (97..=100).contains(&e) {
            assert_eq!(status, VerificationStatus::Valid);
        } else {
            assert_eq!(status, VerificationStatus::InvalidEpoch { expected: 100, got: e });
        }
    }
    let wide = OnchainVerifier::new(2, committed).with_epoch_tolerance(10);
    assert!(wide.is_valid_epoch(0));
}

#[test]
fn onchain_commitment_and_committed_values() {
    let committed = [7u8; 32];
    let verifier = OnchainVerifier::new(100, committed);
    let uncoupled = LightweightProof::new([1u8; 32], [2u8; 32], 100, 0, vec![], committed);
    assert_eq!(verifier.verify(&uncoupled), VerificationStatus::InvalidCommitment);
    let batch_member = LightweightProof::new([1u8; 32], [0u8; 32], 100, 0, vec![], committed);
    assert_eq!(verifier.verify(&batch_member), VerificationStatus::Valid);
    let wrong = LightweightProof::from_commitment([1u8; 32], 100, vec![], [8u8; 32]);
    assert_eq!(verifier.verify(&wrong), VerificationStatus::InvalidCommittedValues);
}

#[test]
fn epoch_errors_and_limits() {
    let last = Epoch::new(MAX_EPOCH);
    assert!(matches!(last.next(), Err(ZKMTDError::InvalidEpoch { current, .. }) if current == MAX_EPOCH));
    assert!(Epoch::new(0).prev().is_err());
    assert!(Epoch::new(10).advance(MAX_EPOCH).is_err());
    assert_eq!(Epoch::new(10).advance(5).unwrap().value(), 15);
    assert_eq!(Epoch::from_bytes([1, 0, 0, 0, 0, 0, 0, 0]).value(), 1);
    assert_eq!(Epoch::default().value(), 0);
    assert_eq!(Epoch::new(3).distance(&Epoch::new(10)), 7);
}

#[test]
fn epoch_current_reads_the_clock() {
    // Any clock of this century is past epoch 400000 (mid 2015).
    let now = Epoch::current().unwrap();
    assert!(now.value() > 400_000);
}

#[test]
fn manager_cache_is_fifo_and_bounded() {
    let mut m = MTDManager::with_epoch(SEED, Epoch::new(1000)).unwrap();
    for e in 0..(MTD_PARAM_CACHE_SIZE as u64 + 4) {
        m.get_params(Epoch::new(e)).unwrap();
    }
    assert_eq!(m.cache_stats().size, MTD_PARAM_CACHE_SIZE);
    // A cached epoch is served without growing the cache.
    let p = m.get_params(Epoch::new(10)).unwrap();
    assert_eq!(p, WarpingParams::generate(SEED, Epoch::new(10)).unwrap());
    assert_eq!(m.cache_stats().size, MTD_PARAM_CACHE_SIZE);
    let advanced = m.advance().unwrap();
    assert_eq!(advanced.epoch.value(), 1001);
    assert_eq!(m.current_epoch().value(), 1001);
}

#[test]
fn manager_sync_to() {
    let mut m = MTDManager::with_epoch(SEED, Epoch::new(50)).unwrap();
    m.get_params(Epoch::new(3)).unwrap();
    assert!(!m.sync_to(Epoch::new(50)).unwrap());
    assert!(matches!(m.sync_to(Epoch::new(49)), Err(ZKMTDError::MTDError { .. })));
    assert_eq!(m.current_epoch().value(), 50);
    assert!(m.sync_to(Epoch::new(60)).unwrap());
    assert_eq!(m.current_epoch().value(), 60);
    assert_eq!(m.cache_stats().size, 0);
    // With automatic advance off, sync does nothing.
    assert!(!m.sync().unwrap());
}

#[test]
fn manager_rejects_insecure_entropy() {
    let mut lcg = zkmtd::mtd::entropy::DeterministicEntropy::new(1);
    assert!(matches!(
        MTDManager::new(SEED, &mut lcg),
        Err(ZKMTDError::EntropyError { .. })
    ));
    let mut os = zkmtd::SystemEntropy::new();
    assert!(matches!(MTDManager::new(b"", &mut os), Err(ZKMTDError::MTDError { .. })));
}

#[test]
fn error_messages_carry_details() {
    let e = ZKMTDError::InvalidEpoch { current: 4242, reason: "late".into() };
    assert_eq!(e.to_string(), "Invalid epoch (current: 4242): late");
    let e = ZKMTDError::MTDError { reason: "x".into() };
    assert_eq!(e.to_string(), "MTD error: x");
    assert_eq!(ZKMTDError::InvalidProof.to_string(), "Invalid proof");
}

#[test]
fn witness_is_cleared_by_zeroize() {
    let mut w = Witness::new(vec![9, 9, 9]);
    w.zeroize();
    assert!(w.is_empty());
    let w2 = Witness::from_bytes(&[1, 0, 0, 0, 0, 0, 0, 0, 2]);
    assert_eq!(w2.data, vec![1, 2]);
}

#[test]
fn config_validation_errors() {
    let bad = StarkConfig { security_bits: 300, ..StarkConfig::default() };
    assert!(matches!(bad.validate(), Err(ZKMTDError::ConfigurationError { .. })));
    let bad = StarkConfig { grinding_bits: 31, ..StarkConfig::default() };
    assert!(bad.validate().is_err());
    let bad = StarkConfig { fri_queries: 501, ..StarkConfig::default() };
    assert!(bad.validate().is_err());
    let bad = StarkConfig { blowup_factor: 32, ..StarkConfig::default() };
    assert!(bad.validate().is_err());
    assert_eq!(StarkConfig::default().estimated_proof_size(), 1000 + 100 * 32 * 2 + 32);
    assert_eq!(StarkConfig::for_testing().estimated_proving_time_ms(), 50 + 0 + 25);
    assert!(MTDProver::with_epoch(SEED, bad, Epoch::new(1)).is_err());
}
