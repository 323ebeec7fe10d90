use zkmtd::batching::merkle::{hash_leaf, MerkleTree};
use zkmtd::batching::{create_proof_batch, prove_batch, BatchProver, BatchVerifier};
use zkmtd::common::errors::{Result, ZKMTDError};
use zkmtd::common::traits::{BatchProver as BatchProverTrait, Prover, Verifier};
use zkmtd::common::types::{Proof, ProofBatch, PublicInputs, Witness};
use zkmtd::mtd::Epoch;
use zkmtd::utils::hash::HashDigest;

/// Proves by writing the witness and inputs out, stamped with its epoch.
struct StampProver {
    epoch: u64,
}

impl Prover for StampProver {
    fn proves(&self, _witness: Witness, _public_inputs: PublicInputs, proof: Proof) -> bool {
        proof.epoch == self.epoch
    }


    fn prove(&self, witness: &Witness, public_inputs: &PublicInputs) -> Result<Proof> {
        if witness.len() < 4 {
            return Err(ZKMTDError::InvalidWitness { reason: "too small".into() });
        }
        let mut data = Vec::new();
        for v in witness.data.iter().chain(public_inputs.data.iter()) {
            data.extend_from_slice(&v.to_le_bytes());
        }
        Ok(Proof::new(data, self.epoch))
    }

    fn min_witness_size(&self) -> usize {
        4
    }

    fn min_public_inputs_size(&self) -> usize {
        1
    }
}

/// Accepts non-empty proofs of its epoch whose last 8 bytes are the first input.
struct StampVerifier {
    epoch: u64,
}

impl Verifier for StampVerifier {
    fn verifies(&self, proof: Proof, public_inputs: PublicInputs) -> bool {
        self.verify(&proof, &public_inputs).unwrap_or(false)
    }


    fn verify(&self, proof: &Proof, public_inputs: &PublicInputs) -> Result<bool> {
        if proof.data.len() < 8 || public_inputs.data.is_empty() {
            return Ok(false);
        }
        let tail = &proof.data[proof.data.len() - 8..];
        Ok(proof.epoch == self.epoch && tail == &public_inputs.data[0].to_le_bytes()[..])
    }
}

fn three_witnesses() -> (Vec<Witness>, Vec<PublicInputs>) {
    (
        vec![
            Witness::new(vec![1, 2, 3, 4, 5, 6, 7, 8]),
            Witness::new(vec![9, 10, 11, 12, 13, 14, 15, 16]),
            Witness::new(vec![17, 18, 19, 20, 21, 22, 23, 24]),
        ],
        vec![
            PublicInputs::new(vec![42]),
            PublicInputs::new(vec![43]),
            PublicInputs::new(vec![44]),
        ],
    )
}

#[test]
fn test_merkle_tree_creation() {
    let leaves = vec![[1u8; 32], [2u8; 32], [3u8; 32], [4u8; 32]];

    let tree = MerkleTree::new(leaves.clone()).unwrap();
    assert_eq!(tree.num_leaves(), 4);
    assert_ne!(tree.root(), &[0u8; 32]);
}

#[test]
fn test_merkle_tree_empty_leaves() {
    let leaves: Vec<HashDigest> = vec![];
    let result = MerkleTree::new(leaves);
    assert!(result.is_err());
}

#[test]
fn test_merkle_tree_single_leaf() {
    let leaves = vec![[1u8; 32]];
    let tree = MerkleTree::new(leaves).unwrap();
    assert_eq!(tree.num_leaves(), 1);
}

#[test]
fn test_merkle_proof_generation() {
    let leaves = vec![[1u8; 32], [2u8; 32], [3u8; 32], [4u8; 32]];

    let tree = MerkleTree::new(leaves.clone()).unwrap();

    for i in 0..4 {
        let proof = tree.get_proof(i).unwrap();
        assert_eq!(proof.leaf_index, i);
        assert!(!proof.siblings.is_empty());
    }
}

#[test]
fn test_merkle_proof_verification() {
    let leaves = vec![[1u8; 32], [2u8; 32], [3u8; 32], [4u8; 32]];

    let tree = MerkleTree::new(leaves.clone()).unwrap();

    // Verify paths for all leaves
    for (i, leaf) in leaves.iter().enumerate() {
        let proof = tree.get_proof(i).unwrap();
        assert!(
            proof.verify(leaf),
            "Path verification failed for index {}",
            i
        );
    }
}

#[test]
fn test_merkle_proof_invalid() {
    let leaves = vec![[1u8; 32], [2u8; 32], [3u8; 32], [4u8; 32]];

    let tree = MerkleTree::new(leaves).unwrap();
    let proof = tree.get_proof(0).unwrap();

    // Verify with wrong leaf
    let wrong_leaf = [99u8; 32];
    assert!(!proof.verify(&wrong_leaf), "Wrong leaf was verified");
}

#[test]
fn test_hash_leaf() {
    let data = b"test data";
    let hash = hash_leaf(data);
    assert_ne!(hash, [0u8; 32]);

    // Same data produces same hash
    let hash2 = hash_leaf(data);
    assert_eq!(hash, hash2);
}

#[test]
fn test_merkle_tree_odd_leaves() {
    // Odd number of leaves
    let leaves = vec![[1u8; 32], [2u8; 32], [3u8; 32]];

    let tree = MerkleTree::new(leaves.clone()).unwrap();
    assert_eq!(tree.num_leaves(), 3);

    // Verify all leaves
    for (i, leaf) in leaves.iter().enumerate() {
        let proof = tree.get_proof(i).unwrap();
        assert!(proof.verify(leaf));
    }
}


#[test]
fn test_batch_prover_creation() {
    let prover = BatchProver::new(StampProver { epoch: 100 });
    assert_eq!(prover.min_witness_size(), 4);
}

#[test]
fn test_batch_prover_prove_batch() {
    let epoch = Epoch::new(100);
    let prover = BatchProver::new(StampProver { epoch: epoch.value() });
    let (witnesses, inputs) = three_witnesses();
    let proofs = prover.prove_batch(&witnesses, &inputs).unwrap();
    assert_eq!(proofs.len(), 3);
    for proof in &proofs {
        assert!(!proof.is_empty());
        assert_eq!(proof.epoch, epoch.value());
    }
}

#[test]
fn test_batch_prover_mismatched_lengths() {
    let prover = BatchProver::new(StampProver { epoch: 100 });
    let witnesses = vec![Witness::new(vec![1, 2, 3, 4, 5, 6, 7, 8])];
    let inputs = vec![PublicInputs::new(vec![42]), PublicInputs::new(vec![43])];
    let result = prover.prove_batch(&witnesses, &inputs);
    assert!(result.is_err());
}

#[test]
fn test_batch_prover_empty_batch() {
    let prover = BatchProver::new(StampProver { epoch: 100 });
    let witnesses: Vec<Witness> = vec![];
    let inputs: Vec<PublicInputs> = vec![];
    let result = prover.prove_batch(&witnesses, &inputs);
    assert!(result.is_err());
}

#[test]
fn batch_prover_rejects_oversized_batch_and_passes_errors() {
    let prover = StampProver { epoch: 1 };
    let witnesses = vec![Witness::new(vec![1, 2, 3, 4]); 1001];
    let inputs = vec![PublicInputs::new(vec![1]); 1001];
    assert!(matches!(prove_batch(&prover, &witnesses, &inputs), Err(ZKMTDError::BatchError { .. })));
    let small = vec![Witness::new(vec![1, 2])];
    let one = vec![PublicInputs::new(vec![1])];
    assert!(matches!(prove_batch(&prover, &small, &one), Err(ZKMTDError::InvalidWitness { .. })));
}

#[test]
fn test_create_proof_batch() {
    let epoch = Epoch::new(100);
    let prover = BatchProver::new(StampProver { epoch: epoch.value() });
    let (witnesses, inputs) = three_witnesses();
    let proofs = prover.prove_batch(&witnesses[..2], &inputs[..2]).unwrap();
    let batch = create_proof_batch(proofs, epoch.value()).unwrap();
    assert_eq!(batch.len(), 2);
    assert_eq!(batch.epoch, epoch.value());
    assert_ne!(batch.merkle_root, [0u8; 32]);
}

#[test]
fn test_create_proof_batch_mismatched_epochs() {
    let p1 = StampProver { epoch: 100 };
    let p2 = StampProver { epoch: 101 };
    let w = Witness::new(vec![1, 2, 3, 4, 5, 6, 7, 8]);
    let i = PublicInputs::new(vec![42]);
    let proofs = vec![p1.prove(&w, &i).unwrap(), p2.prove(&w, &i).unwrap()];
    let result = create_proof_batch(proofs, 100);
    assert!(result.is_err());
}

fn batch_at_100() -> (ProofBatch, Vec<PublicInputs>) {
    let prover = BatchProver::new(StampProver { epoch: 100 });
    let (witnesses, inputs) = three_witnesses();
    let proofs = prover.prove_batch(&witnesses, &inputs).unwrap();
    (create_proof_batch(proofs, 100).unwrap(), inputs)
}

#[test]
fn test_batch_verifier_valid_batch() {
    let (batch, inputs) = batch_at_100();
    let verifier = BatchVerifier::new(StampVerifier { epoch: 100 });
    assert!(verifier.verify_batch(&batch, &inputs).unwrap());
}

#[test]
fn test_batch_verifier_tampered_merkle_root() {
    let (mut batch, inputs) = batch_at_100();
    let verifier = BatchVerifier::new(StampVerifier { epoch: 100 });
    batch.merkle_root = [99u8; 32];
    assert!(!verifier.verify_batch(&batch, &inputs).unwrap());
}

#[test]
fn test_batch_verifier_single_in_batch() {
    let (batch, inputs) = batch_at_100();
    let verifier = BatchVerifier::new(StampVerifier { epoch: 100 });
    for i in 0..3 {
        assert!(verifier.verify_single_in_batch(&batch, i, &inputs[i]).unwrap());
    }
    // The inputs of another member do not verify.
    assert!(!verifier.verify_single_in_batch(&batch, 0, &inputs[1]).unwrap());
    assert!(verifier.verify_single_in_batch(&batch, 3, &inputs[0]).is_err());
}

#[test]
fn test_batch_verifier_mismatched_lengths() {
    let (batch, inputs) = batch_at_100();
    let verifier = BatchVerifier::new(StampVerifier { epoch: 100 });
    let result = verifier.verify_batch(&batch, &inputs[..2]);
    assert!(result.is_err());
}

#[test]
fn test_batch_verifier_empty_batch() {
    let verifier = BatchVerifier::new(StampVerifier { epoch: 100 });
    let empty_batch = ProofBatch::new(vec![], [0u8; 32], 100);
    let inputs: Vec<PublicInputs> = vec![];
    let result = verifier.verify_batch(&empty_batch, &inputs);
    assert!(result.is_err());
}

#[test]
fn batch_verifier_checks_every_proof() {
    let (batch, mut inputs) = batch_at_100();
    let verifier = BatchVerifier::new(StampVerifier { epoch: 100 });
    inputs[2] = PublicInputs::new(vec![7]);
    assert!(!verifier.verify_batch(&batch, &inputs).unwrap());
    let later = BatchVerifier::new(StampVerifier { epoch: 101 });
    let (batch, inputs) = batch_at_100();
    assert!(!later.verify_batch(&batch, &inputs).unwrap());
}

#[test]
fn create_proof_batch_rejects_empty_list() {
    assert!(matches!(create_proof_batch(vec![], 100), Err(ZKMTDError::BatchError { .. })));
}
