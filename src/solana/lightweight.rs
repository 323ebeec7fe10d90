//! Compact proof records for verification under a tight compute budget.

use vstd::prelude::*;
use vstd::string::StringSliceAdditionalSpecFns;
use crate::batching::merkle::{digests_view, path_root};
use crate::utils::constants::{DOMAIN_COMMITMENT, DOMAIN_MERKLE, DOMAIN_SEED_FINGERPRINT};
use crate::utils::hash::{
    combine_hashes, constant_time_eq_fixed, le_prefix_value, le_value, poseidon_digest,
    poseidon_hash,
};

verus! {

/// Compute units that verifying one lightweight proof is budgeted at.
pub const LIGHTWEIGHT_ESTIMATED_CU: u64 = 5000;

/// A commitment with its Merkle root, epoch, time and values. For a single
/// proof the Merkle root equals the commitment.
#[derive(Clone, Debug, PartialEq)]
pub struct LightweightProof {
    pub commitment: [u8; 32],
    pub merkle_root: [u8; 32],
    pub epoch: u64,
    pub timestamp: u64,
    pub public_values: Vec<u64>,
    pub committed_values: [u8; 32],
}

impl LightweightProof {
    pub fn new(
        commitment: [u8; 32],
        merkle_root: [u8; 32],
        epoch: u64,
        timestamp: u64,
        public_values: Vec<u64>,
        committed_values: [u8; 32],
    ) -> (r: Self)
        ensures
            r.commitment == commitment,
            r.merkle_root == merkle_root,
            r.epoch == epoch,
            r.timestamp == timestamp,
            r.public_values@ == public_values@,
            r.committed_values == committed_values,
    {
        LightweightProof {
            commitment,
            merkle_root,
            epoch,
            timestamp,
            public_values,
            committed_values,
        }
    }

    /// A single proof: the Merkle root is the commitment and the timestamp is
    /// left at 0 for the chain to set.
    pub fn from_commitment(
        commitment: [u8; 32],
        epoch: u64,
        public_values: Vec<u64>,
        committed_values: [u8; 32],
    ) -> (r: Self)
        ensures
            r.commitment == commitment,
            r.merkle_root == commitment,
            r.epoch == epoch,
            r.timestamp == 0,
            r.public_values@ == public_values@,
            r.committed_values == committed_values,
    {
        LightweightProof {
            commitment,
            merkle_root: commitment,
            epoch,
            timestamp: 0,
            public_values,
            committed_values,
        }
    }

    /// The compute-unit budget of one verification.
    pub fn estimated_cu() -> (r: u64)
        ensures
            r == LIGHTWEIGHT_ESTIMATED_CU,
    {
        LIGHTWEIGHT_ESTIMATED_CU
    }
}

/// `H(data, DOMAIN_COMMITMENT)`.
pub open spec fn data_commitment(data: Seq<u8>) -> Seq<u8> {
    poseidon_digest(data, DOMAIN_COMMITMENT.spec_bytes())
}

/// The first 8 bytes, little-endian, of `H(seed, DOMAIN_SEED_FINGERPRINT)`.
pub open spec fn seed_fingerprint(seed: Seq<u8>) -> nat {
    le_value(poseidon_digest(seed, DOMAIN_SEED_FINGERPRINT.spec_bytes()).take(8))
}

/// A commitment to proof bytes, with the epoch and a fingerprint of the seed.
#[derive(Clone, Debug, PartialEq)]
pub struct ProofCommitment {
    pub hash: [u8; 32],
    pub epoch: u64,
    pub seed_fingerprint: u64,
}

impl ProofCommitment {
    pub fn from_data(proof_data: &[u8], epoch: u64, seed: &[u8]) -> (r: Self)
        ensures
            r.hash@ == data_commitment(proof_data@),
            r.epoch == epoch,
            r.seed_fingerprint as nat == seed_fingerprint(seed@),
    {
        let hash = poseidon_hash(proof_data, DOMAIN_COMMITMENT.as_bytes());
        let seed_hash = poseidon_hash(seed, DOMAIN_SEED_FINGERPRINT.as_bytes());
        let fp = le_prefix_value(seed_hash.as_slice(), 0, 32);
        assert(seed_hash@.subrange(0, 32) =~= seed_hash@);
        ProofCommitment { hash, epoch, seed_fingerprint: fp }
    }

    /// Whether `proof_data` hashes to this commitment (constant-time compare).
    pub fn verify(&self, proof_data: &[u8]) -> (r: bool)
        ensures
            r == (self.hash@ == data_commitment(proof_data@)),
    {
        let computed = poseidon_hash(proof_data, DOMAIN_COMMITMENT.as_bytes());
        constant_time_eq_fixed(&self.hash, &computed)
    }
}

/// One member of a batch: its leaf, index and Merkle path to the batch root.
#[derive(Clone, Debug)]
pub struct BatchLightweightProof {
    pub merkle_root: [u8; 32],
    pub proof_count: u32,
    pub epoch: u64,
    pub merkle_path: Vec<[u8; 32]>,
    pub leaf_index: u32,
    pub leaf_commitment: [u8; 32],
}

impl BatchLightweightProof {
    /// Whether the leaf's path leads to the batch root.
    pub fn verify_inclusion(&self) -> (r: bool)
        ensures
            r == (path_root(
                self.leaf_commitment@,
                self.leaf_index as nat,
                digests_view(self.merkle_path@),
            ) == self.merkle_root@),
    {
        let mut current: [u8; 32] = self.leaf_commitment;
        let mut index: u32 = self.leaf_index;
        let n = self.merkle_path.len();
        let mut i: usize = 0;
        assert(digests_view(self.merkle_path@).subrange(0, n as int) =~= digests_view(
            self.merkle_path@,
        ));
        while i < n
            invariant
                n == self.merkle_path@.len(),
                i <= n,
                path_root(
                    current@,
                    index as nat,
                    digests_view(self.merkle_path@).subrange(i as int, n as int),
                ) == path_root(
                    self.leaf_commitment@,
                    self.leaf_index as nat,
                    digests_view(self.merkle_path@),
                ),
            decreases n - i,
        {
            let ghost rest = digests_view(self.merkle_path@).subrange(i as int, n as int);
            assert(rest.drop_first() =~= digests_view(self.merkle_path@).subrange(
                i + 1,
                n as int,
            ));
            let sib = &self.merkle_path[i];
            current = if index % 2 == 0 {
                combine_hashes(&current, sib, DOMAIN_MERKLE.as_bytes())
            } else {
                combine_hashes(sib, &current, DOMAIN_MERKLE.as_bytes())
            };
            index = index / 2;
            i = i + 1;
        }
        assert(digests_view(self.merkle_path@).subrange(n as int, n as int) =~= Seq::<
            Seq<u8>,
        >::empty());
        constant_time_eq_fixed(&current, &self.merkle_root)
    }

    /// `500 + 300 · depth` compute units.
    pub fn estimated_cu(&self) -> (r: u64)
        requires
            500 + 300 * self.merkle_path@.len() <= u64::MAX,
        ensures
            r == 500 + 300 * self.merkle_path@.len(),
    {
        let depth = self.merkle_path.len() as u64;
        500 + depth * 300
    }
}

} // verus!
