//! On-chain acceptance policy for lightweight proofs: epoch window,
//! commitment/root coupling, expected values.

use vstd::prelude::*;
use crate::solana::lightweight::{data_commitment, BatchLightweightProof, LightweightProof, ProofCommitment};
use crate::batching::merkle::{digests_view, path_root};
use crate::utils::constants::{ONCHAIN_BASE_CU, ONCHAIN_BUFFER_CU, ONCHAIN_HASH_CU};

verus! {

/// Outcome of an on-chain verification.
#[derive(Clone, Debug, PartialEq, Eq, Structural)]
pub enum VerificationStatus {
    Valid,
    InvalidEpoch { expected: u64, got: u64 },
    InvalidCommitment,
    InvalidMerkleProof,
    InvalidPublicValues,
    InvalidCommittedValues,
    MalformedProof,
}

impl VerificationStatus {
    pub fn is_valid(&self) -> (r: bool)
        ensures
            r == (self is Valid),
    {
        match self {
            VerificationStatus::Valid => true,
            _ => false,
        }
    }
}

/// `e` lies in `[current - tolerance, current]` (the lower end floored at 0).
pub open spec fn epoch_in_window(current: u64, tolerance: u64, e: u64) -> bool {
    e <= current && current - tolerance <= e
}

/// Whether a single proof's Merkle root is its commitment, or zero (a batch member).
pub open spec fn root_coupled(p: LightweightProof) -> bool {
    p.commitment == p.merkle_root || p.merkle_root@ == Seq::new(32, |i: int| 0u8)
}

/// The verifier's policy for single proofs.
#[derive(Clone, Debug)]
pub struct OnchainVerifier {
    current_epoch: u64,
    epoch_tolerance: u64,
    expected_public_values: Option<Vec<u64>>,
    expected_committed_values: [u8; 32],
}

impl OnchainVerifier {
    pub closed spec fn spec_current_epoch(&self) -> u64 {
        self.current_epoch
    }

    pub closed spec fn spec_tolerance(&self) -> u64 {
        self.epoch_tolerance
    }

    pub closed spec fn spec_expected_values(&self) -> Option<Seq<u64>> {
        match self.expected_public_values {
            Some(v) => Some(v@),
            None => None,
        }
    }

    pub closed spec fn spec_expected_committed(&self) -> [u8; 32] {
        self.expected_committed_values
    }

    /// A verifier at `current_epoch` with a tolerance of one epoch.
    pub fn new(current_epoch: u64, expected_committed_values: [u8; 32]) -> (r: Self)
        ensures
            r.spec_current_epoch() == current_epoch,
            r.spec_tolerance() == 1,
            r.spec_expected_values() is None,
            r.spec_expected_committed() == expected_committed_values,
    {
        OnchainVerifier {
            current_epoch,
            epoch_tolerance: 1,
            expected_public_values: None,
            expected_committed_values,
        }
    }

    pub fn with_epoch_tolerance(self, tolerance: u64) -> (r: Self)
        ensures
            r.spec_tolerance() == tolerance,
            r.spec_current_epoch() == self.spec_current_epoch(),
            r.spec_expected_values() == self.spec_expected_values(),
            r.spec_expected_committed() == self.spec_expected_committed(),
    {
        OnchainVerifier { epoch_tolerance: tolerance, ..self }
    }

    pub fn with_expected_values(self, values: Vec<u64>) -> (r: Self)
        ensures
            r.spec_expected_values() == Some(values@),
            r.spec_tolerance() == self.spec_tolerance(),
            r.spec_current_epoch() == self.spec_current_epoch(),
            r.spec_expected_committed() == self.spec_expected_committed(),
    {
        OnchainVerifier { expected_public_values: Some(values), ..self }
    }

    pub fn with_expected_committed_values(self, committed: [u8; 32]) -> (r: Self)
        ensures
            r.spec_expected_committed() == committed,
            r.spec_tolerance() == self.spec_tolerance(),
            r.spec_current_epoch() == self.spec_current_epoch(),
            r.spec_expected_values() == self.spec_expected_values(),
    {
        OnchainVerifier { expected_committed_values: committed, ..self }
    }

    /// Whether `proof_epoch` is accepted: not in the future and at most
    /// `tolerance` epochs old.
    pub fn is_valid_epoch(&self, proof_epoch: u64) -> (r: bool)
        ensures
            r == epoch_in_window(self.spec_current_epoch(), self.spec_tolerance(), proof_epoch),
    {
        if proof_epoch > self.current_epoch {
            return false;
        }
        let lower = if self.current_epoch >= self.epoch_tolerance {
            self.current_epoch - self.epoch_tolerance
        } else {
            0
        };
        lower <= proof_epoch
    }

    fn values_equal(actual: &Vec<u64>, expected: &Vec<u64>) -> (r: bool)
        ensures
            r == (actual@ == expected@),
    {
        if actual.len() != expected.len() {
            return false;
        }
        let mut i: usize = 0;
        while i < actual.len()
            invariant
                actual@.len() == expected@.len(),
                i <= actual@.len(),
                forall|k: int| 0 <= k < i ==> actual@[k] == expected@[k],
            decreases actual@.len() - i,
        {
            if actual[i] != expected[i] {
                return false;
            }
            i = i + 1;
        }
        assert(actual@ =~= expected@);
        true
    }

    fn is_zero(d: &[u8; 32]) -> (r: bool)
        ensures
            r == (d@ == Seq::new(32, |i: int| 0u8)),
    {
        let mut i: usize = 0;
        while i < 32
            invariant
                i <= 32,
                d@.len() == 32,
                forall|k: int| 0 <= k < i ==> d@[k] == 0u8,
            decreases 32 - i,
        {
            if d[i] != 0 {
                return false;
            }
            i = i + 1;
        }
        assert(d@ =~= Seq::new(32, |i: int| 0u8));
        true
    }

    fn digest_eq(a: &[u8; 32], b: &[u8; 32]) -> (r: bool)
        ensures
            r == (*a == *b),
    {
        let e = crate::utils::hash::constant_time_eq_fixed(a, b);
        proof {
            if a@ == b@ {
                assert(a@ =~= b@);
                vstd::array::lemma_array_index(*a, 0);
                assert(*a == *b);
            }
        }
        e
    }

    /// Checks, in order: the epoch window, the commitment/root coupling, the
    /// expected public values (if set), the expected committed values.
    pub fn verify(&self, proof: &LightweightProof) -> (r: VerificationStatus)
        ensures
            !epoch_in_window(self.spec_current_epoch(), self.spec_tolerance(), proof.epoch) ==> r
                == (VerificationStatus::InvalidEpoch {
                expected: self.spec_current_epoch(),
                got: proof.epoch,
            }),
            epoch_in_window(self.spec_current_epoch(), self.spec_tolerance(), proof.epoch) ==> {
                if !root_coupled(*proof) {
                    r == VerificationStatus::InvalidCommitment
                } else if self.spec_expected_values() is Some && proof.public_values@
                    != self.spec_expected_values()->Some_0 {
                    r == VerificationStatus::InvalidPublicValues
                } else if proof.committed_values != self.spec_expected_committed() {
                    r == VerificationStatus::InvalidCommittedValues
                } else {
                    r == VerificationStatus::Valid
                }
            },
    {
        if !self.is_valid_epoch(proof.epoch) {
            return VerificationStatus::InvalidEpoch {
                expected: self.current_epoch,
                got: proof.epoch,
            };
        }
        if !Self::digest_eq(&proof.commitment, &proof.merkle_root) && !Self::is_zero(
            &proof.merkle_root,
        ) {
            return VerificationStatus::InvalidCommitment;
        }
        match &self.expected_public_values {
            Some(expected) => {
                if !Self::values_equal(&proof.public_values, expected) {
                    return VerificationStatus::InvalidPublicValues;
                }
            },
            None => {},
        }
        if !Self::digest_eq(&proof.committed_values, &self.expected_committed_values) {
            return VerificationStatus::InvalidCommittedValues;
        }
        VerificationStatus::Valid
    }

    /// Checks a batch member: the epoch window, then Merkle inclusion.
    pub fn verify_batch(&self, batch_proof: &BatchLightweightProof) -> (r: VerificationStatus)
        ensures
            !epoch_in_window(self.spec_current_epoch(), self.spec_tolerance(), batch_proof.epoch)
                ==> r == (VerificationStatus::InvalidEpoch {
                expected: self.spec_current_epoch(),
                got: batch_proof.epoch,
            }),
            epoch_in_window(self.spec_current_epoch(), self.spec_tolerance(), batch_proof.epoch)
                ==> r == if path_root(
                batch_proof.leaf_commitment@,
                batch_proof.leaf_index as nat,
                digests_view(batch_proof.merkle_path@),
            ) == batch_proof.merkle_root@ {
                VerificationStatus::Valid
            } else {
                VerificationStatus::InvalidMerkleProof
            },
    {
        if !self.is_valid_epoch(batch_proof.epoch) {
            return VerificationStatus::InvalidEpoch {
                expected: self.current_epoch,
                got: batch_proof.epoch,
            };
        }
        if !batch_proof.verify_inclusion() {
            return VerificationStatus::InvalidMerkleProof;
        }
        VerificationStatus::Valid
    }

    /// Whether `proof_data` hashes to `commitment`.
    pub fn verify_commitment(&self, commitment: &ProofCommitment, proof_data: &[u8]) -> (r: bool)
        ensures
            r == (commitment.hash@ == data_commitment(proof_data@)),
    {
        commitment.verify(proof_data)
    }

    /// `500 + (⌊size / 64⌋ + 1) · 100 + 200` compute units.
    pub fn estimate_cu(proof_size_bytes: usize) -> (r: u64)
        requires
            (proof_size_bytes / 64 + 1) * 100 + 700 <= u64::MAX,
        ensures
            r == ONCHAIN_BASE_CU + (proof_size_bytes / 64 + 1) * ONCHAIN_HASH_CU + ONCHAIN_BUFFER_CU,
    {
        let hash_cu = ((proof_size_bytes / 64) as u64 + 1) * ONCHAIN_HASH_CU;
        ONCHAIN_BASE_CU + hash_cu + ONCHAIN_BUFFER_CU
    }
}

/// Proofs accepted by `OnchainVerifier(e, tolerance = k)` are exactly those
/// whose epoch lies in `[e - k, e]`: any epoch in the window passes the
/// epoch check, and any epoch outside it is reported as `InvalidEpoch`.
pub proof fn lemma_epoch_window(current: u64, tolerance: u64, e: u64)
    ensures
        epoch_in_window(current, tolerance, e) <==> (e <= current && (current as int) - (
        tolerance as int) <= e as int),
        e > current ==> !epoch_in_window(current, tolerance, e),
        tolerance <= current && e < current - tolerance ==> !epoch_in_window(current, tolerance, e),
{
}

} // verus!
