//! Verification of proof batches: the Merkle root, then every proof on its own.

use vstd::prelude::*;
use crate::batching::aggregator::{leaves_of, proof_leaves};
use crate::batching::merkle::{digests_view, lemma_merkle_round_trip, root_of, MerkleTree};
use crate::common::errors::{Result, ZKMTDError};
use crate::common::traits::Verifier;
use crate::common::types::{ProofBatch, PublicInputs};
use crate::utils::hash::constant_time_eq_fixed;

verus! {

/// Checks batches with an inner verifier for the single proofs.
#[derive(Debug, Clone)]
pub struct BatchVerifier<V> {
    verifier: V,
}

/// Whether every proof of the batch carries the batch's epoch.
pub open spec fn epochs_match(batch: ProofBatch) -> bool {
    forall|i: int| 0 <= i < batch.proofs@.len() ==> (#[trigger] batch.proofs@[i]).epoch == batch.epoch
}

impl<V: Verifier> BatchVerifier<V> {
    pub closed spec fn spec_verifier(&self) -> V {
        self.verifier
    }

    /// Whether the inner verifier accepts every `(proof, inputs)` pair.
    pub open spec fn all_verify(&self, batch: ProofBatch, public_inputs: Seq<PublicInputs>) -> bool {
        forall|i: int|
            0 <= i < batch.proofs@.len() ==> #[trigger] self.spec_verifier().verifies(
                batch.proofs@[i],
                public_inputs[i],
            )
    }

    pub fn new(verifier: V) -> (r: Self)
        ensures
            r.spec_verifier() == verifier,
    {
        BatchVerifier { verifier }
    }

    pub fn inner_verifier(&self) -> (r: &V)
        ensures
            *r == self.spec_verifier(),
    {
        &self.verifier
    }

    fn check_epochs(batch: &ProofBatch) -> (r: bool)
        ensures
            r == epochs_match(*batch),
    {
        let mut i: usize = 0;
        while i < batch.proofs.len()
            invariant
                i <= batch.proofs@.len(),
                forall|k: int| 0 <= k < i ==> (#[trigger] batch.proofs@[k]).epoch == batch.epoch,
            decreases batch.proofs@.len() - i,
        {
            if batch.proofs[i].epoch != batch.epoch {
                return false;
            }
            i = i + 1;
        }
        true
    }

    /// Fails when the counts differ, the batch is empty, or a proof is of
    /// another epoch than the batch. Then compares the recomputed Merkle root
    /// with the batch's (constant-time) and verifies every proof with its
    /// inputs; an error of a single verification is passed on.
    pub fn verify_batch(&self, batch: &ProofBatch, public_inputs: &[PublicInputs]) -> (r: Result<bool>)
        ensures
            batch.proofs@.len() != public_inputs@.len() ==> r is Err && r->Err_0 is BatchError,
            batch.proofs@.len() == public_inputs@.len() && batch.proofs@.len() == 0 ==> r is Err
                && r->Err_0 is BatchError,
            batch.proofs@.len() == public_inputs@.len() && batch.proofs@.len() > 0
                && !epochs_match(*batch) ==> r is Err && r->Err_0 is InvalidEpoch,
            batch.proofs@.len() == public_inputs@.len() && batch.proofs@.len() > 0 && epochs_match(
                *batch,
            ) && root_of(proof_leaves(batch.proofs@)) != batch.merkle_root@ ==> r == Ok::<
                bool,
                ZKMTDError,
            >(false),
            r is Ok ==> (r->Ok_0 <==> (root_of(proof_leaves(batch.proofs@)) == batch.merkle_root@
                && self.all_verify(*batch, public_inputs@))),
    {
        if batch.proofs.len() != public_inputs.len() {
            return Err(ZKMTDError::BatchError { reason: "Number of proofs and public inputs do not match".to_owned() });
        }
        if batch.proofs.len() == 0 {
            return Err(ZKMTDError::BatchError { reason: "Batch is empty".to_owned() });
        }
        if !Self::check_epochs(batch) {
            return Err(ZKMTDError::InvalidEpoch {
                current: batch.epoch,
                reason: "Proof epoch does not match batch epoch".to_owned(),
            });
        }
        let leaves = leaves_of(batch.proofs.as_slice());
        let tree = match MerkleTree::new(leaves) {
            Ok(t) => t,
            Err(e) => {
                return Err(e);
            },
        };
        if !constant_time_eq_fixed(tree.root(), &batch.merkle_root) {
            return Ok(false);
        }
        let n = batch.proofs.len();
        let mut i: usize = 0;
        while i < n
            invariant
                n == batch.proofs@.len(),
                n == public_inputs@.len(),
                n > 0,
                epochs_match(*batch),
                i <= n,
                root_of(proof_leaves(batch.proofs@)) == batch.merkle_root@,
                forall|k: int|
                    0 <= k < i ==> #[trigger] self.spec_verifier().verifies(
                        batch.proofs@[k],
                        public_inputs@[k],
                    ),
            decreases n - i,
        {
            match self.verifier.verify(&batch.proofs[i], &public_inputs[i]) {
                Ok(true) => {},
                Ok(false) => {
                    assert(!self.spec_verifier().verifies(batch.proofs@[i as int], public_inputs@[i as int]));
                    assert(!self.all_verify(*batch, public_inputs@));
                    return Ok(false);
                },
                Err(e) => {
                    return Err(e);
                },
            }
            i = i + 1;
        }
        Ok(true)
    }

    /// Checks one member: fails on an out-of-range index; otherwise accepts
    /// when the proof is of the batch's epoch, its Merkle path (rebuilt from
    /// the batch) leads to the recomputed root, and the inner verifier accepts it.
    pub fn verify_single_in_batch(
        &self,
        batch: &ProofBatch,
        index: usize,
        public_inputs: &PublicInputs,
    ) -> (r: Result<bool>)
        ensures
            index >= batch.proofs@.len() ==> r is Err && r->Err_0 is BatchError,
            index < batch.proofs@.len() && batch.proofs@[index as int].epoch != batch.epoch ==> r
                == Ok::<bool, ZKMTDError>(false),
            r is Ok ==> (r->Ok_0 <==> (batch.proofs@[index as int].epoch == batch.epoch
                && self.spec_verifier().verifies(batch.proofs@[index as int], *public_inputs))),
    {
        if index >= batch.proofs.len() {
            return Err(ZKMTDError::BatchError { reason: "Invalid index".to_owned() });
        }
        if batch.proofs[index].epoch != batch.epoch {
            return Ok(false);
        }
        let leaves = leaves_of(batch.proofs.as_slice());
        let ghost lv = digests_view(leaves@);
        let leaf = leaves[index];
        let tree = match MerkleTree::new(leaves) {
            Ok(t) => t,
            Err(e) => {
                return Err(e);
            },
        };
        let path = match tree.get_proof(index) {
            Ok(p) => p,
            Err(e) => {
                return Err(e);
            },
        };
        proof {
            lemma_merkle_round_trip(lv, index as int);
        }
        if !path.verify(&leaf) {
            return Ok(false);
        }
        self.verifier.verify(&batch.proofs[index], public_inputs)
    }
}

} // verus!
