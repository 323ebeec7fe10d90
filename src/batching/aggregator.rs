//! Grouping proofs of one epoch under a Merkle root, and the batch prover handle.

use vstd::prelude::*;
use vstd::string::StringSliceAdditionalSpecFns;
use crate::batching::merkle::{digests_view, hash_leaf, root_of, MerkleTree};
use crate::common::errors::{Result, ZKMTDError};
use crate::common::traits::{BatchProver as BatchProverTrait, Prover};
use crate::common::types::{Proof, ProofBatch, PublicInputs, Witness};
use crate::utils::constants::{DOMAIN_MERKLE, MAX_BATCH_SIZE};
use crate::utils::hash::poseidon_digest;

verus! {

/// The Merkle leaves of a list of proofs: `H(proof.data, DOMAIN_MERKLE)` each.
pub open spec fn proof_leaves(proofs: Seq<Proof>) -> Seq<Seq<u8>> {
    proofs.map_values(|p: Proof| poseidon_digest(p.data@, DOMAIN_MERKLE.spec_bytes()))
}

/// Computes the Merkle leaves of `proofs`.
pub fn leaves_of(proofs: &[Proof]) -> (r: Vec<[u8; 32]>)
    ensures
        digests_view(r@) == proof_leaves(proofs@),
        r@.len() == proofs@.len(),
{
    let mut out: Vec<[u8; 32]> = Vec::new();
    let mut i: usize = 0;
    while i < proofs.len()
        invariant
            i <= proofs@.len(),
            out@.len() == i,
            forall|k: int| 0 <= k < i ==> (#[trigger] out@[k])@ == poseidon_digest(
                proofs@[k].data@,
                DOMAIN_MERKLE.spec_bytes(),
            ),
        decreases proofs@.len() - i,
    {
        let leaf = hash_leaf(proofs[i].data.as_slice());
        out.push(leaf);
        i = i + 1;
    }
    assert(digests_view(out@) =~= proof_leaves(proofs@));
    out
}

/// Groups proofs of `epoch` under the Merkle root of their leaves. Fails on
/// an empty list or on a proof of another epoch.
pub fn create_proof_batch(proofs: Vec<Proof>, epoch: u64) -> (r: Result<ProofBatch>)
    ensures
        (proofs@.len() > 0 && forall|i: int| 0 <= i < proofs@.len() ==> (#[trigger] proofs@[i]).epoch
            == epoch) <==> r is Ok,
        r is Err ==> r->Err_0 is BatchError,
        r is Ok ==> {
            &&& r->Ok_0.proofs@ == proofs@
            &&& r->Ok_0.epoch == epoch
            &&& r->Ok_0.merkle_root@ == root_of(proof_leaves(proofs@))
        },
{
    if proofs.len() == 0 {
        return Err(ZKMTDError::BatchError { reason: "Proofs are empty".to_owned() });
    }
    let mut i: usize = 0;
    while i < proofs.len()
        invariant
            i <= proofs@.len(),
            forall|k: int| 0 <= k < i ==> (#[trigger] proofs@[k]).epoch == epoch,
        decreases proofs@.len() - i,
    {
        if proofs[i].epoch != epoch {
            return Err(ZKMTDError::BatchError { reason: "Proof epoch mismatch".to_owned() });
        }
        i = i + 1;
    }
    let leaves = leaves_of(proofs.as_slice());
    let tree = match MerkleTree::new(leaves) {
        Ok(t) => t,
        Err(e) => {
            return Err(e);
        },
    };
    let root = *tree.root();
    Ok(ProofBatch::new(proofs, root, epoch))
}

/// Proves each `(witness, public inputs)` pair with `prover`. Fails on a
/// count mismatch, an empty batch, more than `MAX_BATCH_SIZE` items, or the
/// first failing proof.
pub fn prove_batch<P: Prover>(prover: &P, witnesses: &[Witness], public_inputs: &[PublicInputs]) -> (r:
    Result<Vec<Proof>>)
    ensures
        (witnesses@.len() != public_inputs@.len() || witnesses@.len() == 0 || witnesses@.len()
            > MAX_BATCH_SIZE) ==> r is Err && r->Err_0 is BatchError,
        r is Ok ==> r->Ok_0@.len() == witnesses@.len() && witnesses@.len() == public_inputs@.len()
            && forall|i: int|
            0 <= i < witnesses@.len() ==> #[trigger] prover.proves(
                witnesses@[i],
                public_inputs@[i],
                r->Ok_0@[i],
            ),
{
    if witnesses.len() != public_inputs.len() {
        return Err(ZKMTDError::BatchError { reason: "Number of witnesses and public inputs do not match".to_owned() });
    }
    if witnesses.len() == 0 {
        return Err(ZKMTDError::BatchError { reason: "Batch is empty".to_owned() });
    }
    if witnesses.len() > MAX_BATCH_SIZE {
        return Err(ZKMTDError::BatchError { reason: "Batch size exceeds limit".to_owned() });
    }
    let mut proofs: Vec<Proof> = Vec::new();
    let mut i: usize = 0;
    while i < witnesses.len()
        invariant
            witnesses@.len() == public_inputs@.len(),
            0 < witnesses@.len() <= MAX_BATCH_SIZE,
            i <= witnesses@.len(),
            proofs@.len() == i,
            forall|k: int|
                0 <= k < i ==> #[trigger] prover.proves(witnesses@[k], public_inputs@[k], proofs@[k]),
        decreases witnesses@.len() - i,
    {
        match prover.prove(&witnesses[i], &public_inputs[i]) {
            Ok(p) => proofs.push(p),
            Err(e) => {
                return Err(e);
            },
        }
        i = i + 1;
    }
    Ok(proofs)
}

/// A prover that proves batches with an inner prover.
#[derive(Debug)]
pub struct BatchProver<P> {
    prover: P,
}

impl<P: Prover> BatchProver<P> {
    pub closed spec fn spec_prover(&self) -> P {
        self.prover
    }

    pub fn new(prover: P) -> (r: Self)
        ensures
            r.spec_prover() == prover,
    {
        BatchProver { prover }
    }

    pub fn inner_prover(&self) -> (r: &P)
        ensures
            *r == self.spec_prover(),
    {
        &self.prover
    }
}

impl<P: Prover> Prover for BatchProver<P> {
    open spec fn proves(&self, witness: Witness, public_inputs: PublicInputs, proof: Proof) -> bool {
        self.spec_prover().proves(witness, public_inputs, proof)
    }

    fn prove(&self, witness: &Witness, public_inputs: &PublicInputs) -> (r: Result<Proof>) {
        self.prover.prove(witness, public_inputs)
    }

    fn min_witness_size(&self) -> usize {
        self.prover.min_witness_size()
    }

    fn min_public_inputs_size(&self) -> usize {
        self.prover.min_public_inputs_size()
    }
}

impl<P: Prover> BatchProverTrait for BatchProver<P> {
    fn prove_batch(&self, witnesses: &[Witness], public_inputs: &[PublicInputs]) -> (r: Result<
        Vec<Proof>,
    >) {
        prove_batch(&self.prover, witnesses, public_inputs)
    }
}

} // verus!
