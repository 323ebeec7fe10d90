//! Proofs, witnesses, public inputs and the salted commitment to public values.

use vstd::prelude::*;
use vstd::string::StringSliceAdditionalSpecFns;
use crate::utils::constants::DOMAIN_PV_COMMIT;
use crate::utils::hash::{
    bytes_to_field, constant_time_eq_fixed, field_of_bytes, poseidon_digest, poseidon_hash,
    push_bytes, push_values_le, values_le, HashDigest, min_int,
};

verus! {

pub use crate::utils::hash::FieldElement;

/// A serialized proof bound to an epoch.
#[derive(Clone, Debug, PartialEq, Eq)]
pub struct Proof {
    pub data: Vec<u8>,
    pub epoch: u64,
    pub version: u8,
}

impl Default for Proof {
    fn default() -> (r: Self)
        ensures
            r.data@.len() == 0,
            r.epoch == 0,
            r.version == 1,
    {
        Proof { data: Vec::new(), epoch: 0, version: 1 }
    }
}

impl Proof {
    pub fn new(data: Vec<u8>, epoch: u64) -> (r: Self)
        ensures
            r.data@ == data@,
            r.epoch == epoch,
            r.version == 1,
    {
        Proof { data, epoch, version: 1 }
    }

    pub fn size(&self) -> (r: usize)
        ensures
            r == self.data@.len(),
    {
        self.data.len()
    }

    pub fn is_empty(&self) -> (r: bool)
        ensures
            r == (self.data@.len() == 0),
    {
        self.data.len() == 0
    }
}

/// Secret witness values. Its contents are cleared by `zeroize`, which runs
/// when the witness is dropped.
#[derive(Clone, Default)]
pub struct Witness {
    pub data: Vec<u64>,
}

/// The field elements read from `bytes` in 8-byte chunks (the last one shorter).
pub open spec fn fields_of_bytes(bytes: Seq<u8>) -> Seq<u64> {
    Seq::new(
        ((bytes.len() + 7) / 8) as nat,
        |i: int| field_of_bytes(bytes.subrange(8 * i, min_int(8 * i + 8, bytes.len() as int))),
    )
}

/// Splits `bytes` into 8-byte chunks and reads each as a field element.
pub fn bytes_to_fields(bytes: &[u8]) -> (r: Vec<FieldElement>)
    ensures
        r@ == fields_of_bytes(bytes@),
{
    let n = bytes.len();
    let count: usize = n / 8 + if n % 8 == 0 { 0 } else { 1 };
    assert(count == (n + 7) / 8);
    let mut out: Vec<u64> = Vec::new();
    let mut i: usize = 0;
    while i < count
        invariant
            n == bytes@.len(),
            count == (n + 7) / 8,
            i <= count,
            out@.len() == i,
            forall|k: int|
                0 <= k < i ==> out@[k] == field_of_bytes(
                    bytes@.subrange(8 * k, min_int(8 * k + 8, bytes@.len() as int)),
                ),
        decreases count - i,
    {
        let start = 8 * i;
        let end: usize = if n - start > 8 {
            start + 8
        } else {
            n
        };
        let chunk = vstd::slice::slice_subrange(bytes, start, end);
        let v = bytes_to_field(chunk);
        out.push(v);
        i = i + 1;
    }
    assert(out@ =~= fields_of_bytes(bytes@));
    out
}

impl Witness {
    pub fn new(data: Vec<u64>) -> (r: Self)
        ensures
            r.data@ == data@,
    {
        Witness { data }
    }

    pub fn len(&self) -> (r: usize)
        ensures
            r == self.data@.len(),
    {
        self.data.len()
    }

    pub fn is_empty(&self) -> (r: bool)
        ensures
            r == (self.data@.len() == 0),
    {
        self.data.len() == 0
    }

    /// The witness whose values are `bytes` read in 8-byte little-endian chunks.
    pub fn from_bytes(bytes: &[u8]) -> (r: Self)
        ensures
            r.data@ == fields_of_bytes(bytes@),
    {
        Witness { data: bytes_to_fields(bytes) }
    }

    /// Overwrites every value (and the spare capacity) with zeros, then
    /// empties the witness.
    pub fn zeroize(&mut self)
        ensures
            final(self).data@.len() == 0,
        opens_invariants none
        no_unwind
    {
        wipe_values(&mut self.data);
    }
}

/// Relies on zeroize's `Zeroize for Vec<u64>`: it writes zeros over the elements and
/// the spare capacity, then calls `clear`, so the vector is left empty.
#[verifier::external_body]
fn wipe_values(data: &mut Vec<u64>)
    ensures
        final(data)@.len() == 0,
    opens_invariants none
    no_unwind
{
    zeroize::Zeroize::zeroize(data);
}

impl Drop for Witness {
    /// Clears the values before the memory is released.
    fn drop(&mut self)
        opens_invariants none
        no_unwind
    {
        self.zeroize();
    }
}

/// Public values of a statement; not secret.
#[derive(Clone, Debug, PartialEq, Eq, Default)]
pub struct PublicInputs {
    pub data: Vec<u64>,
}

impl PublicInputs {
    pub fn new(data: Vec<u64>) -> (r: Self)
        ensures
            r.data@ == data@,
    {
        PublicInputs { data }
    }

    pub fn len(&self) -> (r: usize)
        ensures
            r == self.data@.len(),
    {
        self.data.len()
    }

    pub fn is_empty(&self) -> (r: bool)
        ensures
            r == (self.data@.len() == 0),
    {
        self.data.len() == 0
    }
}

/// Proofs of one epoch under one Merkle root.
#[derive(Clone, Debug)]
pub struct ProofBatch {
    pub proofs: Vec<Proof>,
    pub merkle_root: [u8; 32],
    pub epoch: u64,
}

impl ProofBatch {
    pub fn new(proofs: Vec<Proof>, merkle_root: [u8; 32], epoch: u64) -> (r: Self)
        ensures
            r.proofs@ == proofs@,
            r.merkle_root == merkle_root,
            r.epoch == epoch,
    {
        ProofBatch { proofs, merkle_root, epoch }
    }

    pub fn len(&self) -> (r: usize)
        ensures
            r == self.proofs@.len(),
    {
        self.proofs.len()
    }

    pub fn is_empty(&self) -> (r: bool)
        ensures
            r == (self.proofs@.len() == 0),
    {
        self.proofs.len() == 0
    }
}

/// `H(values_le ∥ salt, DOMAIN_PV_COMMIT)`.
pub open spec fn pv_commitment(values: Seq<u64>, salt: Seq<u8>) -> Seq<u8> {
    poseidon_digest(values_le(values) + salt, DOMAIN_PV_COMMIT.spec_bytes())
}

/// A salted commitment to public values, with their count.
#[derive(Clone, Debug, PartialEq, Eq)]
pub struct CommittedPublicInputs {
    pub commitment: HashDigest,
    pub value_count: u32,
}

impl CommittedPublicInputs {
    /// Whether `values` and `salt` open this commitment.
    pub open spec fn opens(&self, values: Seq<u64>, salt: Seq<u8>) -> bool {
        &&& values.len() as u32 == self.value_count
        &&& self.commitment@ == pv_commitment(values, salt)
    }

    /// Commits to `public_values` under `pv_salt`.
    pub fn commit(public_values: &[u64], pv_salt: &[u8; 32]) -> (r: Self)
        ensures
            r.commitment@ == pv_commitment(public_values@, pv_salt@),
            r.value_count == public_values@.len() as u32,
    {
        let mut data: Vec<u8> = Vec::new();
        push_values_le(&mut data, public_values);
        push_bytes(&mut data, pv_salt.as_slice());
        let commitment = poseidon_hash(data.as_slice(), DOMAIN_PV_COMMIT.as_bytes());
        CommittedPublicInputs { commitment, value_count: public_values.len() as u32 }
    }

    /// Whether `public_values` and `pv_salt` open this commitment; the digest
    /// comparison runs in constant time.
    pub fn verify(&self, public_values: &[u64], pv_salt: &[u8; 32]) -> (r: bool)
        ensures
            r == self.opens(public_values@, pv_salt@),
    {
        if public_values.len() as u32 != self.value_count {
            return false;
        }
        let recomputed = Self::commit(public_values, pv_salt);
        constant_time_eq_fixed(&self.commitment, &recomputed.commitment)
    }
}

/// A commitment opens with the values and salt it was made from; and any
/// opening of it has the same count and digest as the one it was made from.
pub proof fn lemma_commitment_binding(
    c: CommittedPublicInputs,
    values: Seq<u64>,
    salt: Seq<u8>,
    values2: Seq<u64>,
    salt2: Seq<u8>,
)
    requires
        c.commitment@ == pv_commitment(values, salt),
        c.value_count == values.len() as u32,
    ensures
        c.opens(values, salt),
        c.opens(values2, salt2) ==> pv_commitment(values2, salt2) == pv_commitment(values, salt)
            && values2.len() as u32 == values.len() as u32,
{
}

} // verus!
