//! The capabilities that users of the library implement: provers, verifiers
//! and entropy sources.

use vstd::prelude::*;
use crate::common::errors::{Result, ZKMTDError};
use crate::common::types::{Proof, PublicInputs, Witness};

verus! {

/// Something that turns a witness and public inputs into a proof.
pub trait Prover {
    /// Whether `proof` is a proof this prover may give for `witness` and `public_inputs`.
    spec fn proves(&self, witness: Witness, public_inputs: PublicInputs, proof: Proof) -> bool;

    fn prove(&self, witness: &Witness, public_inputs: &PublicInputs) -> (r: Result<Proof>)
        ensures
            r is Ok ==> self.proves(*witness, *public_inputs, r->Ok_0),
    ;

    /// Smallest witness accepted.
    fn min_witness_size(&self) -> usize;

    /// Smallest public-input vector accepted.
    fn min_public_inputs_size(&self) -> usize;
}

/// Something that checks a proof against public inputs.
pub trait Verifier {
    /// Whether this verifier accepts `proof` for `public_inputs`.
    spec fn verifies(&self, proof: Proof, public_inputs: PublicInputs) -> bool;

    fn verify(&self, proof: &Proof, public_inputs: &PublicInputs) -> (r: Result<bool>)
        ensures
            r is Ok ==> r->Ok_0 == self.verifies(*proof, *public_inputs),
    ;

    /// Verifies pairs in order; fails when the counts differ, and passes on
    /// the first error of a single verification.
    fn verify_batch(&self, proofs: &[Proof], public_inputs: &[PublicInputs]) -> (r: Result<Vec<bool>>)
        ensures
            proofs@.len() != public_inputs@.len() ==> r is Err && r->Err_0 is InvalidPublicInputs,
            r is Ok ==> r->Ok_0@.len() == proofs@.len() && forall|i: int|
                0 <= i < proofs@.len() ==> #[trigger] r->Ok_0@[i] == self.verifies(
                    proofs@[i],
                    public_inputs@[i],
                ),
    {
        if proofs.len() != public_inputs.len() {
            return Err(
                ZKMTDError::InvalidPublicInputs {
                    reason: "Mismatch between number of proofs and public inputs".to_owned(),
                },
            );
        }
        let mut results: Vec<bool> = Vec::new();
        let mut i: usize = 0;
        while i < proofs.len()
            invariant
                proofs@.len() == public_inputs@.len(),
                i <= proofs@.len(),
                results@.len() == i,
                forall|k: int|
                    0 <= k < i ==> #[trigger] results@[k] == self.verifies(
                        proofs@[k],
                        public_inputs@[k],
                    ),
            decreases proofs@.len() - i,
        {
            match self.verify(&proofs[i], &public_inputs[i]) {
                Ok(b) => results.push(b),
                Err(e) => {
                    return Err(e);
                },
            }
            i = i + 1;
        }
        Ok(results)
    }
}

/// A prover that handles many statements at once.
pub trait BatchProver: Prover {
    fn prove_batch(&self, witnesses: &[Witness], public_inputs: &[PublicInputs]) -> (r: Result<
        Vec<Proof>,
    >)
        ensures
            r is Ok ==> r->Ok_0@.len() == witnesses@.len() && witnesses@.len()
                == public_inputs@.len() && forall|i: int|
                0 <= i < witnesses@.len() ==> #[trigger] self.proves(
                    witnesses@[i],
                    public_inputs@[i],
                    r->Ok_0@[i],
                ),
    ;
}

/// A source of random bytes. Sources that are not cryptographically secure
/// say so, and the parameter manager refuses them.
pub trait EntropySource {
    /// `num_bytes` fresh bytes.
    fn generate(&mut self, num_bytes: usize) -> (r: Result<Vec<u8>>)
        ensures
            r is Ok ==> r->Ok_0@.len() == num_bytes,
            num_bytes == 0 ==> r is Ok,
    ;

    /// Overwrites every byte of `output`.
    fn fill_bytes(&mut self, output: &mut [u8]) -> (r: Result<()>)
        ensures
            final(output)@.len() == old(output)@.len(),
            old(output)@.len() == 0 ==> r is Ok,
    ;

    /// The entropy that the source claims, in bits.
    fn entropy_bits(&self) -> usize;

    /// Whether the source is cryptographically secure.
    spec fn spec_secure(&self) -> bool;

    /// Whether the source may seed cryptographic parameters.
    fn is_cryptographically_secure(&self) -> (r: bool)
        ensures
            r == self.spec_secure(),
    ;
}

} // verus!
