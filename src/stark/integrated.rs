//! The epoch-bound proof envelope: a STARK statement bound by a binding hash
//! to its committed public values, its AIR type and the epoch's parameters.
//!
//! The opaque FRI argument is produced and checked by the proving backend;
//! this module builds the statement (trace-derived public values), the
//! commitment and the binding, and decides acceptance given the backend's verdict.

use vstd::prelude::*;
use vstd::string::StringSliceAdditionalSpecFns;
use crate::common::errors::{Result, ZKMTDError};
use crate::common::traits::EntropySource;
use crate::common::types::{pv_commitment, CommittedPublicInputs};
use crate::mtd::epoch::Epoch;
use crate::mtd::manager::MTDManager;
use crate::mtd::warping::WarpingParams;
use crate::stark::air::{
    build_multiplication_trace, build_sum_trace, fib_mod, fibonacci_pair, is_pow2,
    is_power_of_two, field_mul, AirType,
};
use crate::stark::range_air::{build_range_proof_trace, range_admissible, MAX_RANGE_VALUE};
use crate::utils::constants::DOMAIN_BINDING;
use crate::utils::hash::{
    field_add, constant_time_eq_fixed, le4, le8, poseidon_digest, poseidon_hash, push_bytes, push_u32_le,
    push_u64_le, push_values_le, values_le,
};

verus! {

/// The inner statement: AIR type, trace height and public values. The
/// backend's opaque proof of it travels beside the envelope.
#[derive(Debug, Clone)]
pub struct RealProof {
    pub air_type: AirType,
    pub num_rows: usize,
    pub public_values: Vec<u64>,
}

/// `[0, 1, F(n-1), F(n)]` in the Goldilocks field.
pub open spec fn fib_public_values(n: nat) -> Seq<u64> {
    seq![0u64, 1u64, fib_mod((n - 1) as nat), fib_mod(n)]
}

/// The public-values consistency check of the verifier: for Fibonacci the
/// height is a power of two `>= 2` and the values are recomputed; for the
/// other AIRs the values have the shape their prover gives.
pub open spec fn pv_consistent(p: RealProof) -> bool {
    match p.air_type {
        AirType::Fibonacci => is_pow2(p.num_rows as nat) && p.num_rows >= 2 && p.public_values@
            == fib_public_values(p.num_rows as nat),
        AirType::Sum => p.num_rows >= 1 && p.public_values@.len() == p.num_rows,
        AirType::Multiplication => p.num_rows >= 1 && p.public_values@.len() == p.num_rows,
        AirType::Range => p.num_rows == 2 && p.public_values@.len() == 1 && p.public_values@[0]
            < MAX_RANGE_VALUE,
    }
}

/// The bytes under the binding hash: `tag ∥ values_le ∥ commitment ∥ count_le4
/// ∥ epoch_le8 ∥ domain_separator ∥ fri_seed ∥ salt`.
pub open spec fn binding_input(
    p: RealProof,
    params: WarpingParams,
    committed: CommittedPublicInputs,
) -> Seq<u8> {
    seq![p.air_type.tag()] + values_le(p.public_values@) + committed.commitment@ + le4(
        committed.value_count,
    ) + le8(params.epoch@) + params.domain_separator@ + params.fri_seed@ + params.salt@
}

/// `H(binding_input, DOMAIN_BINDING)`.
pub open spec fn binding_of(
    p: RealProof,
    params: WarpingParams,
    committed: CommittedPublicInputs,
) -> Seq<u8> {
    poseidon_digest(binding_input(p, params, committed), DOMAIN_BINDING.spec_bytes())
}

/// The binding hash, computed the same way by prover and verifier.
pub fn compute_binding_hash(
    proof: &RealProof,
    params: &WarpingParams,
    committed: &CommittedPublicInputs,
) -> (r: [u8; 32])
    ensures
        r@ == binding_of(*proof, *params, *committed),
{
    let mut data: Vec<u8> = Vec::new();
    data.push(proof.air_type.as_u8());
    push_values_le(&mut data, proof.public_values.as_slice());
    push_bytes(&mut data, committed.commitment.as_slice());
    push_u32_le(&mut data, committed.value_count);
    push_u64_le(&mut data, params.epoch.value());
    push_bytes(&mut data, params.domain_separator.as_slice());
    push_bytes(&mut data, params.fri_seed.as_slice());
    push_bytes(&mut data, params.salt.as_slice());
    assert(data@ =~= binding_input(*proof, *params, *committed));
    poseidon_hash(data.as_slice(), DOMAIN_BINDING.as_bytes())
}

/// A STARK proof bound to an epoch and its parameters. It has no `Debug`
/// rendering, which would print the salt.
pub struct IntegratedProof {
    pub stark_proof: RealProof,
    pub epoch: Epoch,
    pub params: WarpingParams,
    pub binding_hash: [u8; 32],
    pub committed_public_values: CommittedPublicInputs,
    pub pv_salt: Option<[u8; 32]>,
}

/// What a verifier at `epoch` with parameters `params` accepts, apart from
/// the backend's check of the opaque proof.
pub open spec fn envelope_accepts(epoch: u64, params: WarpingParams, p: IntegratedProof) -> bool {
    &&& p.epoch@ == epoch
    &&& p.params.same(&params)
    &&& p.binding_hash@ == binding_of(p.stark_proof, p.params, p.committed_public_values)
    &&& pv_consistent(p.stark_proof)
}

/// Acceptance against explicitly supplied anchors.
pub open spec fn envelope_accepts_anchored(
    epoch: u64,
    params: WarpingParams,
    p: IntegratedProof,
) -> bool {
    &&& p.epoch@ == epoch
    &&& p.params.domain_separator@ == params.domain_separator@
    &&& p.params.fri_seed@ == params.fri_seed@
    &&& p.params.salt@ == params.salt@
    &&& p.binding_hash@ == binding_of(p.stark_proof, p.params, p.committed_public_values)
    &&& pv_consistent(p.stark_proof)
}

impl IntegratedProof {
    pub open spec fn spec_salt(&self) -> Option<[u8; 32]> {
        self.pv_salt
    }

    pub fn public_values(&self) -> (r: &[u64])
        ensures
            r@ == self.stark_proof.public_values@,
    {
        self.stark_proof.public_values.as_slice()
    }

    pub fn num_rows(&self) -> (r: usize)
        ensures
            r == self.stark_proof.num_rows,
    {
        self.stark_proof.num_rows
    }

    pub fn committed_values_hash(&self) -> (r: &[u8; 32])
        ensures
            *r == self.committed_public_values.commitment,
    {
        &self.committed_public_values.commitment
    }

    /// Overwrites the salt with zeros and drops it; idempotent. The envelope
    /// stays verifiable, the commitment can no longer be opened through it.
    pub fn erase_salt(&mut self)
        ensures
            final(self).spec_salt() is None,
            final(self).stark_proof == old(self).stark_proof,
            final(self).epoch == old(self).epoch,
            final(self).params == old(self).params,
            final(self).binding_hash == old(self).binding_hash,
            final(self).committed_public_values == old(self).committed_public_values,
    {
        match &mut self.pv_salt {
            Some(salt) => {
                let mut i: usize = 0;
                while i < 32
                    invariant
                        i <= 32,
                    decreases 32 - i,
                {
                    salt[i] = 0;
                    i = i + 1;
                }
            },
            None => {},
        }
        self.pv_salt = None;
    }

    pub fn has_salt(&self) -> (r: bool)
        ensures
            r == (self.spec_salt() is Some),
    {
        self.pv_salt.is_some()
    }
}

/// Builds epoch-bound proofs with the parameters of its manager.
#[derive(Debug)]
pub struct IntegratedProver {
    mtd_manager: MTDManager,
}

impl IntegratedProver {
    pub closed spec fn wf(&self) -> bool {
        self.mtd_manager.wf()
    }

    pub closed spec fn spec_seed(&self) -> Seq<u8> {
        self.mtd_manager.spec_seed()
    }

    pub closed spec fn spec_epoch(&self) -> u64 {
        self.mtd_manager.spec_epoch()
    }

    pub closed spec fn spec_params(&self) -> WarpingParams {
        self.mtd_manager.spec_params()
    }

    /// Whether `p` is an envelope for `inner` with the prover's current
    /// epoch and parameters, committed under `salt`.
    pub open spec fn issued(&self, p: IntegratedProof, salt: [u8; 32]) -> bool {
        &&& p.epoch@ == self.spec_epoch()
        &&& p.params == self.spec_params()
        &&& p.committed_public_values.commitment@ == pv_commitment(
            p.stark_proof.public_values@,
            salt@,
        )
        &&& p.committed_public_values.value_count == p.stark_proof.public_values@.len() as u32
        &&& p.binding_hash@ == binding_of(p.stark_proof, p.params, p.committed_public_values)
        &&& p.spec_salt() == Some(salt)
    }

    /// A prover at `epoch`; fails on an empty seed.
    pub fn new(seed: &[u8], epoch: Epoch) -> (r: Result<Self>)
        ensures
            seed@.len() == 0 <==> r is Err,
            r is Ok ==> r->Ok_0.wf() && r->Ok_0.spec_seed() == seed@ && r->Ok_0.spec_epoch()
                == epoch@,
    {
        match MTDManager::with_epoch(seed, epoch) {
            Ok(m) => Ok(IntegratedProver { mtd_manager: m }),
            Err(e) => Err(e),
        }
    }

    /// A prover at the wall clock's epoch; see `MTDManager::new`.
    pub fn with_entropy<E: EntropySource>(seed: &[u8], entropy: &mut E) -> (r: Result<Self>)
        ensures
            seed@.len() == 0 <==> (r is Err && r->Err_0 is MTDError),
            seed@.len() > 0 && !old(entropy).spec_secure() ==> r is Err && r->Err_0 is EntropyError,
            r is Ok ==> r->Ok_0.wf() && r->Ok_0.spec_seed() == seed@,
    {
        match MTDManager::new(seed, entropy) {
            Ok(m) => Ok(IntegratedProver { mtd_manager: m }),
            Err(e) => Err(e),
        }
    }

    pub fn current_epoch(&self) -> (r: Epoch)
        requires
            self.wf(),
        ensures
            r@ == self.spec_epoch(),
    {
        self.mtd_manager.current_epoch()
    }

    pub fn current_params(&self) -> (r: &WarpingParams)
        requires
            self.wf(),
        ensures
            *r == self.spec_params(),
            r.is_derived(self.spec_seed(), self.spec_epoch()),
    {
        self.mtd_manager.current_params()
    }

    /// Moves to the next epoch; fails at the last one.
    pub fn advance_epoch(&mut self) -> (r: Result<()>)
        requires
            old(self).wf(),
        ensures
            final(self).wf(),
            final(self).spec_seed() == old(self).spec_seed(),
            old(self).spec_epoch() < crate::utils::constants::MAX_EPOCH <==> r is Ok,
            r is Ok ==> final(self).spec_epoch() == old(self).spec_epoch() + 1,
            r is Err ==> final(self).spec_epoch() == old(self).spec_epoch(),
    {
        match self.mtd_manager.advance() {
            Ok(_) => Ok(()),
            Err(e) => Err(e),
        }
    }

    fn seal(&self, stark_proof: RealProof, pv_salt: [u8; 32]) -> (r: IntegratedProof)
        requires
            self.wf(),
        ensures
            self.issued(r, pv_salt),
            r.stark_proof == stark_proof,
    {
        let epoch = self.mtd_manager.current_epoch();
        let params = *self.mtd_manager.current_params();
        let committed = CommittedPublicInputs::commit(stark_proof.public_values.as_slice(), &pv_salt);
        let binding_hash = compute_binding_hash(&stark_proof, &params, &committed);
        IntegratedProof {
            stark_proof,
            epoch,
            params,
            binding_hash,
            committed_public_values: committed,
            pv_salt: Some(pv_salt),
        }
    }

    /// Proves the Fibonacci statement over `num_rows` rows; fails unless the
    /// height is a power of two, at least 2. Public values: `[0, 1, F(n-1), F(n)]`.
    pub fn prove_fibonacci(&self, num_rows: usize, pv_salt: [u8; 32]) -> (r: Result<IntegratedProof>)
        requires
            self.wf(),
        ensures
            (is_pow2(num_rows as nat) && num_rows >= 2) <==> r is Ok,
            r is Err ==> r->Err_0 is InvalidWitness,
            r is Ok ==> {
                &&& self.issued(r->Ok_0, pv_salt)
                &&& r->Ok_0.stark_proof.air_type == AirType::Fibonacci
                &&& r->Ok_0.stark_proof.num_rows == num_rows
                &&& r->Ok_0.stark_proof.public_values@ == fib_public_values(num_rows as nat)
            },
    {
        if !is_power_of_two(num_rows) || num_rows < 2 {
            return Err(ZKMTDError::InvalidWitness { reason: "Row count must be a power of two, at least 2".to_owned() });
        }
        let (a, b) = fibonacci_pair(num_rows);
        let public_values: Vec<u64> = vec![0u64, 1u64, a, b];
        assert(public_values@ =~= fib_public_values(num_rows as nat));
        let inner = RealProof {
            air_type: AirType::Fibonacci,
            num_rows,
            public_values,
        };
        Ok(self.seal(inner, pv_salt))
    }

    /// Proves `c = a + b` row by row; public values are the `c` column.
    /// Fails when the columns differ in length or are empty.
    pub fn prove_sum(&self, a_values: &[u64], b_values: &[u64], pv_salt: [u8; 32]) -> (r: Result<IntegratedProof>)
        requires
            self.wf(),
        ensures
            (a_values@.len() == b_values@.len() && a_values@.len() > 0) <==> r is Ok,
            r is Err ==> r->Err_0 is InvalidWitness,
            r is Ok ==> {
                &&& self.issued(r->Ok_0, pv_salt)
                &&& r->Ok_0.stark_proof.air_type == AirType::Sum
                &&& r->Ok_0.stark_proof.num_rows == a_values@.len()
                &&& r->Ok_0.stark_proof.public_values@.len() == a_values@.len()
                &&& forall|i: int| 0 <= i < a_values@.len() ==> #[trigger] r->Ok_0.stark_proof.public_values@[i] == field_add(a_values@[i], b_values@[i])
            },
    {
        self.prove_columns(a_values, b_values, pv_salt, false)
    }

    /// Proves `c = a · b` row by row; public values are the `c` column.
    /// Fails when the columns differ in length or are empty.
    pub fn prove_multiplication(&self, a_values: &[u64], b_values: &[u64], pv_salt: [u8; 32]) -> (r: Result<IntegratedProof>)
        requires
            self.wf(),
        ensures
            (a_values@.len() == b_values@.len() && a_values@.len() > 0) <==> r is Ok,
            r is Err ==> r->Err_0 is InvalidWitness,
            r is Ok ==> {
                &&& self.issued(r->Ok_0, pv_salt)
                &&& r->Ok_0.stark_proof.air_type == AirType::Multiplication
                &&& r->Ok_0.stark_proof.num_rows == a_values@.len()
                &&& r->Ok_0.stark_proof.public_values@.len() == a_values@.len()
                &&& forall|i: int| 0 <= i < a_values@.len() ==> #[trigger] r->Ok_0.stark_proof.public_values@[i] == field_mul(a_values@[i], b_values@[i])
            },
    {
        self.prove_columns(a_values, b_values, pv_salt, true)
    }

    fn prove_columns(&self, a_values: &[u64], b_values: &[u64], pv_salt: [u8; 32], multiply: bool) -> (r: Result<IntegratedProof>)
        requires
            self.wf(),
        ensures
            (a_values@.len() == b_values@.len() && a_values@.len() > 0) <==> r is Ok,
            r is Err ==> r->Err_0 is InvalidWitness,
            r is Ok ==> {
                &&& self.issued(r->Ok_0, pv_salt)
                &&& r->Ok_0.stark_proof.air_type == if multiply { AirType::Multiplication } else { AirType::Sum }
                &&& r->Ok_0.stark_proof.num_rows == a_values@.len()
                &&& r->Ok_0.stark_proof.public_values@.len() == a_values@.len()
                &&& forall|i: int| 0 <= i < a_values@.len() ==> #[trigger] r->Ok_0.stark_proof.public_values@[i] == if multiply {
                    field_mul(a_values@[i], b_values@[i])
                } else {
                    field_add(a_values@[i], b_values@[i])
                }
            },
    {
        if a_values.len() != b_values.len() || a_values.len() == 0 {
            return Err(ZKMTDError::InvalidWitness { reason: "Columns must be non-empty and of equal length".to_owned() });
        }
        let a = vstd::slice::slice_to_vec(a_values);
        let b = vstd::slice::slice_to_vec(b_values);
        let n = a_values.len();
        let trace = if multiply {
            build_multiplication_trace(a, b)
        } else {
            build_sum_trace(a, b)
        };
        let mut trace = match trace {
            Ok(t) => t,
            Err(e) => {
                return Err(e);
            },
        };
        let c = trace.pop().unwrap();
        let inner = RealProof {
            air_type: if multiply { AirType::Multiplication } else { AirType::Sum },
            num_rows: n,
            public_values: c,
        };
        Ok(self.seal(inner, pv_salt))
    }

    /// Proves `value >= threshold`; fails when either is `>= 2^32` or the
    /// value is below the threshold. The public value is the threshold.
    pub fn prove_range(&self, value: u64, threshold: u64, pv_salt: [u8; 32]) -> (r: Result<IntegratedProof>)
        requires
            self.wf(),
        ensures
            range_admissible(value, threshold) <==> r is Ok,
            r is Err ==> r->Err_0 is InvalidWitness,
            r is Ok ==> {
                &&& self.issued(r->Ok_0, pv_salt)
                &&& r->Ok_0.stark_proof.air_type == AirType::Range
                &&& r->Ok_0.stark_proof.num_rows == 2
                &&& r->Ok_0.stark_proof.public_values@ == seq![threshold]
            },
    {
        match build_range_proof_trace(value, threshold) {
            Ok(_) => {},
            Err(e) => {
                return Err(e);
            },
        }
        let public_values: Vec<u64> = vec![threshold];
        let inner = RealProof {
            air_type: AirType::Range,
            num_rows: 2,
            public_values,
        };
        Ok(self.seal(inner, pv_salt))
    }

    /// A verifier anchored at this prover's current epoch and parameters.
    pub fn get_verifier(&self) -> (r: IntegratedVerifier)
        requires
            self.wf(),
        ensures
            r.spec_epoch() == self.spec_epoch(),
            r.spec_params() == self.spec_params(),
    {
        IntegratedVerifier {
            current_epoch: self.mtd_manager.current_epoch(),
            current_params: *self.mtd_manager.current_params(),
        }
    }
}

/// Checks envelopes against one epoch's parameters.
#[derive(Debug)]
pub struct IntegratedVerifier {
    current_epoch: Epoch,
    current_params: WarpingParams,
}

impl IntegratedVerifier {
    pub closed spec fn spec_epoch(&self) -> u64 {
        self.current_epoch@
    }

    pub closed spec fn spec_params(&self) -> WarpingParams {
        self.current_params
    }

    /// A verifier for `epoch` under `seed`; fails on an empty seed.
    pub fn new(seed: &[u8], epoch: Epoch) -> (r: Result<Self>)
        ensures
            seed@.len() == 0 <==> r is Err,
            r is Ok ==> r->Ok_0.spec_epoch() == epoch@ && r->Ok_0.spec_params().is_derived(
                seed@,
                epoch@,
            ),
    {
        match WarpingParams::generate(seed, epoch) {
            Ok(p) => Ok(IntegratedVerifier { current_epoch: epoch, current_params: p }),
            Err(e) => Err(e),
        }
    }

    pub fn current_epoch(&self) -> (r: Epoch)
        ensures
            r@ == self.spec_epoch(),
    {
        self.current_epoch
    }

    pub fn current_params(&self) -> (r: &WarpingParams)
        ensures
            *r == self.spec_params(),
    {
        &self.current_params
    }

    fn pv_consistent_exec(p: &RealProof) -> (r: bool)
        ensures
            r == pv_consistent(*p),
    {
        match p.air_type {
            AirType::Fibonacci => {
                if !is_power_of_two(p.num_rows) || p.num_rows < 2 {
                    return false;
                }
                if p.public_values.len() != 4 {
                    return false;
                }
                let (a, b) = fibonacci_pair(p.num_rows);
                let ok = p.public_values[0] == 0 && p.public_values[1] == 1 && p.public_values[2] == a
                    && p.public_values[3] == b;
                proof {
                    if ok {
                        assert(p.public_values@ =~= fib_public_values(p.num_rows as nat));
                    }
                }
                ok
            },
            AirType::Sum => p.num_rows >= 1 && p.public_values.len() == p.num_rows,
            AirType::Multiplication => p.num_rows >= 1 && p.public_values.len() == p.num_rows,
            AirType::Range => p.num_rows == 2 && p.public_values.len() == 1 && p.public_values[0]
                < MAX_RANGE_VALUE,
        }
    }

    /// Checks, short-circuiting: the envelope's epoch, its parameters
    /// (constant-time), the recomputed binding (constant-time), the public
    /// values' consistency, and the backend's verdict on the opaque proof.
    pub fn verify(&self, proof: &IntegratedProof, stark_accepts: bool) -> (r: Result<bool>)
        ensures
            r == Ok::<bool, ZKMTDError>(
                envelope_accepts(self.spec_epoch(), self.spec_params(), *proof) && stark_accepts,
            ),
    {
        if proof.epoch.value() != self.current_epoch.value() {
            return Ok(false);
        }
        if !proof.params.same_as(&self.current_params) {
            return Ok(false);
        }
        let expected = compute_binding_hash(&proof.stark_proof, &proof.params, &proof.committed_public_values);
        if !constant_time_eq_fixed(&proof.binding_hash, &expected) {
            return Ok(false);
        }
        if !Self::pv_consistent_exec(&proof.stark_proof) {
            return Ok(false);
        }
        Ok(stark_accepts)
    }

    /// Opens the commitment with `public_values` and `pv_salt` first (the
    /// envelope must still hold its salt), then verifies the envelope.
    pub fn verify_with_salt(
        &self,
        proof: &IntegratedProof,
        public_values: &[u64],
        pv_salt: &[u8; 32],
        stark_accepts: bool,
    ) -> (r: Result<bool>)
        ensures
            r == Ok::<bool, ZKMTDError>(
                proof.spec_salt() is Some && proof.committed_public_values.opens(
                    public_values@,
                    pv_salt@,
                ) && envelope_accepts(self.spec_epoch(), self.spec_params(), *proof)
                    && stark_accepts,
            ),
    {
        if !proof.has_salt() {
            return Ok(false);
        }
        if !proof.committed_public_values.verify(public_values, pv_salt) {
            return Ok(false);
        }
        self.verify(proof, stark_accepts)
    }

    /// Verifies against anchors supplied by the caller (for instance read
    /// from chain state) instead of this verifier's own.
    pub fn verify_with_params(
        &self,
        proof: &IntegratedProof,
        expected_epoch: Epoch,
        expected_params: &WarpingParams,
        stark_accepts: bool,
    ) -> (r: Result<bool>)
        ensures
            r == Ok::<bool, ZKMTDError>(
                envelope_accepts_anchored(expected_epoch@, *expected_params, *proof)
                    && stark_accepts,
            ),
    {
        if proof.epoch.value() != expected_epoch.value() {
            return Ok(false);
        }
        let a = constant_time_eq_fixed(&proof.params.domain_separator, &expected_params.domain_separator);
        let b = constant_time_eq_fixed(&proof.params.fri_seed, &expected_params.fri_seed);
        let c = constant_time_eq_fixed(&proof.params.salt, &expected_params.salt);
        if !(a && b && c) {
            return Ok(false);
        }
        let expected = compute_binding_hash(&proof.stark_proof, &proof.params, &proof.committed_public_values);
        if !constant_time_eq_fixed(&proof.binding_hash, &expected) {
            return Ok(false);
        }
        if !Self::pv_consistent_exec(&proof.stark_proof) {
            return Ok(false);
        }
        Ok(stark_accepts)
    }
}

/// Completeness: an envelope issued by a prover with seed `s` at epoch `e`
/// is accepted by any verifier whose parameters are those of `(s, e)`.
pub proof fn lemma_envelope_completeness(
    seed: Seq<u8>,
    epoch: u64,
    p: IntegratedProof,
    verifier_params: WarpingParams,
)
    requires
        p.epoch@ == epoch,
        p.params.is_derived(seed, epoch),
        p.binding_hash@ == binding_of(p.stark_proof, p.params, p.committed_public_values),
        pv_consistent(p.stark_proof),
        verifier_params.is_derived(seed, epoch),
    ensures
        envelope_accepts(epoch, verifier_params, p),
{
}

/// Tampering with the binding hash of an accepted envelope makes it rejected.
pub proof fn lemma_binding_tamper(
    epoch: u64,
    params: WarpingParams,
    p: IntegratedProof,
    tampered: IntegratedProof,
)
    requires
        envelope_accepts(epoch, params, p),
        tampered.stark_proof == p.stark_proof,
        tampered.params == p.params,
        tampered.committed_public_values == p.committed_public_values,
        tampered.binding_hash@ != p.binding_hash@,
    ensures
        !envelope_accepts(epoch, params, tampered),
{
}

/// An envelope issued at epoch `e` is rejected by every verifier at `e' != e`.
pub proof fn lemma_cross_epoch(e: u64, e2: u64, params: WarpingParams, p: IntegratedProof)
    requires
        p.epoch@ == e,
        e != e2,
    ensures
        !envelope_accepts(e2, params, p),
{
}

} // verus!
