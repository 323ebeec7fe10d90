//! The range AIR: proves `value >= threshold` by decomposing `value - threshold`
//! into 32 bits.

use vstd::prelude::*;
use crate::common::errors::{Result, ZKMTDError};

verus! {

/// Number of bits in the decomposition.
pub const RANGE_BITS: usize = 32;

/// Exclusive upper bound of values and thresholds, `2^32`.
pub const MAX_RANGE_VALUE: u64 = 0x1_0000_0000;

/// Bit `i` of `x`.
pub open spec fn bit_of(x: u64, i: nat) -> u64 {
    ((x as nat / vstd::arithmetic::power2::pow2(i)) % 2) as u64
}

/// The trace row for `(value, threshold)`: the 32 bits of `value - threshold`,
/// then `value`, `threshold`, `value - threshold`.
pub open spec fn range_row(value: u64, threshold: u64) -> Seq<u64> {
    let diff = (value - threshold) as u64;
    Seq::new(32, |i: int| bit_of(diff, i as nat)) + seq![value, threshold, diff]
}

/// Whether `(value, threshold)` admits a range trace.
pub open spec fn range_admissible(value: u64, threshold: u64) -> bool {
    value < MAX_RANGE_VALUE && threshold < MAX_RANGE_VALUE && threshold <= value
}

/// Layout of the range constraint system.
#[derive(Debug, Clone)]
pub struct RangeAir {
    num_bits: usize,
}

impl RangeAir {
    pub closed spec fn spec_bits(&self) -> usize {
        self.num_bits
    }

    pub fn new() -> (r: Self)
        ensures
            r.spec_bits() == RANGE_BITS,
    {
        RangeAir { num_bits: RANGE_BITS }
    }

    pub fn with_bits(num_bits: usize) -> (r: Self)
        ensures
            r.spec_bits() == num_bits,
    {
        RangeAir { num_bits }
    }

    /// Bit cells plus value, threshold and difference.
    pub fn width(&self) -> (r: usize)
        requires
            self.spec_bits() + 3 <= usize::MAX,
        ensures
            r == self.spec_bits() + 3,
    {
        self.num_bits + 3
    }
}

impl Default for RangeAir {
    fn default() -> (r: Self)
        ensures
            r.spec_bits() == RANGE_BITS,
    {
        Self::new()
    }
}

/// The two identical rows of the range trace; fails when the value or the
/// threshold is `>= 2^32` or the value is below the threshold.
pub fn build_range_proof_trace(value: u64, threshold: u64) -> (r: Result<Vec<Vec<u64>>>)
    ensures
        range_admissible(value, threshold) <==> r is Ok,
        r is Err ==> r->Err_0 is InvalidWitness,
        r is Ok ==> {
            &&& r->Ok_0@.len() == 2
            &&& r->Ok_0@[0]@ == range_row(value, threshold)
            &&& r->Ok_0@[1]@ == range_row(value, threshold)
        },
{
    if value >= MAX_RANGE_VALUE {
        return Err(ZKMTDError::InvalidWitness { reason: "Value exceeds the range maximum".to_owned() });
    }
    if threshold >= MAX_RANGE_VALUE {
        return Err(ZKMTDError::InvalidWitness { reason: "Threshold exceeds the range maximum".to_owned() });
    }
    if value < threshold {
        return Err(ZKMTDError::InvalidWitness { reason: "Value is less than threshold".to_owned() });
    }
    let diff = value - threshold;
    let mut row: Vec<u64> = Vec::new();
    let mut remaining: u64 = diff;
    let mut i: usize = 0;
    proof {
        vstd::arithmetic::power2::lemma2_to64();
    }
    while i < RANGE_BITS
        invariant
            i <= RANGE_BITS,
            row@.len() == i,
            remaining as nat == diff as nat / vstd::arithmetic::power2::pow2(i as nat),
            forall|k: int| 0 <= k < i ==> #[trigger] row@[k] == bit_of(diff, k as nat),
        decreases RANGE_BITS - i,
    {
        row.push(remaining % 2);
        proof {
            vstd::arithmetic::power2::lemma_pow2_unfold((i + 1) as nat);
            vstd::arithmetic::power2::lemma_pow2_pos(i as nat);
            vstd::arithmetic::div_mod::lemma_div_denominator(
                diff as int,
                vstd::arithmetic::power2::pow2(i as nat) as int,
                2,
            );
            assert(vstd::arithmetic::power2::pow2(i as nat) * 2 == vstd::arithmetic::power2::pow2(
                (i + 1) as nat,
            ));
        }
        remaining = remaining / 2;
        i = i + 1;
    }
    row.push(value);
    row.push(threshold);
    row.push(diff);
    assert(row@ =~= range_row(value, threshold));
    let mut row2: Vec<u64> = Vec::new();
    let mut j: usize = 0;
    while j < row.len()
        invariant
            j <= row@.len(),
            row2@ == row@.subrange(0, j as int),
        decreases row@.len() - j,
    {
        row2.push(row[j]);
        assert(row2@ =~= row@.subrange(0, j as int + 1));
        j = j + 1;
    }
    assert(row2@ =~= row@);
    let mut trace: Vec<Vec<u64>> = Vec::new();
    trace.push(row);
    trace.push(row2);
    Ok(trace)
}

/// Traces for `min <= value` and `value <= max`.
pub fn build_range_in_bounds_trace(value: u64, min: u64, max: u64) -> (r: Result<
    (Vec<Vec<u64>>, Vec<Vec<u64>>),
>)
    ensures
        (range_admissible(value, min) && range_admissible(max, value)) <==> r is Ok,
        r is Err ==> r->Err_0 is InvalidWitness,
        r is Ok ==> {
            &&& r->Ok_0.0@.len() == 2
            &&& r->Ok_0.0@[0]@ == range_row(value, min)
            &&& r->Ok_0.1@.len() == 2
            &&& r->Ok_0.1@[0]@ == range_row(max, value)
        },
{
    let lower = match build_range_proof_trace(value, min) {
        Ok(t) => t,
        Err(e) => {
            return Err(e);
        },
    };
    let upper = match build_range_proof_trace(max, value) {
        Ok(t) => t,
        Err(e) => {
            return Err(e);
        },
    };
    Ok((lower, upper))
}

/// Public inputs of a range statement.
#[derive(Debug, Clone)]
pub struct RangeProofPublicInputs {
    pub threshold: u64,
    pub value_commitment: [u8; 32],
}

} // verus!
