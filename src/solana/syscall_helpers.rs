//! Small helpers for on-chain programs.

use vstd::prelude::*;
use vstd::string::StringSliceAdditionalSpecFns;
use crate::solana::lightweight::data_commitment;
use crate::utils::constants::DOMAIN_COMMITMENT;
use crate::utils::hash::poseidon_hash;

verus! {

/// `H(data, DOMAIN_COMMITMENT)`.
pub fn compute_hash(data: &[u8]) -> (r: [u8; 32])
    ensures
        r@ == data_commitment(data@),
{
    poseidon_hash(data, DOMAIN_COMMITMENT.as_bytes())
}

/// `a + b` modulo 2^64.
pub open spec fn wrapping_sum(a: u64, b: u64) -> u64 {
    ((a as nat + b as nat) % 0x1_0000_0000_0000_0000) as u64
}

/// Whether each value from the third on is the (wrapping) sum of the two
/// before it; sequences shorter than three pass.
pub fn verify_fibonacci_sequence(values: &[u64]) -> (r: bool)
    ensures
        r == (forall|i: int|
            2 <= i < values@.len() ==> #[trigger] values@[i] == wrapping_sum(
                values@[i - 1],
                values@[i - 2],
            )),
{
    if values.len() < 3 {
        return true;
    }
    let mut i: usize = 2;
    while i < values.len()
        invariant
            2 <= i <= values@.len(),
            forall|k: int|
                2 <= k < i ==> #[trigger] values@[k] == wrapping_sum(values@[k - 1], values@[k - 2]),
        decreases values@.len() - i,
    {
        let expected = values[i - 1].wrapping_add(values[i - 2]);
        if values[i] != expected {
            return false;
        }
        i = i + 1;
    }
    true
}

} // verus!
