//! Entropy sources: the operating system's CSPRNG, a chain-slot-derived
//! source, and a deterministic generator for tests.

use vstd::prelude::*;
use vstd::string::StringSliceAdditionalSpecFns;
use crate::common::errors::{Result, ZKMTDError};
use crate::common::traits::EntropySource;
use crate::utils::constants::{DOMAIN_SOLANA_ENTROPY, MIN_ENTROPY_BITS, RECOMMENDED_ENTROPY_BITS};
use crate::utils::hash::{le8, poseidon_digest, poseidon_hash, push_bytes, push_u64_le};

verus! {

/// Relies on getrandom's `fill`: on success every byte of `out` was written by the
/// OS CSPRNG; nothing is promised of their values, only that the length is kept.
#[verifier::external_body]
fn os_random_fill(out: &mut [u8]) -> (r: bool)
    ensures
        final(out)@.len() == old(out)@.len(),
{
    getrandom::fill(out).is_ok()
}

/// Entropy from the operating system (cryptographically secure).
#[derive(Debug)]
pub struct SystemEntropy {
    entropy_bits: usize,
}

impl SystemEntropy {
    pub closed spec fn bits(&self) -> usize {
        self.entropy_bits
    }

    /// A source that claims 256 bits.
    pub fn new() -> (r: Self)
        ensures
            r.bits() == RECOMMENDED_ENTROPY_BITS,
    {
        SystemEntropy { entropy_bits: RECOMMENDED_ENTROPY_BITS }
    }

    /// Sets the claimed entropy; fails below 128 bits.
    pub fn with_entropy_bits(self, bits: usize) -> (r: Result<Self>)
        ensures
            bits >= MIN_ENTROPY_BITS <==> r is Ok,
            r is Ok ==> r->Ok_0.bits() == bits,
            r is Err ==> r->Err_0 is EntropyError,
    {
        if bits < MIN_ENTROPY_BITS {
            return Err(ZKMTDError::EntropyError { reason: "Entropy is too low".to_owned() });
        }
        Ok(SystemEntropy { entropy_bits: bits })
    }
}

impl Default for SystemEntropy {
    fn default() -> (r: Self)
        ensures
            r.bits() == RECOMMENDED_ENTROPY_BITS,
    {
        Self::new()
    }
}

impl EntropySource for SystemEntropy {
    open spec fn spec_secure(&self) -> bool {
        true
    }

    fn generate(&mut self, num_bytes: usize) -> (r: Result<Vec<u8>>) {
        let mut buffer: Vec<u8> = vec![0u8; num_bytes];
        if num_bytes == 0 {
            return Ok(buffer);
        }
        match self.fill_bytes(buffer.as_mut_slice()) {
            Ok(()) => Ok(buffer),
            Err(e) => Err(e),
        }
    }

    fn fill_bytes(&mut self, output: &mut [u8]) -> (r: Result<()>) {
        if output.len() == 0 {
            return Ok(());
        }
        if os_random_fill(output) {
            Ok(())
        } else {
            Err(ZKMTDError::EntropyError { reason: "getrandom failed".to_owned() })
        }
    }

    fn entropy_bits(&self) -> usize {
        self.entropy_bits
    }

    fn is_cryptographically_secure(&self) -> bool {
        true
    }
}

/// The 32-byte block number `counter` of a chain-derived stream:
/// `H(slot_hash ∥ program_id ∥ counter_le8, DOMAIN_SOLANA_ENTROPY)`.
pub open spec fn chain_block(slot_hash: Seq<u8>, program_id: Seq<u8>, counter: u64) -> Seq<u8> {
    poseidon_digest(slot_hash + program_id + le8(counter), DOMAIN_SOLANA_ENTROPY.spec_bytes())
}

/// `counter + k`, wrapping at 2^64.
pub open spec fn counter_plus(counter: u64, k: int) -> u64 {
    ((counter + k) % 0x1_0000_0000_0000_0000) as u64
}

/// The counter whose block fills 32-byte block `b` of one request: `counter + b`.
pub open spec fn block_counter(counter: u64, b: int) -> u64 {
    counter_plus(counter, b)
}

/// Entropy derived from a chain slot hash and a program id.
#[derive(Debug, Clone)]
pub struct SolanaEntropy {
    slot_hash: [u8; 32],
    program_id: [u8; 32],
    counter: u64,
}

impl SolanaEntropy {
    pub closed spec fn slot(&self) -> Seq<u8> {
        self.slot_hash@
    }

    pub closed spec fn program(&self) -> Seq<u8> {
        self.program_id@
    }

    pub closed spec fn count(&self) -> u64 {
        self.counter
    }

    pub fn from_slot_hash(slot_hash: [u8; 32], program_id: [u8; 32]) -> (r: Self)
        ensures
            r.slot() == slot_hash@,
            r.program() == program_id@,
            r.count() == 0,
    {
        SolanaEntropy { slot_hash, program_id, counter: 0 }
    }

    /// All-zero slot hash and program id.
    pub fn new_for_testing() -> (r: Self)
        ensures
            r.slot() == Seq::new(32, |i: int| 0u8),
            r.program() == Seq::new(32, |i: int| 0u8),
            r.count() == 0,
    {
        let r = SolanaEntropy { slot_hash: [0u8; 32], program_id: [0u8; 32], counter: 0 };
        assert(r.slot_hash@ =~= Seq::new(32, |i: int| 0u8));
        assert(r.program_id@ =~= Seq::new(32, |i: int| 0u8));
        r
    }

    fn block(&self, counter: u64) -> (r: [u8; 32])
        ensures
            r@ == chain_block(self.slot(), self.program(), counter),
    {
        let mut input: Vec<u8> = Vec::with_capacity(72);
        push_bytes(&mut input, self.slot_hash.as_slice());
        push_bytes(&mut input, self.program_id.as_slice());
        push_u64_le(&mut input, counter);
        poseidon_hash(input.as_slice(), DOMAIN_SOLANA_ENTROPY.as_bytes())
    }

    /// Fills `output` in 32-byte blocks: block `b` is the stream block of
    /// counter `counter + b`; then moves the counter on by one.
    pub fn fill_stream(&mut self, output: &mut [u8])
        ensures
            final(output)@.len() == old(output)@.len(),
            forall|k: int|
                0 <= k < final(output)@.len() ==> final(output)@[k] == chain_block(
                    old(self).slot(),
                    old(self).program(),
                    block_counter(old(self).count(), k / 32),
                )[k % 32],
            final(self).slot() == old(self).slot(),
            final(self).program() == old(self).program(),
            final(self).count() == counter_plus(old(self).count(), 1),
    {
        let n = output.len();
        let nblocks: usize = n / 32 + if n % 32 == 0 { 0 } else { 1 };
        let mut b: usize = 0;
        while b < nblocks
            invariant
                n == output@.len(),
                nblocks == n / 32 + if n % 32 == 0 { 0int } else { 1int },
                b <= nblocks,
                forall|k: int|
                    0 <= k < n && k < 32 * b ==> output@[k] == chain_block(
                        self.slot(),
                        self.program(),
                        block_counter(self.count(), k / 32),
                    )[k % 32],
            decreases nblocks - b,
        {
            let ctr: u64 = self.counter.wrapping_add(b as u64);
            let blk = self.block(ctr);
            let offset = 32 * b;
            let take: usize = if n - offset < 32 {
                n - offset
            } else {
                32
            };
            let mut j: usize = 0;
            while j < take
                invariant
                    n == output@.len(),
                    offset == 32 * b,
                    offset + take <= n,
                    take <= 32,
                    j <= take,
                    blk@ == chain_block(self.slot(), self.program(), ctr),
                    ctr == block_counter(self.count(), b as int),
                    forall|k: int|
                        0 <= k < n && k < offset + j ==> output@[k] == chain_block(
                            self.slot(),
                            self.program(),
                            block_counter(self.count(), k / 32),
                        )[k % 32],
                decreases take - j,
            {
                proof {
                    let k = offset + j;
                    assert(k / 32 == b as int) by (nonlinear_arith)
                        requires
                            offset == 32 * b,
                            j < 32,
                            k == offset + j,
                    ;
                    assert(k % 32 == j as int) by (nonlinear_arith)
                        requires
                            offset == 32 * b,
                            j < 32,
                            k == offset + j,
                    ;
                }
                output[offset + j] = blk[j];
                j = j + 1;
            }
            b = b + 1;
        }
        self.counter = self.counter.wrapping_add(1);
    }
}

impl EntropySource for SolanaEntropy {
    open spec fn spec_secure(&self) -> bool {
        true
    }

    fn generate(&mut self, num_bytes: usize) -> (r: Result<Vec<u8>>) {
        let mut buffer: Vec<u8> = vec![0u8; num_bytes];
        self.fill_stream(buffer.as_mut_slice());
        Ok(buffer)
    }

    fn fill_bytes(&mut self, output: &mut [u8]) -> (r: Result<()>) {
        self.fill_stream(output);
        Ok(())
    }

    fn entropy_bits(&self) -> usize {
        256
    }

    fn is_cryptographically_secure(&self) -> bool {
        true
    }
}

/// Multiplier of the deterministic generator.
pub const LCG_MULTIPLIER: u64 = 6364136223846793005;

/// One step of the generator: `s * 6364136223846793005 + 1` modulo 2^64.
pub open spec fn lcg_step(s: u64) -> u64 {
    ((s as nat * LCG_MULTIPLIER as nat + 1) % 0x1_0000_0000_0000_0000) as u64
}

/// The state after `n` steps.
pub open spec fn lcg_iter(s: u64, n: nat) -> u64
    decreases n,
{
    if n == 0 {
        s
    } else {
        lcg_step(lcg_iter(s, (n - 1) as nat))
    }
}

/// The byte that a state yields: bits 32..40.
pub open spec fn lcg_byte(s: u64) -> u8 {
    ((s as nat / 0x1_0000_0000) % 256) as u8
}

/// A deterministic linear congruential generator; not secure, for tests only.
#[derive(Debug)]
pub struct DeterministicEntropy {
    state: u64,
}

impl DeterministicEntropy {
    pub closed spec fn spec_state(&self) -> u64 {
        self.state
    }

    pub fn new(seed: u64) -> (r: Self)
        ensures
            r.spec_state() == seed,
    {
        DeterministicEntropy { state: seed }
    }

    /// Writes byte `k` from the state after `k + 1` steps.
    pub fn fill_stream(&mut self, output: &mut [u8])
        ensures
            final(output)@.len() == old(output)@.len(),
            forall|k: int|
                0 <= k < final(output)@.len() ==> final(output)@[k] == lcg_byte(
                    lcg_iter(old(self).spec_state(), (k + 1) as nat),
                ),
            final(self).spec_state() == lcg_iter(old(self).spec_state(), old(output)@.len()),
    {
        let ghost s0 = self.state;
        let n = output.len();
        let mut i: usize = 0;
        while i < n
            invariant
                n == output@.len(),
                i <= n,
                self.state == lcg_iter(s0, i as nat),
                forall|k: int| 0 <= k < i ==> output@[k] == lcg_byte(lcg_iter(s0, (k + 1) as nat)),
            decreases n - i,
        {
            let next = ((self.state as u128 * LCG_MULTIPLIER as u128 + 1) % 0x1_0000_0000_0000_0000u128) as u64;
            self.state = next;
            output[i] = ((next / 0x1_0000_0000) % 256) as u8;
            i = i + 1;
        }
    }
}

impl EntropySource for DeterministicEntropy {
    open spec fn spec_secure(&self) -> bool {
        false
    }

    fn generate(&mut self, num_bytes: usize) -> (r: Result<Vec<u8>>) {
        let mut buffer: Vec<u8> = vec![0u8; num_bytes];
        self.fill_stream(buffer.as_mut_slice());
        Ok(buffer)
    }

    fn fill_bytes(&mut self, output: &mut [u8]) -> (r: Result<()>) {
        self.fill_stream(output);
        Ok(())
    }

    fn entropy_bits(&self) -> usize {
        64
    }

    fn is_cryptographically_secure(&self) -> bool {
        false
    }
}

} // verus!
