//! Poseidon2 sponge hash over the Goldilocks field, with domain separation,
//! and the byte helpers built on it.
//!
//! The permutation itself comes from Plonky3; the sponge around it (domain
//! absorption, rate-8 message absorption, 32-byte squeeze) is stated and
//! proved here.

use vstd::prelude::*;
use vstd::string::StringSliceAdditionalSpecFns;
use p3_field::PrimeField64;
use p3_symmetric::Permutation;
use rand::SeedableRng;
use crate::common::errors::{Result, ZKMTDError};
use crate::utils::constants::{
    DOMAIN_MTD_PARAMS, DOMAIN_PV_SALT, GOLDILOCKS_ORDER, ZKMTD_POSEIDON2_SEED,
};

verus! {

/// A Goldilocks field element in canonical form.
pub type FieldElement = u64;

/// A 32-byte hash output.
pub type HashDigest = [u8; 32];

/// Number of field elements in the sponge state.
pub const SPONGE_WIDTH: usize = 16;

/// Number of state cells that absorb input.
pub const SPONGE_RATE: usize = 8;

// ---------------------------------------------------------------------------
// Byte encodings
// ---------------------------------------------------------------------------

/// Little-endian value of a byte string.
pub open spec fn le_value(b: Seq<u8>) -> nat
    decreases b.len(),
{
    if b.len() == 0 {
        0
    } else {
        b[0] as nat + 256 * le_value(b.subrange(1, b.len() as int))
    }
}

pub open spec fn pow256(n: nat) -> nat
    decreases n,
{
    if n == 0 {
        1
    } else {
        256 * pow256((n - 1) as nat)
    }
}

/// The `n` low bytes of `x`, least significant first.
pub open spec fn le_bytes(x: nat, n: nat) -> Seq<u8>
    decreases n,
{
    if n == 0 {
        Seq::empty()
    } else {
        seq![(x % 256) as u8] + le_bytes(x / 256, (n - 1) as nat)
    }
}

pub proof fn lemma_le_bytes_len(x: nat, n: nat)
    ensures
        le_bytes(x, n).len() == n,
    decreases n,
{
    if n > 0 {
        lemma_le_bytes_len(x / 256, (n - 1) as nat);
    }
}

/// Reading back `n` little-endian bytes of `x` gives `x` modulo `256^n`.
pub proof fn lemma_le_round_trip(x: nat, n: nat)
    ensures
        le_value(le_bytes(x, n)) == x % pow256(n),
    decreases n,
{
    if n == 0 {
        assert(le_bytes(x, 0) =~= Seq::<u8>::empty());
    } else {
        let rest = le_bytes(x / 256, (n - 1) as nat);
        let b = le_bytes(x, n);
        lemma_le_round_trip(x / 256, (n - 1) as nat);
        assert(b == seq![(x % 256) as u8] + rest);
        assert(b.subrange(1, b.len() as int) =~= rest);
        assert(b[0] == (x % 256) as u8);
        lemma_pow256_pos((n - 1) as nat);
        vstd::arithmetic::div_mod::lemma_breakdown(x as int, 256, pow256((n - 1) as nat) as int);
        assert(pow256(n) == 256 * pow256((n - 1) as nat));
    }
}

proof fn lemma_pow256_pos(n: nat)
    ensures
        pow256(n) > 0,
    decreases n,
{
    if n > 0 {
        lemma_pow256_pos((n - 1) as nat);
    }
}

/// A `u64` read back from its 8-byte encoding is itself.
pub proof fn lemma_le8_round_trip(x: u64)
    ensures
        le_value(le8(x)) == x,
        le8(x).len() == 8,
{
    lemma_le_round_trip(x as nat, 8);
    lemma_pow256_8();
    lemma_le_bytes_len(x as nat, 8);
}

/// A `u32` read back from its 4-byte encoding is itself.
pub proof fn lemma_le4_round_trip(x: u32)
    ensures
        le_value(le4(x)) == x,
        le4(x).len() == 4,
{
    lemma_le_round_trip(x as nat, 4);
    reveal_with_fuel(pow256, 5);
    assert(pow256(4) == 0x1_0000_0000);
    assert((x as nat) % 0x1_0000_0000 == x as nat);
    lemma_le_bytes_len(x as nat, 4);
}

/// The 8-byte little-endian encoding of a `u64`.
pub open spec fn le8(x: u64) -> Seq<u8> {
    le_bytes(x as nat, 8)
}

/// The 4-byte little-endian encoding of a `u32`.
pub open spec fn le4(x: u32) -> Seq<u8> {
    le_bytes(x as nat, 4)
}

/// Concatenated 8-byte little-endian encodings of a sequence of `u64`.
pub open spec fn values_le(v: Seq<u64>) -> Seq<u8>
    decreases v.len(),
{
    if v.len() == 0 {
        Seq::empty()
    } else {
        values_le(v.drop_last()) + le8(v.last())
    }
}

pub open spec fn min_int(a: int, b: int) -> int {
    if a < b {
        a
    } else {
        b
    }
}

/// The field element read from (at most) the first 8 bytes of `b`,
/// little-endian, reduced modulo the Goldilocks order.
pub open spec fn field_of_bytes(b: Seq<u8>) -> u64 {
    (le_value(b.take(min_int(8, b.len() as int))) % (GOLDILOCKS_ORDER as nat)) as u64
}

proof fn lemma_le_value_bound(b: Seq<u8>)
    ensures
        le_value(b) < pow256(b.len()),
    decreases b.len(),
{
    if b.len() > 0 {
        let rest = b.subrange(1, b.len() as int);
        lemma_le_value_bound(rest);
        assert(pow256(b.len()) == 256 * pow256(rest.len()));
        assert(le_value(b) == b[0] as nat + 256 * le_value(rest));
        assert(b[0] as nat + 256 * le_value(rest) < 256 * pow256(rest.len())) by (nonlinear_arith)
            requires
                le_value(rest) < pow256(rest.len()),
                b[0] < 256,
        ;
    }
}

proof fn lemma_pow256_8()
    ensures
        pow256(8) == 0x1_0000_0000_0000_0000,
{
    reveal_with_fuel(pow256, 9);
}

proof fn lemma_pow256_mono(a: nat, b: nat)
    requires
        a <= b,
    ensures
        pow256(a) <= pow256(b),
    decreases b,
{
    if a < b {
        lemma_pow256_mono(a, (b - 1) as nat);
    }
}

/// Little-endian value of the first (at most 8) bytes of `bytes[start..end]`.
pub fn le_prefix_value(bytes: &[u8], start: usize, end: usize) -> (r: u64)
    requires
        start <= end <= bytes@.len(),
    ensures
        r as nat == le_value(
            bytes@.subrange(start as int, end as int).take(
                min_int(8, end as int - start as int),
            ),
        ),
{
    let ghost s = bytes@.subrange(start as int, end as int);
    let n: usize = if end - start < 8 {
        end - start
    } else {
        8
    };
    let mut acc: u64 = 0;
    let mut k: usize = n;
    proof {
        assert(s.subrange(n as int, n as int) =~= Seq::<u8>::empty());
    }
    while k > 0
        invariant
            n <= 8,
            n == min_int(8, s.len() as int),
            k <= n,
            start + n <= end,
            end <= bytes@.len(),
            s == bytes@.subrange(start as int, end as int),
            acc as nat == le_value(s.subrange(k as int, n as int)),
        decreases k,
    {
        k = k - 1;
        let ghost tail = s.subrange(k as int + 1, n as int);
        let ghost cur = s.subrange(k as int, n as int);
        proof {
            assert(cur.subrange(1, cur.len() as int) =~= tail);
            lemma_le_value_bound(tail);
            lemma_pow256_mono(tail.len(), 7);
            lemma_pow256_8();
            reveal_with_fuel(pow256, 8);
            assert(pow256(7) == 0x100_0000_0000_0000);
        }
        let byte = bytes[start + k];
        assert(byte == cur[0]);
        acc = acc * 256 + byte as u64;
    }
    proof {
        assert(s.subrange(0, n as int) =~= s.take(min_int(8, s.len() as int)));
    }
    acc
}

fn field_from_range(bytes: &[u8], start: usize, end: usize) -> (r: u64)
    requires
        start <= end <= bytes@.len(),
    ensures
        r == field_of_bytes(bytes@.subrange(start as int, end as int)),
        r < GOLDILOCKS_ORDER,
{
    le_prefix_value(bytes, start, end) % GOLDILOCKS_ORDER
}

/// Field element from up to 8 little-endian bytes, reduced modulo the field order.
pub fn bytes_to_field(bytes: &[u8]) -> (r: FieldElement)
    ensures
        r == field_of_bytes(bytes@),
        r < GOLDILOCKS_ORDER,
{
    let r = field_from_range(bytes, 0, bytes.len());
    assert(bytes@.subrange(0, bytes@.len() as int) =~= bytes@);
    r
}

/// The 8-byte little-endian encoding of a field element.
pub fn field_to_bytes(field_elem: FieldElement) -> (r: [u8; 8])
    ensures
        r@ == le8(field_elem),
{
    let mut out = [0u8; 8];
    let mut v: u64 = field_elem;
    let mut i: usize = 0;
    while i < 8
        invariant
            i <= 8,
            out@.len() == 8,
            out@.subrange(0, i as int) + le_bytes(v as nat, (8 - i) as nat) == le8(field_elem),
        decreases 8 - i,
    {
        let ghost before = out@;
        let b = (v % 256) as u8;
        out[i] = b;
        proof {
            assert(out@.subrange(0, i as int + 1) =~= before.subrange(0, i as int).push(b));
            let rest = le_bytes((v / 256) as nat, (8 - i - 1) as nat);
            assert(le_bytes(v as nat, (8 - i) as nat) == seq![b] + rest);
            assert(before.subrange(0, i as int).push(b) + rest =~= before.subrange(0, i as int)
                + (seq![b] + rest));
        }
        v = v / 256;
        i = i + 1;
    }
    proof {
        assert(le_bytes(v as nat, 0) =~= Seq::<u8>::empty());
        assert(out@.subrange(0, 8) =~= out@);
        assert(out@.subrange(0, 8) + Seq::<u8>::empty() =~= out@);
    }
    out
}

/// Appends the 8-byte little-endian encoding of `x`.
pub fn push_u64_le(out: &mut Vec<u8>, x: u64)
    ensures
        final(out)@ == old(out)@ + le8(x),
{
    let ghost start = out@;
    let mut v: u64 = x;
    let mut i: usize = 0;
    while i < 8
        invariant
            i <= 8,
            out@ + le_bytes(v as nat, (8 - i) as nat) == start + le8(x),
        decreases 8 - i,
    {
        let b = (v % 256) as u8;
        let ghost before = out@;
        out.push(b);
        proof {
            let rest = le_bytes((v / 256) as nat, (8 - i - 1) as nat);
            assert(le_bytes(v as nat, (8 - i) as nat) == seq![b] + rest);
            assert(before.push(b) + rest =~= before + (seq![b] + rest));
        }
        v = v / 256;
        i = i + 1;
    }
    assert(out@ + le_bytes(v as nat, 0) =~= out@);
}

/// Appends the 4-byte little-endian encoding of `x`.
pub fn push_u32_le(out: &mut Vec<u8>, x: u32)
    ensures
        final(out)@ == old(out)@ + le4(x),
{
    let ghost start = out@;
    let mut v: u32 = x;
    let mut i: usize = 0;
    while i < 4
        invariant
            i <= 4,
            out@ + le_bytes(v as nat, (4 - i) as nat) == start + le4(x),
        decreases 4 - i,
    {
        let b = (v % 256) as u8;
        let ghost before = out@;
        out.push(b);
        proof {
            let rest = le_bytes((v / 256) as nat, (4 - i - 1) as nat);
            assert(le_bytes(v as nat, (4 - i) as nat) == seq![b] + rest);
            assert(before.push(b) + rest =~= before + (seq![b] + rest));
        }
        v = v / 256;
        i = i + 1;
    }
    assert(out@ + le_bytes(v as nat, 0) =~= out@);
}

/// Appends every byte of `src`.
pub fn push_bytes(out: &mut Vec<u8>, src: &[u8])
    ensures
        final(out)@ == old(out)@ + src@,
{
    let ghost start = out@;
    let mut i: usize = 0;
    while i < src.len()
        invariant
            i <= src@.len(),
            out@ == start + src@.subrange(0, i as int),
        decreases src@.len() - i,
    {
        out.push(src[i]);
        assert(src@.subrange(0, i as int + 1) =~= src@.subrange(0, i as int).push(src@[i as int]));
        assert(out@ =~= start + src@.subrange(0, i as int + 1));
        i = i + 1;
    }
    assert(src@.subrange(0, src@.len() as int) =~= src@);
}

/// Appends the 8-byte little-endian encoding of each value in turn.
pub fn push_values_le(out: &mut Vec<u8>, values: &[u64])
    ensures
        final(out)@ == old(out)@ + values_le(values@),
{
    let ghost start = out@;
    let mut i: usize = 0;
    while i < values.len()
        invariant
            i <= values@.len(),
            out@ == start + values_le(values@.subrange(0, i as int)),
        decreases values@.len() - i,
    {
        let ghost before = out@;
        push_u64_le(out, values[i]);
        proof {
            let pre = values@.subrange(0, i as int + 1);
            assert(pre.drop_last() =~= values@.subrange(0, i as int));
            assert(values_le(pre) == values_le(pre.drop_last()) + le8(pre.last()));
            assert(out@ =~= start + values_le(pre));
        }
        i = i + 1;
    }
    assert(values@.subrange(0, values@.len() as int) =~= values@);
}

// ---------------------------------------------------------------------------
// The sponge
// ---------------------------------------------------------------------------

/// The Poseidon2 permutation (width 16, S-box x^7) whose round constants are
/// drawn from a ChaCha20 stream seeded with `seed`.
pub uninterp spec fn poseidon2_permutation(seed: u64, state: Seq<u64>) -> Seq<u64>;

/// Relies on p3_goldilocks's `Poseidon2Goldilocks::<16>::new_from_rng_128`, driven by
/// rand_chacha's `ChaCha20Rng::seed_from_u64(seed)`, and on its `permute_mut`: a
/// deterministic function of the seed and the state that returns 16 canonical elements.
#[verifier::external_body]
fn poseidon2_permute(seed: u64, state: &Vec<u64>) -> (r: Vec<u64>)
    requires
        state@.len() == 16,
    ensures
        r@ == poseidon2_permutation(seed, state@),
        r@.len() == 16,
        forall|i: int| 0 <= i < 16 ==> r@[i] < GOLDILOCKS_ORDER,
{
    let mut rng = rand_chacha::ChaCha20Rng::seed_from_u64(seed);
    let perm = p3_goldilocks::Poseidon2Goldilocks::<16>::new_from_rng_128(&mut rng);
    let mut s = [p3_goldilocks::Goldilocks::new(0); 16];
    for i in 0..16 {
        s[i] = p3_goldilocks::Goldilocks::new(state[i]);
    }
    perm.permute_mut(&mut s);
    s.iter().map(|x| x.as_canonical_u64()).collect()
}

/// The permutation instance used by the library's hash.
pub open spec fn permute_spec(state: Seq<u64>) -> Seq<u64> {
    poseidon2_permutation(ZKMTD_POSEIDON2_SEED, state)
}

/// Addition in the Goldilocks field.
pub open spec fn field_add(a: u64, b: u64) -> u64 {
    ((a as nat + b as nat) % (GOLDILOCKS_ORDER as nat)) as u64
}

/// The `j`-th 8-byte cell of a block (shorter at the end).
pub open spec fn cell(block: Seq<u8>, j: int) -> Seq<u8> {
    block.subrange(8 * j, min_int(8 * j + 8, block.len() as int))
}

/// Adds the cells of `block` (at most `SPONGE_RATE` of them) into the rate part of the state.
pub open spec fn absorb_block(state: Seq<u64>, block: Seq<u8>) -> Seq<u64> {
    Seq::new(
        16,
        |j: int|
            if j < 8 && 8 * j < block.len() {
                field_add(state[j], field_of_bytes(cell(block, j)))
            } else {
                state[j]
            },
    )
}

/// The all-zero sponge state.
pub open spec fn zero_state() -> Seq<u64> {
    Seq::new(16, |j: int| 0u64)
}

/// State after absorbing the domain tag (before the first permutation).
pub open spec fn domain_state(domain: Seq<u8>) -> Seq<u64> {
    absorb_block(zero_state(), domain)
}

/// Absorbs `data[pos..]` in blocks of 64 bytes, permuting after each block.
pub open spec fn absorb_from(state: Seq<u64>, data: Seq<u8>, pos: nat) -> Seq<u64>
    decreases data.len() + 64 - pos,
{
    if pos >= data.len() {
        state
    } else {
        let block = data.subrange(pos as int, min_int(pos as int + 64, data.len() as int));
        absorb_from(permute_spec(absorb_block(state, block)), data, pos + 64)
    }
}

/// The 32 output bytes: the first four state cells, little-endian.
pub open spec fn squeeze(state: Seq<u64>) -> Seq<u8> {
    le8(state[0]) + le8(state[1]) + le8(state[2]) + le8(state[3])
}

/// The library's hash `H(data, domain)`.
pub open spec fn poseidon_digest(data: Seq<u8>, domain: Seq<u8>) -> Seq<u8> {
    squeeze(absorb_from(permute_spec(domain_state(domain)), data, 0))
}

pub fn field_add_exec(a: u64, b: u64) -> (r: u64)
    requires
        a < GOLDILOCKS_ORDER,
        b < GOLDILOCKS_ORDER,
    ensures
        r == field_add(a, b),
        r < GOLDILOCKS_ORDER,
{
    ((a as u128 + b as u128) % (GOLDILOCKS_ORDER as u128)) as u64
}

/// Adds the cells of `bytes[start..end]` into the rate part of `state`.
fn absorb_exec(state: &mut Vec<u64>, bytes: &[u8], start: usize, end: usize)
    requires
        old(state)@.len() == 16,
        forall|i: int| 0 <= i < 16 ==> old(state)@[i] < GOLDILOCKS_ORDER,
        start <= end <= bytes@.len(),
    ensures
        final(state)@ == absorb_block(old(state)@, bytes@.subrange(start as int, end as int)),
        forall|i: int| 0 <= i < 16 ==> final(state)@[i] < GOLDILOCKS_ORDER,
{
    let ghost block = bytes@.subrange(start as int, end as int);
    let ghost init = state@;
    let len = end - start;
    let mut j: usize = 0;
    while j < SPONGE_RATE
        invariant
            j <= 8,
            len == block.len(),
            start <= end <= bytes@.len(),
            block == bytes@.subrange(start as int, end as int),
            state@.len() == 16,
            forall|i: int| 0 <= i < 16 ==> state@[i] < GOLDILOCKS_ORDER,
            forall|i: int| 0 <= i < j ==> state@[i] == absorb_block(init, block)[i],
            forall|i: int| j <= i < 16 ==> state@[i] == init[i],
        decreases 8 - j,
    {
        if 8 * j < len {
            let cell_end: usize = if 8 * j + 8 < len {
                8 * j + 8
            } else {
                len
            };
            let v = field_from_range(bytes, start + 8 * j, start + cell_end);
            proof {
                assert(bytes@.subrange((start + 8 * j) as int, (start + cell_end) as int)
                    =~= cell(block, j as int));
            }
            let cur = state[j];
            let nv = field_add_exec(cur, v);
            state.set(j, nv);
        }
        j = j + 1;
    }
    assert(state@ =~= absorb_block(init, block));
}

/// `H(data, domain)`: absorb the domain tag, permute, absorb the message in
/// 64-byte blocks (permuting after each), and squeeze 32 bytes.
pub fn poseidon_hash(data: &[u8], domain: &[u8]) -> (r: HashDigest)
    ensures
        r@ == poseidon_digest(data@, domain@),
{
    let mut state: Vec<u64> = vec![0u64; SPONGE_WIDTH];
    assert(state@ =~= zero_state());
    absorb_exec(&mut state, domain, 0, domain.len());
    assert(domain@.subrange(0, domain@.len() as int) =~= domain@);
    state = poseidon2_permute(ZKMTD_POSEIDON2_SEED, &state);
    let ghost first = state@;
    let mut pos: usize = 0;
    while pos < data.len()
        invariant
            state@.len() == 16,
            forall|i: int| 0 <= i < 16 ==> state@[i] < GOLDILOCKS_ORDER,
            absorb_from(state@, data@, pos as nat) == absorb_from(first, data@, 0),
        decreases data@.len() - pos,
    {
        let end: usize = if data.len() - pos > 64 {
            pos + 64
        } else {
            data.len()
        };
        let ghost old_pos = pos;
        absorb_exec(&mut state, data, pos, end);
        state = poseidon2_permute(ZKMTD_POSEIDON2_SEED, &state);
        pos = end;
        proof {
            if end < old_pos + 64 {
                assert(absorb_from(state@, data@, end as nat) == state@);
                assert(absorb_from(state@, data@, (old_pos + 64) as nat) == state@);
            }
        }
    }
    let mut out: Vec<u8> = Vec::new();
    push_u64_le(&mut out, state[0]);
    push_u64_le(&mut out, state[1]);
    push_u64_le(&mut out, state[2]);
    push_u64_le(&mut out, state[3]);
    assert(out@ =~= squeeze(state@));
    proof {
        lemma_le_bytes_len(state@[0] as nat, 8);
        lemma_le_bytes_len(state@[1] as nat, 8);
        lemma_le_bytes_len(state@[2] as nat, 8);
        lemma_le_bytes_len(state@[3] as nat, 8);
    }
    let mut r = [0u8; 32];
    let mut i: usize = 0;
    while i < 32
        invariant
            i <= 32,
            r@.len() == 32,
            out@.len() == 32,
            forall|k: int| 0 <= k < i ==> r@[k] == out@[k],
        decreases 32 - i,
    {
        r[i] = out[i];
        i = i + 1;
    }
    assert(r@ =~= out@);
    r
}

/// Determinism: `H(data, domain)` is a function of its two arguments, so any
/// two digests computed from the same data and domain are the same bytes.
pub proof fn lemma_hash_deterministic(
    data: Seq<u8>,
    domain: Seq<u8>,
    r1: HashDigest,
    r2: HashDigest,
)
    requires
        r1@ == poseidon_digest(data, domain),
        r2@ == poseidon_digest(data, domain),
    ensures
        r1 == r2,
{
    assert(r1@ =~= r2@);
    vstd::array::lemma_array_index(r1, 0);
}

/// The field element held by the first 8 bytes of a digest.
pub fn hash_to_field(hash: &HashDigest) -> (r: FieldElement)
    ensures
        r == field_of_bytes(hash@),
{
    bytes_to_field(hash.as_slice())
}

/// `H(left ∥ right, domain)`.
pub fn combine_hashes(left: &HashDigest, right: &HashDigest, domain: &[u8]) -> (r: HashDigest)
    ensures
        r@ == poseidon_digest(left@ + right@, domain@),
{
    let mut combined: Vec<u8> = Vec::with_capacity(64);
    push_bytes(&mut combined, left.as_slice());
    push_bytes(&mut combined, right.as_slice());
    assert(combined@ =~= left@ + right@);
    poseidon_hash(combined.as_slice(), domain)
}

/// Concatenation of a sequence of byte strings.
pub open spec fn concat_all(parts: Seq<Seq<u8>>) -> Seq<u8>
    decreases parts.len(),
{
    if parts.len() == 0 {
        Seq::empty()
    } else {
        concat_all(parts.drop_last()) + parts.last()
    }
}

/// `H(inputs[0] ∥ inputs[1] ∥ ..., domain)`.
pub fn hash_multiple(inputs: &[&[u8]], domain: &[u8]) -> (r: HashDigest)
    ensures
        r@ == poseidon_digest(concat_all(inputs@.map_values(|s: &[u8]| s@)), domain@),
{
    let mut combined: Vec<u8> = Vec::new();
    let mut i: usize = 0;
    while i < inputs.len()
        invariant
            i <= inputs@.len(),
            combined@ == concat_all(inputs@.subrange(0, i as int).map_values(|s: &[u8]| s@)),
        decreases inputs@.len() - i,
    {
        push_bytes(&mut combined, inputs[i]);
        proof {
            let pre = inputs@.subrange(0, i as int + 1).map_values(|s: &[u8]| s@);
            assert(pre.drop_last() =~= inputs@.subrange(0, i as int).map_values(|s: &[u8]| s@));
        }
        i = i + 1;
    }
    assert(inputs@.subrange(0, inputs@.len() as int) =~= inputs@);
    poseidon_hash(combined.as_slice(), domain)
}

/// Input of the per-epoch base derivation: `seed ∥ epoch_le8 ∥ salt`.
pub open spec fn mtd_base_input(seed: Seq<u8>, epoch: u64, salt: Seq<u8>) -> Seq<u8> {
    seed + le8(epoch) + salt
}

/// `H(seed ∥ epoch_le8 ∥ salt, DOMAIN_MTD_PARAMS)`; fails on an empty seed.
pub fn derive_mtd_params(seed: &[u8], epoch: u64, salt: &[u8]) -> (r: Result<HashDigest>)
    ensures
        seed@.len() == 0 <==> r is Err,
        r is Err ==> r->Err_0 is MTDError,
        r is Ok ==> r->Ok_0@ == poseidon_digest(
            mtd_base_input(seed@, epoch, salt@),
            DOMAIN_MTD_PARAMS.spec_bytes(),
        ),
{
    if seed.len() == 0 {
        return Err(ZKMTDError::MTDError { reason: "Seed is empty".to_owned() });
    }
    let mut data: Vec<u8> = Vec::new();
    push_bytes(&mut data, seed);
    push_u64_le(&mut data, epoch);
    push_bytes(&mut data, salt);
    Ok(poseidon_hash(data.as_slice(), DOMAIN_MTD_PARAMS.as_bytes()))
}

/// `H(seed ∥ epoch_le8 ∥ nonce, DOMAIN_PV_SALT)`: a salt for committing public values.
pub fn derive_pv_salt(seed: &[u8], epoch: u64, nonce: &[u8]) -> (r: HashDigest)
    ensures
        r@ == poseidon_digest(seed@ + le8(epoch) + nonce@, DOMAIN_PV_SALT.spec_bytes()),
{
    let mut data: Vec<u8> = Vec::new();
    push_bytes(&mut data, seed);
    push_u64_le(&mut data, epoch);
    push_bytes(&mut data, nonce);
    poseidon_hash(data.as_slice(), DOMAIN_PV_SALT.as_bytes())
}

// ---------------------------------------------------------------------------
// Constant-time comparison
// ---------------------------------------------------------------------------

proof fn lemma_or_xor(r: u8, x: u8, y: u8)
    ensures
        ((r | (x ^ y)) == 0) <==> (r == 0 && x == y),
{
    assert(((r | (x ^ y)) == 0) <==> (r == 0 && x == y)) by (bit_vector);
}

/// Equality of two fixed-size byte arrays; every byte is inspected.
pub fn constant_time_eq_fixed<const N: usize>(a: &[u8; N], b: &[u8; N]) -> (r: bool)
    ensures
        r == (a@ == b@),
{
    let mut result: u8 = 0;
    let mut i: usize = 0;
    while i < N
        invariant
            i <= N,
            a@.len() == N,
            b@.len() == N,
            (result == 0) == (forall|k: int| 0 <= k < i ==> a@[k] == b@[k]),
        decreases N - i,
    {
        proof {
            lemma_or_xor(result, a@[i as int], b@[i as int]);
        }
        result = result | (a[i] ^ b[i]);
        i = i + 1;
    }
    proof {
        if result == 0 {
            assert(a@ =~= b@);
        }
    }
    result == 0
}

/// Equality of two byte strings of any length; inspects `max(len)` bytes and
/// folds the length comparison into the result.
pub fn constant_time_eq(a: &[u8], b: &[u8]) -> (r: bool)
    ensures
        r == (a@ == b@),
{
    let len_eq = a.len() == b.len();
    let max_len = if a.len() > b.len() {
        a.len()
    } else {
        b.len()
    };
    let mut result: u8 = 0;
    let mut i: usize = 0;
    while i < max_len
        invariant
            i <= max_len,
            max_len == if a@.len() > b@.len() { a@.len() } else { b@.len() },
            len_eq == (a@.len() == b@.len()),
            len_eq ==> ((result == 0) == (forall|k: int| 0 <= k < i ==> a@[k] == b@[k])),
        decreases max_len - i,
    {
        let x = if i < a.len() {
            a[i]
        } else {
            0
        };
        let y = if i < b.len() {
            b[i]
        } else {
            0
        };
        proof {
            lemma_or_xor(result, x, y);
        }
        result = result | (x ^ y);
        i = i + 1;
    }
    proof {
        if len_eq && result == 0 {
            assert(a@ =~= b@);
        }
    }
    len_eq && result == 0
}

} // verus!
