//! Run-length coding of proof bytes for transport, wrapped with the original
//! size and a checksum over the uncompressed bytes.

use vstd::prelude::*;
use vstd::string::StringSliceAdditionalSpecFns;
use crate::common::errors::{Result, ZKMTDError};
use crate::common::types::Proof;
use crate::utils::constants::{DOMAIN_COMPRESSION_CHECKSUM, MAX_RLE_DECOMPRESSED_SIZE};
use crate::utils::hash::{constant_time_eq_fixed, poseidon_digest, poseidon_hash, HashDigest};

verus! {

/// The coding applied to the payload.
#[derive(Debug, Clone, Copy, PartialEq, Eq, Structural)]
pub enum CompressionAlgorithm {
    Uncompressed,
    Rle,
}

/// `n` copies of `v`.
pub open spec fn repeat(v: u8, n: nat) -> Seq<u8> {
    Seq::new(n, |i: int| v)
}

/// Expansion of `(value, count)` pairs; a trailing odd byte is ignored.
pub open spec fn rle_decode(data: Seq<u8>) -> Seq<u8>
    decreases data.len(),
{
    if data.len() < 2 {
        Seq::empty()
    } else {
        repeat(data[0], data[1] as nat) + rle_decode(data.subrange(2, data.len() as int))
    }
}

/// `H(data, DOMAIN_COMPRESSION_CHECKSUM)`.
pub open spec fn compression_checksum(data: Seq<u8>) -> Seq<u8> {
    poseidon_digest(data, DOMAIN_COMPRESSION_CHECKSUM.spec_bytes())
}

/// What the payload decodes to, if it decodes: a run-length payload must
/// have even length and expand to at most 10 MiB.
pub open spec fn payload_decoded(algorithm: CompressionAlgorithm, payload: Seq<u8>) -> Option<Seq<u8>> {
    match algorithm {
        CompressionAlgorithm::Uncompressed => Some(payload),
        CompressionAlgorithm::Rle => if payload.len() % 2 == 0 && rle_decode(payload).len()
            <= MAX_RLE_DECOMPRESSED_SIZE {
            Some(rle_decode(payload))
        } else {
            None
        },
    }
}

proof fn lemma_rle_decode_append(a: Seq<u8>, v: u8, c: u8)
    requires
        a.len() % 2 == 0,
    ensures
        rle_decode(a + seq![v, c]) == rle_decode(a) + repeat(v, c as nat),
    decreases a.len(),
{
    let ac = a + seq![v, c];
    if a.len() == 0 {
        assert(ac.subrange(2, ac.len() as int) =~= Seq::<u8>::empty());
        assert(ac[0] == v && ac[1] == c);
        assert(rle_decode(Seq::<u8>::empty()) == Seq::<u8>::empty());
        assert(rle_decode(ac) == repeat(v, c as nat) + rle_decode(ac.subrange(2, ac.len() as int)));
        assert(rle_decode(a) == Seq::<u8>::empty());
        assert(rle_decode(ac) =~= rle_decode(a) + repeat(v, c as nat));
    } else {
        let rest = a.subrange(2, a.len() as int);
        assert(ac.subrange(2, ac.len() as int) =~= rest + seq![v, c]);
        lemma_rle_decode_append(rest, v, c);
        assert(rle_decode(ac) =~= rle_decode(a) + repeat(v, c as nat));
    }
}

/// Run-length encodes `data` as `(value, count)` pairs with counts in `1..=255`.
pub fn compress_rle(data: &[u8]) -> (r: Vec<u8>)
    ensures
        r@.len() % 2 == 0,
        rle_decode(r@) == data@,
        r@.len() <= 2 * data@.len(),
{
    let n = data.len();
    let mut out: Vec<u8> = Vec::new();
    if n == 0 {
        return out;
    }
    let mut current: u8 = data[0];
    let mut count: u8 = 1;
    let mut i: usize = 1;
    assert(data@.subrange(0, 1) =~= repeat(current, 1));
    assert(rle_decode(out@) =~= Seq::<u8>::empty());
    while i < n
        invariant
            n == data@.len(),
            1 <= i <= n,
            1 <= count,
            out@.len() % 2 == 0,
            out@.len() + 2 * (count as nat) <= 2 * i,
            rle_decode(out@) + repeat(current, count as nat) == data@.subrange(0, i as int),
        decreases n - i,
    {
        let byte = data[i];
        if byte == current && count < 255 {
            proof {
                assert(repeat(current, count as nat + 1) =~= repeat(current, count as nat).push(byte));
                assert(data@.subrange(0, i as int + 1) =~= data@.subrange(0, i as int).push(byte));
                assert(rle_decode(out@) + repeat(current, count as nat + 1) =~= (rle_decode(out@)
                    + repeat(current, count as nat)).push(byte));
            }
            count = count + 1;
        } else {
            let ghost before = out@;
            out.push(current);
            out.push(count);
            proof {
                assert(out@ =~= before + seq![current, count]);
                lemma_rle_decode_append(before, current, count);
                assert(repeat(byte, 1) =~= seq![byte]);
                assert(data@.subrange(0, i as int + 1) =~= data@.subrange(0, i as int).push(byte));
                assert(rle_decode(out@) + repeat(byte, 1) =~= (rle_decode(before) + repeat(current, count as nat)).push(byte));
            }
            current = byte;
            count = 1;
        }
        i = i + 1;
    }
    let ghost before = out@;
    out.push(current);
    out.push(count);
    proof {
        assert(out@ =~= before + seq![current, count]);
        lemma_rle_decode_append(before, current, count);
        assert(data@.subrange(0, n as int) =~= data@);
    }
    out
}

/// Expands `(value, count)` pairs; fails on an odd length or when the output
/// would pass 10 MiB.
pub fn decompress_rle(data: &[u8]) -> (r: Result<Vec<u8>>)
    ensures
        payload_decoded(CompressionAlgorithm::Rle, data@) is Some <==> r is Ok,
        r is Ok ==> r->Ok_0@ == rle_decode(data@),
        r is Err ==> r->Err_0 is SerializationError,
{
    let n = data.len();
    if n % 2 != 0 {
        return Err(ZKMTDError::SerializationError { reason: "Invalid RLE data: length is odd".to_owned() });
    }
    let mut out: Vec<u8> = Vec::new();
    let mut i: usize = 0;
    assert(data@.subrange(0, n as int) =~= data@);
    assert(out@ + rle_decode(data@) =~= rle_decode(data@));
    while i < n
        invariant
            n == data@.len(),
            n % 2 == 0,
            i <= n,
            i % 2 == 0,
            out@.len() <= MAX_RLE_DECOMPRESSED_SIZE,
            out@ + rle_decode(data@.subrange(i as int, n as int)) == rle_decode(data@),
        decreases n - i,
    {
        let value = data[i];
        let count = data[i + 1];
        let ghost rest = data@.subrange(i as int, n as int);
        proof {
            assert(rest.subrange(2, rest.len() as int) =~= data@.subrange(i + 2, n as int));
        }
        if out.len() + count as usize > MAX_RLE_DECOMPRESSED_SIZE {
            proof {
                assert(rle_decode(data@).len() > MAX_RLE_DECOMPRESSED_SIZE);
            }
            return Err(ZKMTDError::SerializationError { reason: "Decompressed output exceeds the size limit".to_owned() });
        }
        let ghost before = out@;
        let mut k: u8 = 0;
        while k < count
            invariant
                k <= count,
                out@ == before + repeat(value, k as nat),
            decreases count - k,
        {
            out.push(value);
            assert(repeat(value, k as nat + 1) =~= repeat(value, k as nat).push(value));
            k = k + 1;
        }
        proof {
            assert(before + rle_decode(rest) =~= before + repeat(value, count as nat) + rle_decode(
                data@.subrange(i + 2, n as int),
            ));
        }
        i = i + 2;
    }
    proof {
        assert(data@.subrange(n as int, n as int) =~= Seq::<u8>::empty());
        assert(out@ + Seq::<u8>::empty() =~= out@);
    }
    Ok(out)
}

/// A compressed proof: payload, original size, algorithm, checksum of the
/// uncompressed bytes, epoch and version.
#[derive(Debug, Clone)]
pub struct CompressedProof {
    pub original_size: usize,
    pub compressed_data: Vec<u8>,
    pub algorithm: CompressionAlgorithm,
    pub checksum: HashDigest,
    pub epoch: u64,
    pub version: u8,
}

impl CompressedProof {
    /// Whether decompression succeeds: the payload decodes, to the recorded
    /// size, and hashes to the recorded checksum.
    pub open spec fn restores(&self) -> bool {
        &&& payload_decoded(self.algorithm, self.compressed_data@) is Some
        &&& payload_decoded(self.algorithm, self.compressed_data@)->Some_0.len() == self.original_size
        &&& compression_checksum(payload_decoded(self.algorithm, self.compressed_data@)->Some_0)
            == self.checksum@
    }

    /// Compresses `proof.data` with `algorithm`, then decompresses the result
    /// and compares it with the input before handing it out.
    pub fn compress(proof: &Proof, algorithm: CompressionAlgorithm) -> (r: Result<Self>)
        ensures
            proof.data@.len() <= MAX_RLE_DECOMPRESSED_SIZE ==> r is Ok,
            r is Err ==> r->Err_0 is SerializationError,
            r is Ok ==> {
                &&& r->Ok_0.original_size == proof.data@.len()
                &&& r->Ok_0.algorithm == algorithm
                &&& r->Ok_0.checksum@ == compression_checksum(proof.data@)
                &&& payload_decoded(algorithm, r->Ok_0.compressed_data@) == Some(proof.data@)
                &&& r->Ok_0.epoch == proof.epoch
                &&& r->Ok_0.version == proof.version
            },
    {
        let original = proof.data.as_slice();
        let checksum = poseidon_hash(original, DOMAIN_COMPRESSION_CHECKSUM.as_bytes());
        let compressed_data: Vec<u8> = match algorithm {
            CompressionAlgorithm::Uncompressed => vstd::slice::slice_to_vec(original),
            CompressionAlgorithm::Rle => compress_rle(original),
        };
        let decompressed: Vec<u8> = match algorithm {
            CompressionAlgorithm::Uncompressed => vstd::slice::slice_to_vec(compressed_data.as_slice()),
            CompressionAlgorithm::Rle => match decompress_rle(compressed_data.as_slice()) {
                Ok(d) => d,
                Err(e) => {
                    return Err(e);
                },
            },
        };
        if !crate::utils::hash::constant_time_eq(decompressed.as_slice(), original) {
            return Err(ZKMTDError::SerializationError { reason: "Compression integrity verification failed".to_owned() });
        }
        Ok(CompressedProof {
            original_size: original.len(),
            compressed_data,
            algorithm,
            checksum,
            epoch: proof.epoch,
            version: proof.version,
        })
    }

    /// Restores the proof; fails when the payload does not decode, decodes to
    /// another size, or does not match the checksum (constant-time compare).
    pub fn decompress(&self) -> (r: Result<Proof>)
        ensures
            self.restores() <==> r is Ok,
            r is Err ==> r->Err_0 is SerializationError,
            r is Ok ==> {
                &&& r->Ok_0.data@ == payload_decoded(self.algorithm, self.compressed_data@)->Some_0
                &&& r->Ok_0.epoch == self.epoch
                &&& r->Ok_0.version == self.version
            },
    {
        let data: Vec<u8> = match self.algorithm {
            CompressionAlgorithm::Uncompressed => vstd::slice::slice_to_vec(self.compressed_data.as_slice()),
            CompressionAlgorithm::Rle => match decompress_rle(self.compressed_data.as_slice()) {
                Ok(d) => d,
                Err(e) => {
                    return Err(e);
                },
            },
        };
        if data.len() != self.original_size {
            return Err(ZKMTDError::SerializationError { reason: "Size mismatch".to_owned() });
        }
        let checksum = poseidon_hash(data.as_slice(), DOMAIN_COMPRESSION_CHECKSUM.as_bytes());
        if !constant_time_eq_fixed(&checksum, &self.checksum) {
            return Err(ZKMTDError::SerializationError { reason: "Checksum mismatch: data is corrupted".to_owned() });
        }
        Ok(Proof { data, epoch: self.epoch, version: self.version })
    }

    /// `original_size - compressed size`, floored at 0.
    pub fn bytes_saved(&self) -> (r: usize)
        ensures
            r == if self.original_size >= self.compressed_data@.len() {
                self.original_size - self.compressed_data@.len()
            } else {
                0
            },
    {
        self.original_size.saturating_sub(self.compressed_data.len())
    }
}

/// Round trip: what `compress` produces from `data` decompresses to `data`,
/// whatever the algorithm.
pub proof fn lemma_compression_round_trip(c: CompressedProof, data: Seq<u8>)
    requires
        c.original_size == data.len(),
        c.checksum@ == compression_checksum(data),
        payload_decoded(c.algorithm, c.compressed_data@) == Some(data),
    ensures
        c.restores(),
        payload_decoded(c.algorithm, c.compressed_data@)->Some_0 == data,
{
}

/// Tamper detection on the checksum: changing the recorded checksum of a
/// restorable record makes decompression fail.
pub proof fn lemma_checksum_tamper(c: CompressedProof, tampered: CompressedProof)
    requires
        c.restores(),
        tampered.compressed_data@ == c.compressed_data@,
        tampered.algorithm == c.algorithm,
        tampered.original_size == c.original_size,
        tampered.checksum@ != c.checksum@,
    ensures
        !tampered.restores(),
{
}

/// No coding below 100 bytes, run-length coding from 100 bytes on.
pub fn select_compression_algorithm(data_size: usize, target_chain: &str) -> (r: CompressionAlgorithm)
    ensures
        r == if data_size < 100 {
            CompressionAlgorithm::Uncompressed
        } else {
            CompressionAlgorithm::Rle
        },
{
    if data_size < 100 {
        CompressionAlgorithm::Uncompressed
    } else {
        CompressionAlgorithm::Rle
    }
}

} // verus!
