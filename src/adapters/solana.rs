//! The Solana transport envelope: `version ∥ epoch_le8 ∥ len_le4 ∥ data`,
//! and compute-unit budgeting.

use vstd::prelude::*;
use crate::adapters::SolanaChainAdapter;
use crate::common::errors::{Result, ZKMTDError};
use crate::common::types::Proof;
use crate::utils::constants::{SOLANA_BASE_CU, SOLANA_HASH_CU, SOLANA_PER_BYTE_CU};
use crate::utils::hash::{
    le4, le8, le_prefix_value, le_value, min_int, poseidon_digest, poseidon_hash, push_bytes,
    push_u32_le, push_u64_le,
};

verus! {

/// Largest proof body accepted by the decoder.
pub const MAX_TRANSPORT_DATA_LEN: usize = 100000;

/// Largest proof body the encoder lets through (larger ones may carry witness data).
pub const MAX_SENSITIVE_CHECK_LEN: usize = 10000;

/// Size of the envelope header.
pub const TRANSPORT_HEADER_LEN: usize = 13;

/// Limits of the adapter.
#[derive(Debug, Clone, Copy)]
pub struct SolanaOptimizationConfig {
    pub max_compute_units: u32,
    pub enable_compression: bool,
    pub max_tx_size: usize,
}

impl Default for SolanaOptimizationConfig {
    fn default() -> (r: Self)
        ensures
            r.max_compute_units == 200000,
            r.enable_compression,
            r.max_tx_size == 1000,
    {
        SolanaOptimizationConfig { max_compute_units: 200000, enable_compression: true, max_tx_size: 1000 }
    }
}

/// A proof commitment as recorded on chain.
#[derive(Debug, Clone)]
pub struct OnChainProofData {
    pub proof_commitment: [u8; 32],
    pub epoch: u64,
    pub verified: bool,
    pub domain: [u8; 16],
}

/// The envelope bytes of a proof.
pub open spec fn transport_bytes(p: Proof) -> Seq<u8> {
    seq![p.version] + le8(p.epoch) + le4(p.data@.len() as u32) + p.data@
}

/// `⌈n / 32⌉`.
pub open spec fn hash_blocks(n: nat) -> nat {
    (n + 31) / 32
}

/// The compute-unit estimate: `(5000 + 10·size + 100·⌈size/32⌉) · 11 / 10`.
pub open spec fn cu_estimate(size: nat) -> nat {
    ((SOLANA_BASE_CU as nat + size * (SOLANA_PER_BYTE_CU as nat) + hash_blocks(size) * (SOLANA_HASH_CU as nat)) * 11 / 10) as nat
}

fn cu_total(proof_size: usize) -> (r: u128)
    ensures
        r == cu_estimate(proof_size as nat),
{
    let size = proof_size as u64 as u128;
    let blocks = (size + 31) / 32;
    assert(size * 10 <= 0x1_0000_0000_0000_0000 * 10) by (nonlinear_arith)
        requires
            size < 0x1_0000_0000_0000_0000,
    ;
    assert(blocks * 100 <= 0x1_0000_0000_0000_0000 * 100) by (nonlinear_arith)
        requires
            blocks < 0x1_0000_0000_0000_0000,
    ;
    let total = SOLANA_BASE_CU as u128 + size * (SOLANA_PER_BYTE_CU as u128) + blocks * (
    SOLANA_HASH_CU as u128);
    total * 11 / 10
}

/// Transport round trip: the envelope of a version-1 proof with a body of at
/// most 100,000 bytes passes every check of `decode_proof` and reads back to
/// the same epoch and body.
pub proof fn lemma_transport_round_trip(p: Proof)
    requires
        p.version == 1,
        p.data@.len() <= MAX_TRANSPORT_DATA_LEN,
    ensures
        transport_bytes(p).len() >= TRANSPORT_HEADER_LEN,
        transport_bytes(p)[0] == 1,
        le_value(transport_bytes(p).subrange(9, 13)) == p.data@.len(),
        transport_bytes(p).len() == TRANSPORT_HEADER_LEN + p.data@.len(),
        le_value(transport_bytes(p).subrange(1, 9)) == p.epoch,
        transport_bytes(p).subrange(13, 13 + p.data@.len() as int) == p.data@,
{
    let b = transport_bytes(p);
    let n = p.data@.len();
    crate::utils::hash::lemma_le8_round_trip(p.epoch);
    crate::utils::hash::lemma_le4_round_trip(n as u32);
    assert(b.subrange(1, 9) =~= le8(p.epoch));
    assert(b.subrange(9, 13) =~= le4(n as u32));
    assert(b.subrange(13, 13 + n as int) =~= p.data@);
}

/// Serializes proofs for Solana transactions.
#[derive(Debug, Clone, Copy)]
pub struct SolanaAdapter {
    pub config: SolanaOptimizationConfig,
}

impl SolanaAdapter {
    pub fn new() -> (r: Self)
        ensures
            r.config.max_compute_units == 200000,
            r.config.enable_compression,
            r.config.max_tx_size == 1000,
    {
        SolanaAdapter { config: SolanaOptimizationConfig::default() }
    }

    pub fn with_config(config: SolanaOptimizationConfig) -> (r: Self)
        ensures
            r.config == config,
    {
        SolanaAdapter { config }
    }

    /// The envelope; fails when the body passes 10,000 bytes or the envelope
    /// passes the configured transaction size.
    pub fn encode_proof(&self, proof: &Proof) -> (r: Result<Vec<u8>>)
        ensures
            (proof.data@.len() <= MAX_SENSITIVE_CHECK_LEN && TRANSPORT_HEADER_LEN + proof.data@.len()
                <= self.config.max_tx_size) <==> r is Ok,
            r is Err ==> r->Err_0 is SerializationError,
            r is Ok ==> r->Ok_0@ == transport_bytes(*proof),
    {
        if proof.data.len() > MAX_SENSITIVE_CHECK_LEN {
            return Err(ZKMTDError::SerializationError { reason: "Proof size is abnormally large".to_owned() });
        }
        let estimated_size = TRANSPORT_HEADER_LEN + proof.data.len();
        if estimated_size > self.config.max_tx_size {
            return Err(ZKMTDError::SerializationError { reason: "Proof exceeds Solana transaction size limit".to_owned() });
        }
        let mut out: Vec<u8> = Vec::new();
        out.push(proof.version);
        push_u64_le(&mut out, proof.epoch);
        push_u32_le(&mut out, proof.data.len() as u32);
        push_bytes(&mut out, proof.data.as_slice());
        assert(out@ =~= transport_bytes(*proof));
        Ok(out)
    }

    /// Reads an envelope: at least 13 bytes, version 1, a body of at most
    /// 100,000 bytes that is all present; bytes after the body are ignored.
    pub fn decode_proof(&self, data: &[u8]) -> (r: Result<Proof>)
        ensures
            r is Ok <==> {
                &&& data@.len() >= TRANSPORT_HEADER_LEN
                &&& data@[0] == 1
                &&& le_value(data@.subrange(9, 13)) <= MAX_TRANSPORT_DATA_LEN
                &&& data@.len() >= TRANSPORT_HEADER_LEN + le_value(data@.subrange(9, 13))
            },
            r is Err ==> r->Err_0 is SerializationError,
            r is Ok ==> {
                &&& r->Ok_0.version == 1
                &&& r->Ok_0.epoch as nat == le_value(data@.subrange(1, 9))
                &&& r->Ok_0.data@ == data@.subrange(13, 13 + le_value(data@.subrange(9, 13)) as int)
            },
    {
        if data.len() < TRANSPORT_HEADER_LEN {
            return Err(ZKMTDError::SerializationError { reason: "On-chain data is too short".to_owned() });
        }
        let version = data[0];
        if version != 1 {
            return Err(ZKMTDError::SerializationError { reason: "Unsupported protocol version".to_owned() });
        }
        let epoch = le_prefix_value(data, 1, 9);
        let length = le_prefix_value(data, 9, 13);
        assert(data@.subrange(1, 9).take(min_int(8, 8)) =~= data@.subrange(1, 9));
        assert(data@.subrange(9, 13).take(min_int(8, 4)) =~= data@.subrange(9, 13));
        if length > MAX_TRANSPORT_DATA_LEN as u64 {
            return Err(ZKMTDError::SerializationError { reason: "Proof length is abnormally large".to_owned() });
        }
        let length = length as usize;
        if data.len() - TRANSPORT_HEADER_LEN < length {
            return Err(ZKMTDError::SerializationError { reason: "Data length mismatch".to_owned() });
        }
        let mut body: Vec<u8> = Vec::new();
        let mut i: usize = 0;
        while i < length
            invariant
                13 + length <= data@.len(),
                length <= MAX_TRANSPORT_DATA_LEN,
                i <= length,
                body@ == data@.subrange(13, 13 + i),
            decreases length - i,
        {
            body.push(data[13 + i]);
            assert(body@ =~= data@.subrange(13, 13 + i + 1));
            i = i + 1;
        }
        Ok(Proof { data: body, epoch, version })
    }

    /// The compute-unit estimate for a proof of `proof_size` bytes.
    pub fn compute_units_for(&self, proof_size: usize) -> (r: u32)
        requires
            cu_estimate(proof_size as nat) <= u32::MAX,
        ensures
            r == cu_estimate(proof_size as nat),
    {
        let total = cu_total(proof_size);
        total as u32
    }

    /// The estimate, if it is within the configured limit.
    pub fn check_cu_limit(&self, proof_size: usize) -> (r: Result<u32>)
        ensures
            cu_estimate(proof_size as nat) <= self.config.max_compute_units <==> r is Ok,
            r is Ok ==> r->Ok_0 == cu_estimate(proof_size as nat),
            r is Err ==> r->Err_0 is ResourceLimitExceeded,
    {
        let total = cu_total(proof_size);
        let est = total;
        if est > self.config.max_compute_units as u128 {
            return Err(ZKMTDError::ResourceLimitExceeded { reason: "Estimated CU usage exceeds limit".to_owned() });
        }
        Ok(est as u32)
    }

    /// The commitment `H(data, domain)` with the first 16 bytes of the domain
    /// (zero-padded), not yet verified.
    pub fn to_onchain_data(&self, proof: &Proof, domain: &[u8]) -> (r: Result<OnChainProofData>)
        ensures
            r is Ok,
            r->Ok_0.proof_commitment@ == poseidon_digest(proof.data@, domain@),
            r->Ok_0.epoch == proof.epoch,
            !r->Ok_0.verified,
            forall|i: int| 0 <= i < 16 ==> #[trigger] r->Ok_0.domain@[i] == if i < domain@.len() {
                domain@[i]
            } else {
                0u8
            },
    {
        let proof_commitment = poseidon_hash(proof.data.as_slice(), domain);
        let mut tag = [0u8; 16];
        let mut i: usize = 0;
        while i < 16
            invariant
                i <= 16,
                tag@.len() == 16,
                forall|k: int| i <= k < 16 ==> tag@[k] == 0u8,
                forall|k: int| 0 <= k < i ==> #[trigger] tag@[k] == if k < domain@.len() {
                    domain@[k]
                } else {
                    0u8
                },
            decreases 16 - i,
        {
            if i < domain.len() {
                tag[i] = domain[i];
            }
            i = i + 1;
        }
        Ok(OnChainProofData { proof_commitment, epoch: proof.epoch, verified: false, domain: tag })
    }
}

impl Default for SolanaAdapter {
    fn default() -> (r: Self)
        ensures
            r.config.max_compute_units == 200000,
            r.config.max_tx_size == 1000,
    {
        Self::new()
    }
}

impl SolanaChainAdapter for SolanaAdapter {
    fn name(&self) -> &'static str {
        "Solana"
    }

    fn serialize_proof(&self, proof: &Proof) -> Result<Vec<u8>> {
        self.encode_proof(proof)
    }

    fn deserialize_proof(&self, data: &[u8]) -> Result<Proof> {
        self.decode_proof(data)
    }

    fn estimate_compute_units(&self, proof_size: usize) -> u32 {
        let total = cu_total(proof_size);
        let est = total;
        if est > u32::MAX as u128 {
            u32::MAX
        } else {
            est as u32
        }
    }
}

} // verus!
