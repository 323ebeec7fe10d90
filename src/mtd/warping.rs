//! Per-epoch parameters derived from a long-lived secret seed.

use vstd::prelude::*;
use vstd::string::StringSliceAdditionalSpecFns;
use crate::common::errors::{Result, ZKMTDError};
use crate::mtd::epoch::Epoch;
use crate::utils::constants::{
    DOMAIN_MTD_DOMAIN_SEP, DOMAIN_MTD_FRI_SEED, DOMAIN_MTD_PARAMS, DOMAIN_MTD_SALT, SYSTEM_SALT,
};
use crate::utils::hash::{
    constant_time_eq_fixed, derive_mtd_params, le8, le_value, mtd_base_input, poseidon_digest,
    poseidon_hash, push_bytes, HashDigest,
};

verus! {

/// Label appended to the base value before deriving the domain separator.
pub const LABEL_DOMAIN: &'static str = "DOMAIN";

/// Label appended to the base value before deriving the salt.
pub const LABEL_SALT: &'static str = "SALT";

/// Label appended to the base value before deriving the FRI seed.
pub const LABEL_FRI: &'static str = "FRI";

/// Serialized size: epoch (8) and three 32-byte fields.
pub const WARPING_PARAMS_SIZE: usize = 104;

/// `base = H(seed ∥ epoch_le8 ∥ SYSTEM_SALT, DOMAIN_MTD_PARAMS)`.
pub open spec fn mtd_base(seed: Seq<u8>, epoch: u64) -> Seq<u8> {
    poseidon_digest(
        mtd_base_input(seed, epoch, SYSTEM_SALT.spec_bytes()),
        DOMAIN_MTD_PARAMS.spec_bytes(),
    )
}

/// `H(base ∥ "DOMAIN", DOMAIN_MTD_DOMAIN_SEP)`.
pub open spec fn derived_domain_separator(seed: Seq<u8>, epoch: u64) -> Seq<u8> {
    poseidon_digest(
        mtd_base(seed, epoch) + LABEL_DOMAIN.spec_bytes(),
        DOMAIN_MTD_DOMAIN_SEP.spec_bytes(),
    )
}

/// `H(base ∥ "SALT", DOMAIN_MTD_SALT)`.
pub open spec fn derived_salt(seed: Seq<u8>, epoch: u64) -> Seq<u8> {
    poseidon_digest(mtd_base(seed, epoch) + LABEL_SALT.spec_bytes(), DOMAIN_MTD_SALT.spec_bytes())
}

/// `H(base ∥ "FRI", DOMAIN_MTD_FRI_SEED)`.
pub open spec fn derived_fri_seed(seed: Seq<u8>, epoch: u64) -> Seq<u8> {
    poseidon_digest(
        mtd_base(seed, epoch) + LABEL_FRI.spec_bytes(),
        DOMAIN_MTD_FRI_SEED.spec_bytes(),
    )
}

/// The parameters of one epoch.
#[derive(Debug, Clone, Copy, PartialEq, Eq)]
pub struct WarpingParams {
    pub epoch: Epoch,
    pub domain_separator: HashDigest,
    pub salt: HashDigest,
    pub fri_seed: HashDigest,
}

impl WarpingParams {
    /// Whether these are exactly the parameters that `seed` yields for `epoch`.
    pub open spec fn is_derived(&self, seed: Seq<u8>, epoch: u64) -> bool {
        &&& self.epoch@ == epoch
        &&& self.domain_separator@ == derived_domain_separator(seed, epoch)
        &&& self.salt@ == derived_salt(seed, epoch)
        &&& self.fri_seed@ == derived_fri_seed(seed, epoch)
    }

    /// Field-wise equality of two parameter sets.
    pub open spec fn same(&self, other: &WarpingParams) -> bool {
        &&& self.epoch@ == other.epoch@
        &&& self.domain_separator@ == other.domain_separator@
        &&& self.salt@ == other.salt@
        &&& self.fri_seed@ == other.fri_seed@
    }

    /// The 104-byte serialization: epoch, domain separator, salt, FRI seed.
    pub open spec fn spec_bytes(&self) -> Seq<u8> {
        le8(self.epoch@) + self.domain_separator@ + self.salt@ + self.fri_seed@
    }

    /// Derives the parameters of `epoch` from `seed`; fails on an empty seed.
    pub fn generate(seed: &[u8], epoch: Epoch) -> (r: Result<Self>)
        ensures
            seed@.len() == 0 <==> r is Err,
            r is Err ==> r->Err_0 is MTDError,
            r is Ok ==> r->Ok_0.is_derived(seed@, epoch@),
    {
        if seed.len() == 0 {
            return Err(ZKMTDError::MTDError { reason: "Seed is empty".to_owned() });
        }
        let base = match derive_mtd_params(seed, epoch.value(), SYSTEM_SALT.as_bytes()) {
            Ok(b) => b,
            Err(e) => {
                return Err(e);
            },
        };
        let mut data: Vec<u8> = Vec::new();
        push_bytes(&mut data, base.as_slice());
        push_bytes(&mut data, LABEL_DOMAIN.as_bytes());
        let domain_separator = poseidon_hash(data.as_slice(), DOMAIN_MTD_DOMAIN_SEP.as_bytes());

        let mut data: Vec<u8> = Vec::new();
        push_bytes(&mut data, base.as_slice());
        push_bytes(&mut data, LABEL_SALT.as_bytes());
        let salt = poseidon_hash(data.as_slice(), DOMAIN_MTD_SALT.as_bytes());

        let mut data: Vec<u8> = Vec::new();
        push_bytes(&mut data, base.as_slice());
        push_bytes(&mut data, LABEL_FRI.as_bytes());
        let fri_seed = poseidon_hash(data.as_slice(), DOMAIN_MTD_FRI_SEED.as_bytes());

        Ok(WarpingParams { epoch, domain_separator, salt, fri_seed })
    }

    /// The parameters of the following epoch; fails at the last epoch or on an empty seed.
    pub fn next(&self, seed: &[u8]) -> (r: Result<Self>)
        ensures
            r is Ok <==> (self.epoch@ < crate::utils::constants::MAX_EPOCH && seed@.len() > 0),
            r is Ok ==> r->Ok_0.is_derived(seed@, (self.epoch@ + 1) as u64),
    {
        let next_epoch = match self.epoch.next() {
            Ok(e) => e,
            Err(e) => {
                return Err(e);
            },
        };
        Self::generate(seed, next_epoch)
    }

    /// The 104-byte little-endian serialization.
    pub fn to_bytes(&self) -> (r: Vec<u8>)
        ensures
            r@ == self.spec_bytes(),
            r@.len() == WARPING_PARAMS_SIZE,
    {
        let mut bytes: Vec<u8> = Vec::with_capacity(WARPING_PARAMS_SIZE);
        let epoch_bytes = self.epoch.to_bytes();
        push_bytes(&mut bytes, epoch_bytes.as_slice());
        push_bytes(&mut bytes, self.domain_separator.as_slice());
        push_bytes(&mut bytes, self.salt.as_slice());
        push_bytes(&mut bytes, self.fri_seed.as_slice());
        proof {
            crate::utils::hash::lemma_le_bytes_len(self.epoch@ as nat, 8);
        }
        bytes
    }

    /// Reads the 104-byte serialization; fails on any other length.
    pub fn from_bytes(bytes: &[u8]) -> (r: Result<Self>)
        ensures
            bytes@.len() == WARPING_PARAMS_SIZE <==> r is Ok,
            r is Err ==> r->Err_0 is SerializationError,
            r is Ok ==> {
                &&& r->Ok_0.epoch@ as nat == le_value(bytes@.subrange(0, 8))
                &&& r->Ok_0.domain_separator@ == bytes@.subrange(8, 40)
                &&& r->Ok_0.salt@ == bytes@.subrange(40, 72)
                &&& r->Ok_0.fri_seed@ == bytes@.subrange(72, 104)
            },
    {
        if bytes.len() != WARPING_PARAMS_SIZE {
            return Err(
                ZKMTDError::SerializationError {
                    reason: "Invalid byte length (expected: 104)".to_owned(),
                },
            );
        }
        let mut epoch_bytes = [0u8; 8];
        copy_into(&mut epoch_bytes, bytes, 0);
        let epoch = Epoch::from_bytes(epoch_bytes);
        let mut domain_separator = [0u8; 32];
        copy_into(&mut domain_separator, bytes, 8);
        let mut salt = [0u8; 32];
        copy_into(&mut salt, bytes, 40);
        let mut fri_seed = [0u8; 32];
        copy_into(&mut fri_seed, bytes, 72);
        Ok(WarpingParams { epoch, domain_separator, salt, fri_seed })
    }

    /// Whether these parameters are the ones `seed` yields for their epoch;
    /// fails on an empty seed.
    pub fn verify(&self, seed: &[u8]) -> (r: Result<bool>)
        ensures
            seed@.len() == 0 <==> r is Err,
            r is Ok ==> (r->Ok_0 <==> self.is_derived(seed@, self.epoch@)),
    {
        let expected = match Self::generate(seed, self.epoch) {
            Ok(p) => p,
            Err(e) => {
                return Err(e);
            },
        };
        Ok(self.same_as(&expected))
    }

    /// Field-wise comparison; the byte fields are compared in constant time.
    pub fn same_as(&self, other: &WarpingParams) -> (r: bool)
        ensures
            r == self.same(other),
    {
        let a = constant_time_eq_fixed(&self.domain_separator, &other.domain_separator);
        let b = constant_time_eq_fixed(&self.salt, &other.salt);
        let c = constant_time_eq_fixed(&self.fri_seed, &other.fri_seed);
        self.epoch.value() == other.epoch.value() && a && b && c
    }
}

/// Serialization round trip: the 104 bytes of `p` read back, as `from_bytes`
/// reads them, to exactly `p`'s epoch and fields.
pub proof fn lemma_warping_bytes_round_trip(p: WarpingParams)
    ensures
        p.spec_bytes().len() == WARPING_PARAMS_SIZE,
        le_value(p.spec_bytes().subrange(0, 8)) == p.epoch@,
        p.spec_bytes().subrange(8, 40) == p.domain_separator@,
        p.spec_bytes().subrange(40, 72) == p.salt@,
        p.spec_bytes().subrange(72, 104) == p.fri_seed@,
{
    crate::utils::hash::lemma_le8_round_trip(p.epoch@);
    let b = p.spec_bytes();
    assert(b.subrange(0, 8) =~= le8(p.epoch@));
    assert(b.subrange(8, 40) =~= p.domain_separator@);
    assert(b.subrange(40, 72) =~= p.salt@);
    assert(b.subrange(72, 104) =~= p.fri_seed@);
}

/// Copies `src[offset..offset + N]` into `dst`.
pub fn copy_into<const N: usize>(dst: &mut [u8; N], src: &[u8], offset: usize)
    requires
        offset + N <= src@.len(),
    ensures
        final(dst)@ == src@.subrange(offset as int, offset + N),
{
    let src_len = src.len();
    let mut i: usize = 0;
    while i < N
        invariant
            i <= N,
            src_len == src@.len(),
            offset + N <= src@.len(),
            dst@.len() == N,
            forall|k: int| 0 <= k < i ==> dst@[k] == src@[offset + k],
        decreases N - i,
    {
        dst[i] = src[offset + i];
        i = i + 1;
    }
    assert(dst@ =~= src@.subrange(offset as int, offset + N));
}

} // verus!
