//! The parameter manager: owns the seed, the current epoch's parameters and
//! a bounded FIFO cache of parameters of other epochs.

use vstd::prelude::*;
use crate::common::errors::{Result, ZKMTDError};
use crate::common::traits::EntropySource;
use crate::mtd::epoch::Epoch;
use crate::mtd::warping::WarpingParams;
use crate::utils::constants::{
    EPOCH_DURATION_SECS, MAX_EPOCH, MTD_PARAM_CACHE_SIZE, TIMESTAMP_TOLERANCE_SECS,
};

verus! {

/// `cache` with `p` appended, the oldest entry dropped first when it is full.
pub open spec fn cache_insert(cache: Seq<WarpingParams>, p: WarpingParams) -> Seq<WarpingParams> {
    if cache.len() >= MTD_PARAM_CACHE_SIZE {
        cache.drop_first().push(p)
    } else {
        cache.push(p)
    }
}

/// Whether the cache holds parameters of epoch `e`.
pub open spec fn cache_has(cache: Seq<WarpingParams>, e: u64) -> bool {
    exists|i: int| 0 <= i < cache.len() && (#[trigger] cache[i]).epoch@ == e
}

/// Size and capacity of the parameter cache.
#[derive(Debug, Clone, Copy)]
pub struct CacheStats {
    pub size: usize,
    pub capacity: usize,
}

/// Owner of the long-lived seed and of the per-epoch parameters.
#[derive(Debug)]
pub struct MTDManager {
    seed: Vec<u8>,
    current_epoch: Epoch,
    current_params: WarpingParams,
    cache: Vec<WarpingParams>,
    auto_advance: bool,
}

impl MTDManager {
    pub closed spec fn spec_seed(&self) -> Seq<u8> {
        self.seed@
    }

    pub closed spec fn spec_epoch(&self) -> u64 {
        self.current_epoch@
    }

    pub closed spec fn spec_params(&self) -> WarpingParams {
        self.current_params
    }

    pub closed spec fn spec_cache(&self) -> Seq<WarpingParams> {
        self.cache@
    }

    pub closed spec fn spec_auto_advance(&self) -> bool {
        self.auto_advance
    }

    /// The seed is non-empty, the current parameters are those of the current
    /// epoch, and the cache holds at most 16 entries, each derived from the seed.
    pub closed spec fn wf(&self) -> bool {
        &&& self.seed@.len() > 0
        &&& self.current_params.is_derived(self.seed@, self.current_epoch@)
        &&& self.cache@.len() <= MTD_PARAM_CACHE_SIZE
        &&& forall|i: int|
            0 <= i < self.cache@.len() ==> (#[trigger] self.cache@[i]).is_derived(
                self.seed@,
                self.cache@[i].epoch@,
            )
    }

    fn copy_seed(seed: &[u8]) -> (r: Vec<u8>)
        ensures
            r@ == seed@,
    {
        let mut v: Vec<u8> = Vec::new();
        crate::utils::hash::push_bytes(&mut v, seed);
        v
    }

    /// A manager at the wall clock's epoch, with automatic advance on. Fails on
    /// an empty seed, on an entropy source that is not cryptographically secure,
    /// or when the clock cannot be read.
    pub fn new<E: EntropySource>(seed: &[u8], entropy: &mut E) -> (r: Result<Self>)
        ensures
            seed@.len() == 0 <==> (r is Err && r->Err_0 is MTDError),
            seed@.len() > 0 && !old(entropy).spec_secure() ==> r is Err && r->Err_0 is EntropyError,
            r is Err ==> (r->Err_0 is MTDError || r->Err_0 is EntropyError || r->Err_0 is InternalError),
            r is Ok ==> {
                &&& r->Ok_0.wf()
                &&& r->Ok_0.spec_seed() == seed@
                &&& r->Ok_0.spec_auto_advance()
                &&& r->Ok_0.spec_cache().len() == 0
            },
    {
        if seed.len() == 0 {
            return Err(ZKMTDError::MTDError { reason: "Seed is empty".to_owned() });
        }
        if !entropy.is_cryptographically_secure() {
            return Err(
                ZKMTDError::EntropyError {
                    reason: "Entropy source is not cryptographically secure".to_owned(),
                },
            );
        }
        let current_epoch = match Epoch::current() {
            Ok(e) => e,
            Err(e) => {
                return Err(e);
            },
        };
        match Self::with_epoch(seed, current_epoch) {
            Ok(mut m) => {
                m.auto_advance = true;
                Ok(m)
            },
            Err(e) => Err(e),
        }
    }

    /// A manager fixed at `epoch`, with automatic advance off; fails on an empty seed.
    pub fn with_epoch(seed: &[u8], epoch: Epoch) -> (r: Result<Self>)
        ensures
            seed@.len() == 0 <==> r is Err,
            r is Err ==> r->Err_0 is MTDError,
            r is Ok ==> {
                &&& r->Ok_0.wf()
                &&& r->Ok_0.spec_seed() == seed@
                &&& r->Ok_0.spec_epoch() == epoch@
                &&& !r->Ok_0.spec_auto_advance()
                &&& r->Ok_0.spec_cache().len() == 0
            },
    {
        if seed.len() == 0 {
            return Err(ZKMTDError::MTDError { reason: "Seed is empty".to_owned() });
        }
        let current_params = match WarpingParams::generate(seed, epoch) {
            Ok(p) => p,
            Err(e) => {
                return Err(e);
            },
        };
        Ok(
            MTDManager {
                seed: Self::copy_seed(seed),
                current_epoch: epoch,
                current_params,
                cache: Vec::new(),
                auto_advance: false,
            },
        )
    }

    pub fn current_epoch(&self) -> (r: Epoch)
        ensures
            r@ == self.spec_epoch(),
    {
        self.current_epoch
    }

    pub fn current_params(&self) -> (r: &WarpingParams)
        ensures
            *r == self.spec_params(),
            self.wf() ==> r.is_derived(self.spec_seed(), self.spec_epoch()),
    {
        &self.current_params
    }

    fn cache_push(&mut self, p: WarpingParams)
        requires
            old(self).wf(),
            p.is_derived(old(self).seed@, p.epoch@),
        ensures
            final(self).wf(),
            final(self).seed@ == old(self).seed@,
            final(self).current_epoch == old(self).current_epoch,
            final(self).current_params == old(self).current_params,
            final(self).auto_advance == old(self).auto_advance,
            final(self).cache@ == cache_insert(old(self).cache@, p),
    {
        if self.cache.len() >= MTD_PARAM_CACHE_SIZE {
            self.cache.remove(0);
        }
        self.cache.push(p);
        assert(self.cache@ =~= cache_insert(old(self).cache@, p));
    }

    /// The parameters of `epoch`: the current ones, a cached entry, or freshly
    /// derived ones, which are then cached.
    pub fn get_params(&mut self, epoch: Epoch) -> (r: Result<WarpingParams>)
        requires
            old(self).wf(),
        ensures
            final(self).wf(),
            final(self).spec_seed() == old(self).spec_seed(),
            final(self).spec_epoch() == old(self).spec_epoch(),
            final(self).spec_params() == old(self).spec_params(),
            final(self).spec_auto_advance() == old(self).spec_auto_advance(),
            final(self).spec_cache().len() <= MTD_PARAM_CACHE_SIZE,
            r is Ok,
            r->Ok_0.is_derived(old(self).spec_seed(), epoch@),
            (epoch@ == old(self).spec_epoch() || cache_has(old(self).spec_cache(), epoch@))
                ==> final(self).spec_cache() == old(self).spec_cache(),
            !(epoch@ == old(self).spec_epoch() || cache_has(old(self).spec_cache(), epoch@))
                ==> final(self).spec_cache() == cache_insert(old(self).spec_cache(), r->Ok_0),
    {
        if epoch.value() == self.current_epoch.value() {
            return Ok(self.current_params);
        }
        let n = self.cache.len();
        let mut i: usize = 0;
        while i < n
            invariant
                *self == *old(self),
                self.wf(),
                n == self.cache@.len(),
                i <= n,
                forall|k: int| 0 <= k < i ==> (#[trigger] self.cache@[k]).epoch@ != epoch@,
            decreases n - i,
        {
            if self.cache[i].epoch.value() == epoch.value() {
                let p = self.cache[i];
                assert(self.cache@[i as int].is_derived(self.seed@, self.cache@[i as int].epoch@));
                return Ok(p);
            }
            i = i + 1;
        }
        let params = match WarpingParams::generate(self.seed.as_slice(), epoch) {
            Ok(p) => p,
            Err(e) => {
                return Err(e);
            },
        };
        self.cache_push(params);
        Ok(params)
    }

    /// Moves to the next epoch: the current parameters go to the cache and the
    /// next epoch's are derived. Fails, changing nothing, at the last epoch.
    pub fn advance(&mut self) -> (r: Result<WarpingParams>)
        requires
            old(self).wf(),
        ensures
            final(self).wf(),
            final(self).spec_seed() == old(self).spec_seed(),
            final(self).spec_auto_advance() == old(self).spec_auto_advance(),
            final(self).spec_cache().len() <= MTD_PARAM_CACHE_SIZE,
            old(self).spec_epoch() < MAX_EPOCH <==> r is Ok,
            r is Ok ==> {
                &&& final(self).spec_epoch() == old(self).spec_epoch() + 1
                &&& r->Ok_0 == final(self).spec_params()
                &&& final(self).spec_cache() == cache_insert(
                    old(self).spec_cache(),
                    old(self).spec_params(),
                )
            },
            r is Err ==> r->Err_0 is InvalidEpoch && *final(self) == *old(self),
    {
        let next_epoch = match self.current_epoch.next() {
            Ok(e) => e,
            Err(e) => {
                return Err(e);
            },
        };
        let params = match WarpingParams::generate(self.seed.as_slice(), next_epoch) {
            Ok(p) => p,
            Err(e) => {
                return Err(e);
            },
        };
        let old_params = self.current_params;
        self.cache_push(old_params);
        self.current_epoch = next_epoch;
        self.current_params = params;
        Ok(params)
    }

    /// Follows the wall clock when automatic advance is on: see `sync_to`.
    /// Returns `Ok(false)` without reading the clock when it is off.
    pub fn sync(&mut self) -> (r: Result<bool>)
        requires
            old(self).wf(),
        ensures
            final(self).wf(),
            final(self).spec_seed() == old(self).spec_seed(),
            !old(self).spec_auto_advance() ==> r == Ok::<bool, ZKMTDError>(false) && *final(self)
                == *old(self),
            final(self).spec_epoch() >= old(self).spec_epoch(),
            r == Ok::<bool, ZKMTDError>(true) ==> final(self).spec_epoch() > old(self).spec_epoch()
                && final(self).spec_cache().len() == 0,
            r == Ok::<bool, ZKMTDError>(false) ==> *final(self) == *old(self),
            r is Err ==> *final(self) == *old(self),
    {
        if !self.auto_advance {
            return Ok(false);
        }
        let system_epoch = match Epoch::current() {
            Ok(e) => e,
            Err(e) => {
                return Err(e);
            },
        };
        self.sync_to(system_epoch)
    }

    /// Reconciles the manager with the epoch that the clock shows: jumps
    /// forward (clearing the cache) when the clock is ahead, fails when it is
    /// behind, and does nothing when they agree.
    pub fn sync_to(&mut self, system_epoch: Epoch) -> (r: Result<bool>)
        requires
            old(self).wf(),
        ensures
            final(self).wf(),
            final(self).spec_seed() == old(self).spec_seed(),
            final(self).spec_auto_advance() == old(self).spec_auto_advance(),
            system_epoch@ > old(self).spec_epoch() ==> {
                &&& r == Ok::<bool, ZKMTDError>(true)
                &&& final(self).spec_epoch() == system_epoch@
                &&& final(self).spec_cache().len() == 0
            },
            system_epoch@ < old(self).spec_epoch() ==> r is Err && r->Err_0 is MTDError
                && *final(self) == *old(self),
            system_epoch@ == old(self).spec_epoch() ==> r == Ok::<bool, ZKMTDError>(false)
                && *final(self) == *old(self),
    {
        if system_epoch.value() > self.current_epoch.value() {
            let params = match WarpingParams::generate(self.seed.as_slice(), system_epoch) {
                Ok(p) => p,
                Err(e) => {
                    return Err(e);
                },
            };
            self.current_epoch = system_epoch;
            self.current_params = params;
            self.cache.clear();
            Ok(true)
        } else if system_epoch.value() < self.current_epoch.value() {
            Err(ZKMTDError::MTDError { reason: "System time moved to the past".to_owned() })
        } else {
            Ok(false)
        }
    }

    pub fn set_auto_advance(&mut self, enabled: bool)
        requires
            old(self).wf(),
        ensures
            final(self).wf(),
            final(self).spec_auto_advance() == enabled,
            final(self).spec_seed() == old(self).spec_seed(),
            final(self).spec_epoch() == old(self).spec_epoch(),
            final(self).spec_params() == old(self).spec_params(),
            final(self).spec_cache() == old(self).spec_cache(),
    {
        self.auto_advance = enabled;
    }

    /// Whether `t` lies in the current epoch's window widened by 300 s on each side.
    pub fn validate_timestamp(&self, timestamp_secs: u64) -> (r: bool)
        ensures
            r == (self.spec_epoch() * EPOCH_DURATION_SECS - TIMESTAMP_TOLERANCE_SECS
                <= timestamp_secs <= (self.spec_epoch() + 1) * EPOCH_DURATION_SECS - 1
                + TIMESTAMP_TOLERANCE_SECS),
    {
        let v = self.current_epoch.value() as u128;
        let start = v * (EPOCH_DURATION_SECS as u128);
        let lower: u128 = if start >= TIMESTAMP_TOLERANCE_SECS as u128 {
            start - TIMESTAMP_TOLERANCE_SECS as u128
        } else {
            0
        };
        let upper = (v + 1) * (EPOCH_DURATION_SECS as u128) - 1 + TIMESTAMP_TOLERANCE_SECS as u128;
        let t = timestamp_secs as u128;
        t >= lower && t <= upper
    }

    pub fn cache_stats(&self) -> (r: CacheStats)
        ensures
            r.size == self.spec_cache().len(),
            r.capacity == MTD_PARAM_CACHE_SIZE,
    {
        CacheStats { size: self.cache.len(), capacity: MTD_PARAM_CACHE_SIZE }
    }

    pub fn clear_cache(&mut self)
        requires
            old(self).wf(),
        ensures
            final(self).wf(),
            final(self).spec_cache().len() == 0,
            final(self).spec_seed() == old(self).spec_seed(),
            final(self).spec_epoch() == old(self).spec_epoch(),
            final(self).spec_params() == old(self).spec_params(),
            final(self).spec_auto_advance() == old(self).spec_auto_advance(),
    {
        self.cache.clear();
    }
}

} // verus!
