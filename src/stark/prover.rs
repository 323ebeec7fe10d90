//! A prover handle that pairs a validated configuration with a parameter
//! manager, and the verifier handle it lends out.

use vstd::prelude::*;
use crate::common::errors::Result;
use crate::common::traits::EntropySource;
use crate::mtd::epoch::Epoch;
use crate::mtd::manager::MTDManager;
use crate::mtd::warping::WarpingParams;
use crate::stark::config::StarkConfig;
use crate::utils::constants::{MAX_EPOCH, MIN_PUBLIC_INPUTS_SIZE, MIN_WITNESS_SIZE};

verus! {

/// A configuration and the manager of the per-epoch parameters.
#[derive(Debug)]
pub struct MTDProver {
    config: StarkConfig,
    mtd_manager: MTDManager,
}

impl MTDProver {
    pub closed spec fn wf(&self) -> bool {
        self.config.valid() && self.mtd_manager.wf()
    }

    pub closed spec fn spec_config(&self) -> StarkConfig {
        self.config
    }

    pub closed spec fn spec_manager(&self) -> MTDManager {
        self.mtd_manager
    }

    /// A prover at the wall clock's epoch. Fails on an invalid configuration,
    /// then as `MTDManager::new` does.
    pub fn new<E: EntropySource>(seed: &[u8], config: StarkConfig, entropy: &mut E) -> (r: Result<Self>)
        ensures
            !config.valid() <==> (r is Err && r->Err_0 is ConfigurationError),
            config.valid() && seed@.len() == 0 ==> r is Err && r->Err_0 is MTDError,
            config.valid() && seed@.len() > 0 && !old(entropy).spec_secure() ==> r is Err
                && r->Err_0 is EntropyError,
            r is Ok ==> r->Ok_0.wf() && r->Ok_0.spec_config() == config
                && r->Ok_0.spec_manager().spec_seed() == seed@,
    {
        match config.validate() {
            Ok(()) => {},
            Err(e) => {
                return Err(e);
            },
        }
        match MTDManager::new(seed, entropy) {
            Ok(m) => Ok(MTDProver { config, mtd_manager: m }),
            Err(e) => Err(e),
        }
    }

    /// A prover fixed at `epoch`. Fails on an invalid configuration or an empty seed.
    pub fn with_epoch(seed: &[u8], config: StarkConfig, epoch: Epoch) -> (r: Result<Self>)
        ensures
            (config.valid() && seed@.len() > 0) <==> r is Ok,
            !config.valid() ==> r->Err_0 is ConfigurationError,
            r is Ok ==> r->Ok_0.wf() && r->Ok_0.spec_config() == config
                && r->Ok_0.spec_manager().spec_seed() == seed@
                && r->Ok_0.spec_manager().spec_epoch() == epoch@,
    {
        match config.validate() {
            Ok(()) => {},
            Err(e) => {
                return Err(e);
            },
        }
        match MTDManager::with_epoch(seed, epoch) {
            Ok(m) => Ok(MTDProver { config, mtd_manager: m }),
            Err(e) => Err(e),
        }
    }

    pub fn current_epoch(&self) -> (r: Epoch)
        ensures
            r@ == self.spec_manager().spec_epoch(),
    {
        self.mtd_manager.current_epoch()
    }

    pub fn current_params(&self) -> (r: &WarpingParams)
        ensures
            *r == self.spec_manager().spec_params(),
    {
        self.mtd_manager.current_params()
    }

    /// The parameter manager, for direct control of the epoch.
    pub fn mtd_manager_mut(&mut self) -> (r: &mut MTDManager)
        ensures
            *r == old(self).spec_manager(),
            final(self).spec_manager() == *final(r),
            final(self).spec_config() == old(self).spec_config(),
    {
        &mut self.mtd_manager
    }

    /// Moves the manager to the next epoch; fails at the last one.
    pub fn advance_epoch(&mut self) -> (r: Result<()>)
        requires
            old(self).wf(),
        ensures
            final(self).wf(),
            final(self).spec_config() == old(self).spec_config(),
            old(self).spec_manager().spec_epoch() < MAX_EPOCH <==> r is Ok,
            r is Ok ==> final(self).spec_manager().spec_epoch() == old(self).spec_manager().spec_epoch() + 1,
    {
        match self.mtd_manager.advance() {
            Ok(_) => Ok(()),
            Err(e) => Err(e),
        }
    }

    /// Smallest witness this prover accepts.
    pub fn min_witness_size(&self) -> (r: usize)
        ensures
            r == MIN_WITNESS_SIZE,
    {
        MIN_WITNESS_SIZE
    }

    /// Smallest public-input vector this prover accepts.
    pub fn min_public_inputs_size(&self) -> (r: usize)
        ensures
            r == MIN_PUBLIC_INPUTS_SIZE,
    {
        MIN_PUBLIC_INPUTS_SIZE
    }

    /// A verifier anchored at the current epoch and parameters.
    pub fn get_verifier(&self) -> (r: MTDVerifier)
        ensures
            r.config == self.spec_config(),
            r.current_epoch@ == self.spec_manager().spec_epoch(),
            r.current_params == self.spec_manager().spec_params(),
    {
        MTDVerifier {
            config: self.config,
            current_epoch: self.mtd_manager.current_epoch(),
            current_params: *self.mtd_manager.current_params(),
        }
    }
}

/// A verifier handle: configuration, epoch and parameters.
#[derive(Debug, Clone)]
pub struct MTDVerifier {
    pub config: StarkConfig,
    pub current_epoch: Epoch,
    pub current_params: WarpingParams,
}

impl MTDVerifier {
    pub fn current_epoch(&self) -> (r: Epoch)
        ensures
            r == self.current_epoch,
    {
        self.current_epoch
    }

    pub fn current_params(&self) -> (r: &WarpingParams)
        ensures
            *r == self.current_params,
    {
        &self.current_params
    }
}

} // verus!
