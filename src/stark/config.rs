//! Proof-system configuration and its validation.

use vstd::prelude::*;
use crate::common::errors::{Result, ZKMTDError};
use crate::stark::air::{is_pow2, is_power_of_two};
use crate::utils::constants::{FRI_FOLDING_FACTOR, FRI_NUM_QUERIES};

verus! {

/// Whether `x` is one of 2, 4, 8, 16.
pub open spec fn is_small_factor(x: usize) -> bool {
    x == 2 || x == 4 || x == 8 || x == 16
}

/// `⌊log2 x⌋` for `x >= 1`.
pub open spec fn log2_floor(x: nat) -> nat
    decreases x,
{
    if x <= 1 {
        0
    } else {
        1 + log2_floor(x / 2)
    }
}

/// `2^n`.
pub open spec fn pow2_nat(n: nat) -> nat
    decreases n,
{
    if n == 0 {
        1
    } else {
        2 * pow2_nat((n - 1) as nat)
    }
}

/// Security and performance knobs of the proof system.
#[derive(Debug, Clone, Copy, PartialEq, Eq, Structural)]
pub struct StarkConfig {
    pub security_bits: usize,
    pub fri_folding_factor: usize,
    pub fri_queries: usize,
    pub grinding_bits: usize,
    pub blowup_factor: usize,
    pub trace_height: usize,
}

impl StarkConfig {
    /// Every knob within its allowed range.
    pub open spec fn valid(&self) -> bool {
        &&& 80 <= self.security_bits <= 256
        &&& is_small_factor(self.fri_folding_factor)
        &&& 20 <= self.fri_queries <= 500
        &&& self.grinding_bits <= 30
        &&& is_small_factor(self.blowup_factor)
        &&& is_pow2(self.trace_height as nat)
        &&& self.trace_height >= 64
    }

    /// 80-bit security, small parameters.
    pub fn for_testing() -> (r: Self)
        ensures
            r == (StarkConfig {
                security_bits: 80,
                fri_folding_factor: 2,
                fri_queries: 50,
                grinding_bits: 0,
                blowup_factor: 2,
                trace_height: 256,
            }),
    {
        StarkConfig {
            security_bits: 80,
            fri_folding_factor: 2,
            fri_queries: 50,
            grinding_bits: 0,
            blowup_factor: 2,
            trace_height: 256,
        }
    }

    /// 128-bit security.
    pub fn high_security() -> (r: Self)
        ensures
            r == (StarkConfig {
                security_bits: 128,
                fri_folding_factor: 8,
                fri_queries: 128,
                grinding_bits: 15,
                blowup_factor: 8,
                trace_height: 2048,
            }),
    {
        StarkConfig {
            security_bits: 128,
            fri_folding_factor: 8,
            fri_queries: 128,
            grinding_bits: 15,
            blowup_factor: 8,
            trace_height: 2048,
        }
    }

    /// A builder that starts from the default configuration.
    pub fn builder() -> (r: StarkConfigBuilder)
        ensures
            r.config == default_config(),
    {
        StarkConfigBuilder::new()
    }

    /// `Ok` exactly when every knob is within its allowed range.
    pub fn validate(&self) -> (r: Result<()>)
        ensures
            r is Ok <==> self.valid(),
            r is Err ==> r->Err_0 is ConfigurationError,
    {
        if self.security_bits < 80 {
            return Err(ZKMTDError::ConfigurationError { reason: "Security level too low".to_owned() });
        }
        if self.security_bits > 256 {
            return Err(ZKMTDError::ConfigurationError { reason: "Security level too high".to_owned() });
        }
        let f = self.fri_folding_factor;
        if !(f == 2 || f == 4 || f == 8 || f == 16) {
            return Err(ZKMTDError::ConfigurationError { reason: "Invalid FRI folding factor".to_owned() });
        }
        if self.fri_queries < 20 {
            return Err(ZKMTDError::ConfigurationError { reason: "Too few FRI queries".to_owned() });
        }
        if self.fri_queries > 500 {
            return Err(ZKMTDError::ConfigurationError { reason: "Too many FRI queries".to_owned() });
        }
        if self.grinding_bits > 30 {
            return Err(ZKMTDError::ConfigurationError { reason: "Too many grinding bits".to_owned() });
        }
        let b = self.blowup_factor;
        if !(b == 2 || b == 4 || b == 8 || b == 16) {
            return Err(ZKMTDError::ConfigurationError { reason: "Invalid blowup factor".to_owned() });
        }
        if !is_power_of_two(self.trace_height) {
            return Err(ZKMTDError::ConfigurationError { reason: "Trace height is not a power of 2".to_owned() });
        }
        if self.trace_height < 64 {
            return Err(ZKMTDError::ConfigurationError { reason: "Trace height too small".to_owned() });
        }
        Ok(())
    }

    /// `1000 + queries · 32 · log2(folding) + 32` bytes.
    pub fn estimated_proof_size(&self) -> (r: usize)
        requires
            self.fri_folding_factor >= 1,
            1032 + self.fri_queries * 32 * log2_floor(self.fri_folding_factor as nat) <= usize::MAX,
        ensures
            r == 1032 + self.fri_queries * 32 * log2_floor(self.fri_folding_factor as nat),
    {
        let mut log: usize = 0;
        let mut x: usize = self.fri_folding_factor;
        proof {
            reveal_with_fuel(pow2_nat, 65);
            lemma_log2_below(self.fri_folding_factor as nat, 64);
        }
        while x > 1
            invariant
                x >= 1,
                log2_floor(self.fri_folding_factor as nat) < 64,
                log + log2_floor(x as nat) == log2_floor(self.fri_folding_factor as nat),
            decreases x,
        {
            x = x / 2;
            log = log + 1;
        }
        let q = self.fri_queries as u128;
        let fri_size = (q * 32 * log as u128) as usize;
        assert(fri_size == self.fri_queries * 32 * log2_floor(self.fri_folding_factor as nat)) by (nonlinear_arith)
            requires
                fri_size == q * 32 * log,
                q == self.fri_queries,
                log == log2_floor(self.fri_folding_factor as nat),
        ;
        1000 + fri_size + 32
    }

    /// `50 + ⌊2^grinding / 1000⌋ + ⌊height / 10⌋` milliseconds.
    pub fn estimated_proving_time_ms(&self) -> (r: u64)
        requires
            self.grinding_bits < 64,
        ensures
            r == 50 + pow2_nat(self.grinding_bits as nat) / 1000 + self.trace_height / 10,
    {
        let mut p: u64 = 1;
        let mut i: usize = 0;
        proof {
            lemma_pow2_mono(0, 63);
        }
        while i < self.grinding_bits
            invariant
                i <= self.grinding_bits,
                self.grinding_bits < 64,
                p == pow2_nat(i as nat),
                pow2_nat(i as nat) <= pow2_nat(63),
            decreases self.grinding_bits - i,
        {
            proof {
                lemma_pow2_mono((i + 1) as nat, 63);
                lemma_pow2_63();
                assert(pow2_nat((i + 1) as nat) == 2 * pow2_nat(i as nat));
            }
            p = p * 2;
            i = i + 1;
        }
        proof {
            lemma_pow2_63();
        }
        50 + p / 1000 + (self.trace_height as u64) / 10
    }
}

proof fn lemma_pow2_63()
    ensures
        pow2_nat(63) == 0x8000_0000_0000_0000,
{
    reveal_with_fuel(pow2_nat, 64);
}

proof fn lemma_log2_below(x: nat, n: nat)
    requires
        n >= 1,
        x < pow2_nat(n),
    ensures
        log2_floor(x) < n,
    decreases n,
{
    assert(pow2_nat(n) == 2 * pow2_nat((n - 1) as nat));
    assert(pow2_nat(0) == 1);
    if x > 1 {
        if n > 1 {
            assert(x / 2 < pow2_nat((n - 1) as nat));
            lemma_log2_below(x / 2, (n - 1) as nat);
        } else {
            assert(pow2_nat(1) == 2);
        }
    }
}

proof fn lemma_pow2_mono(a: nat, b: nat)
    requires
        a <= b,
    ensures
        pow2_nat(a) <= pow2_nat(b),
    decreases b,
{
    if a < b {
        lemma_pow2_mono(a, (b - 1) as nat);
    }
}

/// The default configuration: 100-bit security, folding 4, 100 queries.
pub open spec fn default_config() -> StarkConfig {
    StarkConfig {
        security_bits: 100,
        fri_folding_factor: FRI_FOLDING_FACTOR,
        fri_queries: FRI_NUM_QUERIES,
        grinding_bits: 10,
        blowup_factor: 4,
        trace_height: 1024,
    }
}

impl Default for StarkConfig {
    fn default() -> (r: Self)
        ensures
            r == default_config(),
    {
        StarkConfig {
            security_bits: 100,
            fri_folding_factor: FRI_FOLDING_FACTOR,
            fri_queries: FRI_NUM_QUERIES,
            grinding_bits: 10,
            blowup_factor: 4,
            trace_height: 1024,
        }
    }
}

/// Step-by-step construction of a `StarkConfig`, validated at the end.
#[derive(Debug, Clone)]
pub struct StarkConfigBuilder {
    pub config: StarkConfig,
}

impl StarkConfigBuilder {
    pub fn new() -> (r: Self)
        ensures
            r.config == default_config(),
    {
        StarkConfigBuilder { config: StarkConfig::default() }
    }

    pub fn security_bits(self, bits: usize) -> (r: Self)
        ensures
            r.config == (StarkConfig { security_bits: bits, ..self.config }),
    {
        StarkConfigBuilder { config: StarkConfig { security_bits: bits, ..self.config } }
    }

    pub fn fri_folding_factor(self, factor: usize) -> (r: Self)
        ensures
            r.config == (StarkConfig { fri_folding_factor: factor, ..self.config }),
    {
        StarkConfigBuilder { config: StarkConfig { fri_folding_factor: factor, ..self.config } }
    }

    pub fn fri_queries(self, queries: usize) -> (r: Self)
        ensures
            r.config == (StarkConfig { fri_queries: queries, ..self.config }),
    {
        StarkConfigBuilder { config: StarkConfig { fri_queries: queries, ..self.config } }
    }

    pub fn grinding_bits(self, bits: usize) -> (r: Self)
        ensures
            r.config == (StarkConfig { grinding_bits: bits, ..self.config }),
    {
        StarkConfigBuilder { config: StarkConfig { grinding_bits: bits, ..self.config } }
    }

    pub fn blowup_factor(self, factor: usize) -> (r: Self)
        ensures
            r.config == (StarkConfig { blowup_factor: factor, ..self.config }),
    {
        StarkConfigBuilder { config: StarkConfig { blowup_factor: factor, ..self.config } }
    }

    pub fn trace_height(self, height: usize) -> (r: Self)
        ensures
            r.config == (StarkConfig { trace_height: height, ..self.config }),
    {
        StarkConfigBuilder { config: StarkConfig { trace_height: height, ..self.config } }
    }

    /// The configuration, if it is valid.
    pub fn build(self) -> (r: Result<StarkConfig>)
        ensures
            r is Ok <==> self.config.valid(),
            r is Ok ==> r->Ok_0 == self.config,
            r is Err ==> r->Err_0 is ConfigurationError,
    {
        match self.config.validate() {
            Ok(()) => Ok(self.config),
            Err(e) => Err(e),
        }
    }
}

impl Default for StarkConfigBuilder {
    fn default() -> (r: Self)
        ensures
            r.config == default_config(),
    {
        Self::new()
    }
}

} // verus!
