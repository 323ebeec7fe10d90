//! The epoch scalar: one-hour windows counted from the Unix epoch.

use vstd::prelude::*;
use crate::common::errors::{join_text, u64_text, decimal_of, Result, ZKMTDError};
use crate::utils::constants::{EPOCH_DURATION_SECS, MAX_EPOCH};
use crate::utils::hash::{le8, le_value, le_prefix_value, field_to_bytes, min_int};

verus! {

/// An epoch number `v` with `0 <= v <= MAX_EPOCH`; epoch `v` covers the
/// seconds `[v * 3600, (v + 1) * 3600 - 1]`.
#[derive(Debug, Clone, Copy, PartialEq, Eq, PartialOrd, Ord, Hash)]
pub struct Epoch {
    value: u64,
}

impl View for Epoch {
    type V = u64;

    closed spec fn view(&self) -> u64 {
        self.value
    }
}

/// Relies on std's `SystemTime::now().duration_since(UNIX_EPOCH)`: the wall clock in
/// whole seconds, or `None` when it reads before 1970. Nothing is promised of its value.
#[verifier::external_body]
fn wall_clock_secs() -> (r: Option<u64>)
{
    std::time::SystemTime::now().duration_since(std::time::UNIX_EPOCH).ok().map(|d| d.as_secs())
}

impl Epoch {
    /// The epoch with the given number, which must not pass `MAX_EPOCH`
    /// (`try_new` reports that case instead).
    pub fn new(value: u64) -> (r: Self)
        requires
            value <= MAX_EPOCH,
        ensures
            r@ == value,
    {
        Epoch { value }
    }

    /// The epoch with the given number; fails above `MAX_EPOCH`.
    pub fn try_new(value: u64) -> (r: Result<Self>)
        ensures
            value <= MAX_EPOCH <==> r is Ok,
            r is Ok ==> r->Ok_0@ == value,
            r is Err ==> r->Err_0 is InvalidEpoch && r->Err_0->InvalidEpoch_current == value,
    {
        if value > MAX_EPOCH {
            return Err(
                ZKMTDError::InvalidEpoch {
                    current: value,
                    reason: "Epoch exceeds the maximum value".to_owned(),
                },
            );
        }
        Ok(Epoch { value })
    }

    /// The epoch that contains the given Unix time: `⌊t / 3600⌋`.
    pub fn from_timestamp(timestamp_secs: u64) -> (r: Self)
        ensures
            r@ == timestamp_secs / EPOCH_DURATION_SECS,
    {
        Epoch { value: timestamp_secs / EPOCH_DURATION_SECS }
    }

    /// The epoch of the wall clock now; fails when the clock reads before 1970.
    pub fn current() -> (r: Result<Self>)
        ensures
            r is Err ==> r->Err_0 is InternalError,
    {
        match wall_clock_secs() {
            Some(secs) => Ok(Self::from_timestamp(secs)),
            None => Err(
                ZKMTDError::InternalError { reason: "System time is before the Unix epoch".to_owned() },
            ),
        }
    }

    pub fn value(&self) -> (r: u64)
        ensures
            r == self@,
    {
        self.value
    }

    /// The following epoch; fails at `MAX_EPOCH`.
    pub fn next(&self) -> (r: Result<Self>)
        ensures
            self@ < MAX_EPOCH <==> r is Ok,
            r is Ok ==> r->Ok_0@ == self@ + 1,
            r is Err ==> r->Err_0 is InvalidEpoch && r->Err_0->InvalidEpoch_current == self@,
    {
        if self.value >= MAX_EPOCH {
            return Err(
                ZKMTDError::InvalidEpoch {
                    current: self.value,
                    reason: "Epoch has reached the maximum value".to_owned(),
                },
            );
        }
        Ok(Self::new(self.value + 1))
    }

    /// The preceding epoch; fails at 0.
    pub fn prev(&self) -> (r: Result<Self>)
        ensures
            self@ > 0 <==> r is Ok,
            r is Ok ==> r->Ok_0@ == self@ - 1,
            r is Err ==> r->Err_0 is InvalidEpoch && r->Err_0->InvalidEpoch_current == self@,
    {
        if self.value == 0 {
            return Err(
                ZKMTDError::InvalidEpoch { current: self.value, reason: "Epoch is 0".to_owned() },
            );
        }
        Ok(Self::new(self.value - 1))
    }

    /// The epoch `count` steps later; fails when that passes `MAX_EPOCH`.
    pub fn advance(&self, count: u64) -> (r: Result<Self>)
        ensures
            self@ + count <= MAX_EPOCH <==> r is Ok,
            r is Ok ==> r->Ok_0@ == self@ + count,
            r is Err ==> r->Err_0 is InvalidEpoch && r->Err_0->InvalidEpoch_current == self@,
    {
        match self.value.checked_add(count) {
            None => Err(
                ZKMTDError::InvalidEpoch {
                    current: self.value,
                    reason: "Epoch overflow".to_owned(),
                },
            ),
            Some(new_value) => {
                if new_value > MAX_EPOCH {
                    Err(
                        ZKMTDError::InvalidEpoch {
                            current: self.value,
                            reason: "Epoch exceeded the maximum value".to_owned(),
                        },
                    )
                } else {
                    Ok(Self::new(new_value))
                }
            },
        }
    }

    /// First second of the epoch, `v * 3600`.
    pub fn start_timestamp(&self) -> (r: u64)
        requires
            self@ * EPOCH_DURATION_SECS <= u64::MAX,
        ensures
            r == self@ * EPOCH_DURATION_SECS,
    {
        self.value * EPOCH_DURATION_SECS
    }

    /// Last second of the epoch, `(v + 1) * 3600 - 1`.
    pub fn end_timestamp(&self) -> (r: u64)
        requires
            (self@ + 1) * EPOCH_DURATION_SECS - 1 <= u64::MAX,
        ensures
            r == (self@ + 1) * EPOCH_DURATION_SECS - 1,
    {
        let r = (self.value as u128 + 1) * (EPOCH_DURATION_SECS as u128) - 1;
        r as u64
    }

    /// Whether the given Unix time falls inside this epoch.
    pub fn contains_timestamp(&self, timestamp_secs: u64) -> (r: bool)
        ensures
            r == (timestamp_secs / EPOCH_DURATION_SECS == self@),
    {
        let epoch_from_ts = Self::from_timestamp(timestamp_secs);
        epoch_from_ts.value == self.value
    }

    /// Absolute difference of two epoch numbers.
    pub fn distance(&self, other: &Epoch) -> (r: u64)
        ensures
            r == if self@ >= other@ { self@ - other@ } else { other@ - self@ },
    {
        if self.value >= other.value {
            self.value - other.value
        } else {
            other.value - self.value
        }
    }

    /// Little-endian encoding of the epoch number.
    pub fn to_bytes(&self) -> (r: [u8; 8])
        ensures
            r@ == le8(self@),
    {
        field_to_bytes(self.value)
    }

    /// The epoch whose little-endian encoding is `bytes`.
    pub fn from_bytes(bytes: [u8; 8]) -> (r: Self)
        ensures
            r@ as nat == le_value(bytes@),
    {
        let v = le_prefix_value(bytes.as_slice(), 0, 8);
        assert(bytes@.subrange(0, 8).take(min_int(8, 8)) =~= bytes@);
        Epoch { value: v }
    }

    /// `Epoch(<v>)`.
    pub fn to_string(&self) -> (r: String)
        ensures
            r@ == "Epoch("@ + decimal_of(self@) + ")"@,
    {
        let digits = u64_text(self.value);
        let head = join_text("Epoch(", digits.as_str());
        join_text(head.as_str(), ")")
    }
}

impl Default for Epoch {
    fn default() -> (r: Self)
        ensures
            r@ == 0,
    {
        Self::new(0)
    }
}

} // verus!
