//! Time helpers: instants in nanoseconds and a contract that reports block time.

use crate::types::EpochMillis;
use vstd::prelude::*;

verus! {

/// Nanoseconds in a millisecond.
pub const NANOS_PER_MILLI: u64 = 1_000_000;

/// Nanoseconds in a second.
pub const NANOS_PER_SEC: u64 = 1_000_000_000;

/// Milliseconds in `min` minutes.
pub fn minutes_to_millisecs(min: u64) -> (r: EpochMillis)
    requires
        min * 60_000 <= u64::MAX,
    ensures
        r == min * 60_000,
{
    min * 60 * 1_000
}

/// Relies on `std::time::SystemTime::now` and `duration_since(UNIX_EPOCH)`:
/// the time elapsed since the epoch in nanoseconds, `None` when the clock is
/// set before the epoch. It depends on the clock, so nothing is promised of it.
#[verifier::external_body]
fn system_nanos_since_epoch() -> (r: Option<u128>) {
    std::time::SystemTime::now().duration_since(std::time::UNIX_EPOCH).ok().map(|d| d.as_nanos())
}

/// An instant, in nanoseconds since the Unix epoch.
#[derive(Clone, Copy, Debug)]
pub struct Now {
    nanosecs: u64,
}

impl View for Now {
    type V = u64;

    closed spec fn view(&self) -> u64 {
        self.nanosecs
    }
}

impl Now {
    /// The current time of the system clock, `None` when it is set before
    /// the epoch. The nanosecond count is cut to 64 bits.
    pub fn new() -> (r: Option<Now>) {
        match system_nanos_since_epoch() {
            Some(n) => Some(Now::from_nanos(n)),
            None => None,
        }
    }

    /// The instant `nanos` nanoseconds after the epoch, cut to 64 bits.
    pub fn from_nanos(nanos: u128) -> (r: Now)
        ensures
            r@ == nanos as u64,
    {
        Now { nanosecs: nanos as u64 }
    }

    /// The instant `epoch_millis` milliseconds after the epoch.
    pub fn new_from_epoch_millis(epoch_millis: EpochMillis) -> (r: Now)
        requires
            epoch_millis * 1_000_000 <= u64::MAX,
        ensures
            r@ == epoch_millis * 1_000_000,
    {
        Now { nanosecs: epoch_millis * NANOS_PER_MILLI }
    }

    /// Whole milliseconds since the epoch.
    pub fn to_epoch_millis(&self) -> (r: EpochMillis)
        ensures
            r == self@ / 1_000_000,
    {
        self.nanosecs / NANOS_PER_MILLI
    }

    /// Nanoseconds since the epoch.
    pub fn to_nanos(&self) -> (r: u64)
        ensures
            r == self@,
    {
        self.nanosecs
    }

    /// `min` minutes later.
    pub fn increment_min(&self, min: u64) -> (r: Now)
        requires
            self@ + min * 60_000_000_000 <= u64::MAX,
        ensures
            r@ == self@ + min * 60_000_000_000,
    {
        Now { nanosecs: self.nanosecs + (min * 60 * NANOS_PER_SEC) }
    }

    /// `seconds` seconds later.
    pub fn increment_sec(&self, seconds: u64) -> (r: Now)
        requires
            self@ + seconds * 1_000_000_000 <= u64::MAX,
        ensures
            r@ == self@ + seconds * 1_000_000_000,
    {
        Now { nanosecs: self.nanosecs + (seconds * NANOS_PER_SEC) }
    }

    /// `days` days later.
    pub fn increment_days(&self, days: u64) -> (r: Now)
        requires
            self@ + days * 86_400_000_000_000 <= u64::MAX,
        ensures
            r@ == self@ + days * 86_400_000_000_000,
    {
        Now { nanosecs: self.nanosecs + (days * 24 * 60 * 60 * NANOS_PER_SEC) }
    }

    /// `min` minutes earlier.
    pub fn reduce_min(&self, min: u64) -> (r: Now)
        requires
            min * 60_000_000_000 <= self@,
        ensures
            r@ == self@ - min * 60_000_000_000,
    {
        Now { nanosecs: self.nanosecs - (min * 60 * NANOS_PER_SEC) }
    }
}

/// Helper contract that reports the chain's clock in milliseconds.
pub struct Contract {}

impl Contract {
    pub fn new() -> (r: Contract) {
        Contract {}
    }

    /// Milliseconds since the epoch for a block timestamp in nanoseconds.
    pub fn get_current_epoch_millis(block_timestamp: u64) -> (r: EpochMillis)
        ensures
            r == block_timestamp / 1_000_000,
    {
        block_timestamp / NANOS_PER_MILLI
    }

    /// The current time in milliseconds, for the block timestamp `block_timestamp` (nanoseconds).
    pub fn get_now(&self, block_timestamp: u64) -> (r: EpochMillis)
        ensures
            r == block_timestamp / 1_000_000,
    {
        Self::get_current_epoch_millis(block_timestamp)
    }

    /// The time `mins` minutes after the block timestamp `block_timestamp`, in milliseconds.
    pub fn get_future(&self, block_timestamp: u64, mins: u32) -> (r: EpochMillis)
        requires
            mins * 60_000 <= u32::MAX,
        ensures
            r == block_timestamp / 1_000_000 + mins * 60_000,
    {
        Self::get_current_epoch_millis(block_timestamp) + (mins * 60 * 1_000) as u64
    }
}

} // verus!
