//! Time values: delays as whole milliseconds, and wall-clock timestamps.

use std::time::SystemTime;
use vstd::prelude::*;

verus! {

#[verifier::external_type_specification]
#[verifier::external_body]
pub struct ExSystemTime(SystemTime);

/// Relies on `std::time::SystemTime::now`: it reads the wall clock, so nothing
/// is assumed of the value it returns.
pub assume_specification[ SystemTime::now ]() -> SystemTime;

/// Relies on `Clone` for `std::time::SystemTime`, a `Copy` type: the clone
/// is the same instant.
pub assume_specification[ <SystemTime as Clone>::clone ](t: &SystemTime) -> (r: SystemTime)
    ensures
        r == *t,
;

/// A span of time, counted in whole milliseconds.
#[derive(Clone, Copy, Debug, PartialEq, Eq, Structural)]
pub struct Delay {
    pub millis: u64,
}

impl Delay {
    /// A delay of `secs` seconds, saturating at the largest representable delay.
    pub fn from_secs(secs: u64) -> (r: Delay)
        ensures
            r.millis == if secs * 1000 <= u64::MAX { secs * 1000 } else { u64::MAX as int },
    {
        let ms: u128 = secs as u128 * 1000;
        if ms <= u64::MAX as u128 {
            Delay { millis: ms as u64 }
        } else {
            Delay { millis: u64::MAX }
        }
    }
}

} // verus!
