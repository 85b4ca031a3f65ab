//! Time intervals as a system interface counts them: in units of 100
//! nanoseconds, below zero for a span of time from now on.

use crate::foreign::{duration_millis, duration_of_millis};
use core::time::Duration;
use vstd::prelude::*;

verus! {

/// How many units of 100 nanoseconds make a millisecond.
pub const UNITS_PER_MILLI: i64 = 10000;

/// The 64-bit two's complement number that has the low 64 bits of `x`.
pub open spec fn wrap_i64(x: int) -> i64 {
    let low = x % 0x1_0000_0000_0000_0000;
    if low >= 0x8000_0000_0000_0000 {
        (low - 0x1_0000_0000_0000_0000) as i64
    } else {
        low as i64
    }
}

/// The non-negative 64-bit number that has the low 64 bits of `x`.
pub open spec fn wrap_u64(x: int) -> u64 {
    (x % 0x1_0000_0000_0000_0000) as u64
}

/// The quotient of `x` by `y`, rounded towards zero.
pub open spec fn quotient_towards_zero(x: int, y: int) -> int
    recommends
        y > 0,
{
    if x >= 0 {
        x / y
    } else {
        -((-x) / y)
    }
}

/// The interval that stands for a span of `millis` milliseconds: minus the
/// number of its 100 nanosecond units. A span of more than `i64::MAX` units
/// keeps the low 64 bits of that number.
pub open spec fn interval_of_millis(millis: int) -> i64 {
    wrap_i64(-(millis * 10000))
}

/// The whole milliseconds of an interval: the quotient of the negated count
/// by 10000, rounded towards zero. A count above zero, which stands for no
/// span, gives the low 64 bits of that quotient.
pub open spec fn millis_of_interval(quad_part: i64) -> u64 {
    wrap_u64(quotient_towards_zero(wrap_i64(-quad_part) as int, 10000))
}

/// A time interval in units of 100 nanoseconds. A count below zero stands
/// for a span of time, one above zero for a point in time.
#[derive(Clone, Copy, Debug, PartialEq, Eq, Structural)]
pub struct NativeDuration {
    pub quad_part: i64,
}

/// The 64-bit two's complement number with the bits of `x`.
fn reinterpret_as_i64(x: u64) -> (r: i64)
    ensures
        r == wrap_i64(x as int),
{
    if x >= 0x8000_0000_0000_0000 {
        let above: u64 = x - 0x8000_0000_0000_0000;
        (above as i64) + i64::MIN
    } else {
        x as i64
    }
}

/// The non-negative 64-bit number with the bits of `x`.
fn reinterpret_as_u64(x: i64) -> (r: u64)
    ensures
        r == wrap_u64(x as int),
{
    if x >= 0 {
        x as u64
    } else {
        let below: i64 = -(x + 1);
        u64::MAX - (below as u64)
    }
}

impl NativeDuration {
    /// The interval that stands for a span of `millis` milliseconds.
    pub fn from_millis(millis: u128) -> (interval: NativeDuration)
        ensures
            interval.quad_part == interval_of_millis(millis as int),
            millis * 10000 <= i64::MAX ==> interval.quad_part == -(millis * 10000),
    {
        let low: u128 = millis % 0x1_0000_0000_0000_0000;
        let units: u128 = 0x1_0000_0000_0000_0000 * 10000 - low * 10000;
        let kept: u64 = (units % 0x1_0000_0000_0000_0000) as u64;
        assert(kept as int == (-(millis * 10000)) % 0x1_0000_0000_0000_0000) by {
            let high = millis / 0x1_0000_0000_0000_0000;
            assert(millis == high * 0x1_0000_0000_0000_0000 + low);
            assert(units as int == -(millis * 10000) + (high * 10000 + 10000)
                * 0x1_0000_0000_0000_0000);
            vstd::arithmetic::div_mod::lemma_mod_multiples_vanish(
                high * 10000 + 10000,
                -(millis * 10000),
                0x1_0000_0000_0000_0000,
            );
        }
        NativeDuration { quad_part: reinterpret_as_i64(kept) }
    }

    /// The whole milliseconds of the interval.
    pub fn as_millis(&self) -> (millis: u64)
        ensures
            millis == millis_of_interval(self.quad_part),
            i64::MIN < self.quad_part <= 0 ==> millis == (-self.quad_part) / 10000,
    {
        let negated: i64 = 0i64.wrapping_sub(self.quad_part);
        let whole: i64 = negated / UNITS_PER_MILLI;
        reinterpret_as_u64(whole)
    }
}

/// A span whose units fit 64 bits comes back from its interval unchanged.
pub proof fn lemma_millis_round_trip(millis: int)
    requires
        0 <= millis,
        millis * 10000 <= i64::MAX,
    ensures
        interval_of_millis(millis) == -(millis * 10000),
        millis_of_interval(interval_of_millis(millis)) == millis,
{
}

impl From<Duration> for NativeDuration {
    /// The interval that stands for the whole milliseconds of `x`.
    fn from(x: Duration) -> (interval: NativeDuration)
        ensures
            interval.quad_part == interval_of_millis(duration_millis(x) as int),
    {
        NativeDuration::from_millis(x.as_millis())
    }
}

impl vstd::std_specs::convert::FromSpecImpl<Duration> for NativeDuration {
    open spec fn obeys_from_spec() -> bool {
        true
    }

    open spec fn from_spec(x: Duration) -> NativeDuration {
        NativeDuration { quad_part: interval_of_millis(duration_millis(x) as int) }
    }
}

impl From<NativeDuration> for Duration {
    /// The duration of the whole milliseconds of `val`.
    fn from(val: NativeDuration) -> (d: Duration)
        ensures
            d == duration_of_millis(millis_of_interval(val.quad_part)),
            duration_millis(d) == millis_of_interval(val.quad_part),
    {
        Duration::from_millis(val.as_millis())
    }
}

impl vstd::std_specs::convert::FromSpecImpl<NativeDuration> for Duration {
    open spec fn obeys_from_spec() -> bool {
        true
    }

    open spec fn from_spec(val: NativeDuration) -> Duration {
        duration_of_millis(millis_of_interval(val.quad_part))
    }
}

} // verus!
