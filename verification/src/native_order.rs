//! The order of time intervals: by the whole milliseconds they stand for.

use crate::native_duration::{millis_of_interval, NativeDuration};
use core::cmp::Ordering;
use vstd::prelude::*;

verus! {

/// How two intervals are ordered: as their whole milliseconds are.
pub open spec fn interval_order(left: NativeDuration, right: NativeDuration) -> Ordering {
    if millis_of_interval(left.quad_part) < millis_of_interval(right.quad_part) {
        Ordering::Less
    } else if millis_of_interval(left.quad_part) > millis_of_interval(right.quad_part) {
        Ordering::Greater
    } else {
        Ordering::Equal
    }
}

impl NativeDuration {
    /// Orders two intervals as their whole milliseconds are ordered, so the
    /// answer is never `None`. Two intervals within one millisecond of each
    /// other are equal in this order without being equal.
    pub fn partial_cmp(&self, other: &Self) -> (order: Option<Ordering>)
        ensures
            order == Some(interval_order(*self, *other)),
    {
        let left: u64 = self.as_millis();
        let right: u64 = other.as_millis();
        if left < right {
            Some(Ordering::Less)
        } else if left > right {
            Some(Ordering::Greater)
        } else {
            Some(Ordering::Equal)
        }
    }
}

} // verus!
