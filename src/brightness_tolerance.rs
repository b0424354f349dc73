//! Comparison of 8-bit brightness levels, within the tolerance that the bridge
//! needs for a light to count as showing a stored level.
use vstd::prelude::*;

verus! {

/// Two brightness levels count as equal when they differ by less than this.
pub const BRIGHTNESS_TOLERANCE: u8 = 6;

/// The distance between two brightness levels.
pub open spec fn distance(left: u8, right: u8) -> int {
    if left > right {
        left - right
    } else {
        right - left
    }
}

/// The absolute difference of two brightness levels.
pub fn diff(left: u8, right: u8) -> (r: u8)
    ensures
        r as int == distance(left, right),
{
    if left > right {
        left - right
    } else {
        right - left
    }
}

/// Whether two brightness levels lie within the brightness tolerance.
pub fn is_close(left: u8, right: u8) -> (r: bool)
    ensures
        r == (distance(left, right) < BRIGHTNESS_TOLERANCE),
{
    diff(left, right) < BRIGHTNESS_TOLERANCE
}

} // verus!
