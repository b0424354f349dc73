//! Comparison of 16-bit mired colour temperatures, within the tolerance that the bridge
//! needs for a light to count as showing a stored colour temperature.
use vstd::prelude::*;

verus! {

/// Two colour temperatures count as equal when they differ by less than this.
pub const MIRED_TOLERANCE: u16 = 40;

/// The distance between two colour temperatures.
pub open spec fn distance(left: u16, right: u16) -> int {
    if left > right {
        left - right
    } else {
        right - left
    }
}

/// The absolute difference of two colour temperatures.
pub fn diff(left: u16, right: u16) -> (r: u16)
    ensures
        r as int == distance(left, right),
{
    if left > right {
        left - right
    } else {
        right - left
    }
}

/// Whether two colour temperatures lie within the mired tolerance.
pub fn is_close(left: u16, right: u16) -> (r: bool)
    ensures
        r == (distance(left, right) < MIRED_TOLERANCE),
{
    diff(left, right) < MIRED_TOLERANCE
}

} // verus!
