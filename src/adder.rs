//! The adder component: addition of unsigned 32-bit integers, modulo 2^32.
use vstd::prelude::*;

verus! {

/// The sum of `x` and `y` modulo 2^32.
pub open spec fn add_value(x: u32, y: u32) -> int {
    (x + y) % 0x1_0000_0000
}

/// Adds `y` to `x`. A sum past `u32::MAX` wraps around rather than failing.
pub fn add(x: u32, y: u32) -> (r: u32)
    ensures
        r == add_value(x, y),
{
    x.wrapping_add(y)
}

} // verus!
