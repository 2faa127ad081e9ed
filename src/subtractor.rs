//! The subtractor component: subtraction of unsigned 32-bit integers,
//! modulo 2^32, and its entry point at the component boundary.
use vstd::prelude::*;
use crate::abi::{as_i32, wrap_i32};

verus! {

/// The difference `x - y` modulo 2^32: where `y > x` this is
/// `2^32 - (y - x)`.
pub open spec fn sub_value(x: u32, y: u32) -> int {
    (x - y) % 0x1_0000_0000
}

/// What a subtractor component offers.
pub trait Guest {
    /// Subtracts `y` from `x`, wrapping around below zero.
    fn subtract(x: u32, y: u32) -> (r: u32)
        ensures
            r == sub_value(x, y),
    ;
}

/// The subtractor component.
pub struct Subtractor;

impl Guest for Subtractor {
    fn subtract(x: u32, y: u32) -> (r: u32) {
        x.wrapping_sub(y)
    }
}

/// The subtractor's entry point at the component boundary: the operands and
/// the result travel as `i32` holding the bits of a `u32`. On those lanes
/// this is wrapping subtraction of `i32`.
pub fn export_subtract<T: Guest>(arg0: i32, arg1: i32) -> (r: i32)
    ensures
        r as int == wrap_i32(arg0 - arg1),
{
    let x = #[verifier::truncate] (arg0 as u32);
    let y = #[verifier::truncate] (arg1 as u32);
    assert(arg0 >= 0 ==> x == arg0) by (bit_vector)
        requires x == arg0 as u32;
    assert(arg0 < 0 ==> x == arg0 + 0x1_0000_0000) by (bit_vector)
        requires x == arg0 as u32;
    assert(arg1 >= 0 ==> y == arg1) by (bit_vector)
        requires y == arg1 as u32;
    assert(arg1 < 0 ==> y == arg1 + 0x1_0000_0000) by (bit_vector)
        requires y == arg1 as u32;
    let result = T::subtract(x, y);
    as_i32(result)
}

} // verus!
