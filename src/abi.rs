//! Conversions used at a component boundary, where every integer argument
//! and result travels as an `i32`.
use vstd::prelude::*;

verus! {

/// The `i32` whose bits are the low 32 bits of `v` in two's complement:
/// the value congruent to `v` modulo 2^32 in `[-2^31, 2^31)`.
pub open spec fn wrap_i32(v: int) -> int {
    let m = v % 0x1_0000_0000;
    if m >= 0x8000_0000 {
        m - 0x1_0000_0000
    } else {
        m
    }
}

/// A value that can be handed across the boundary as an `i32`.
pub trait AsI32: Sized {
    /// The integer that the value stands for.
    spec fn int_value(&self) -> int;

    /// Reinterprets the value as an `i32`, keeping its low 32 bits.
    fn as_i32(self) -> (r: i32)
        ensures
            r as int == wrap_i32(self.int_value()),
    ;
}

/// Reinterprets `t` as an `i32`, keeping its low 32 bits.
pub fn as_i32<T: AsI32>(t: T) -> (r: i32)
    ensures
        r as int == wrap_i32(t.int_value()),
{
    t.as_i32()
}

impl<'a, T: Copy + AsI32> AsI32 for &'a T {
    open spec fn int_value(&self) -> int {
        (**self).int_value()
    }

    fn as_i32(self) -> (r: i32) {
        (*self).as_i32()
    }
}

impl AsI32 for i32 {
    open spec fn int_value(&self) -> int {
        *self as int
    }

    fn as_i32(self) -> (r: i32) {
        self
    }
}

impl AsI32 for u32 {
    open spec fn int_value(&self) -> int {
        *self as int
    }

    fn as_i32(self) -> (r: i32) {
        let r = #[verifier::truncate] (self as i32);
        proof {
            let x = self;
            assert(x < 0x8000_0000u32 ==> r == x) by (bit_vector)
                requires r == x as i32;
            assert(x >= 0x8000_0000u32 ==> r == x - 0x1_0000_0000) by (bit_vector)
                requires r == x as i32;
        }
        r
    }
}

impl AsI32 for i16 {
    open spec fn int_value(&self) -> int {
        *self as int
    }

    fn as_i32(self) -> (r: i32) {
        self as i32
    }
}

impl AsI32 for u16 {
    open spec fn int_value(&self) -> int {
        *self as int
    }

    fn as_i32(self) -> (r: i32) {
        self as i32
    }
}

impl AsI32 for i8 {
    open spec fn int_value(&self) -> int {
        *self as int
    }

    fn as_i32(self) -> (r: i32) {
        self as i32
    }
}

impl AsI32 for u8 {
    open spec fn int_value(&self) -> int {
        *self as int
    }

    fn as_i32(self) -> (r: i32) {
        self as i32
    }
}

impl AsI32 for char {
    /// The code point of the character.
    open spec fn int_value(&self) -> int {
        (*self as u32) as int
    }

    fn as_i32(self) -> (r: i32) {
        (self as u32).as_i32()
    }
}

impl AsI32 for usize {
    open spec fn int_value(&self) -> int {
        *self as int
    }

    fn as_i32(self) -> (r: i32) {
        let x = self;
        let low = #[verifier::truncate] (x as u32);
        assert(low as u64 == (x as u64) % 0x1_0000_0000u64) by (bit_vector)
            requires low == x as u32;
        low.as_i32()
    }
}

} // verus!
