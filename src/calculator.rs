//! The calculator: dispatches an operation to the adder or the subtractor.
use vstd::prelude::*;
use crate::adder;
use crate::op::Op;
use crate::subtractor::{Guest, Subtractor};

verus! {

/// The result of applying `op` to `x` and `y` in unsigned 32-bit modular
/// arithmetic.
pub open spec fn calc_value(op: Op, x: u32, y: u32) -> int {
    match op {
        Op::Add => (x + y) % 0x1_0000_0000,
        Op::Sub => (x - y) % 0x1_0000_0000,
    }
}

/// Applies `op` to `x` and `y`: `Add` goes to the adder, `Sub` to the
/// subtractor, and their result comes back unchanged.
pub fn calculate(op: Op, x: u32, y: u32) -> (r: u32)
    ensures
        r == calc_value(op, x, y),
{
    match op {
        Op::Add => adder::add(x, y),
        Op::Sub => Subtractor::subtract(x, y),
    }
}

/// Addition is commutative: `calculate(Add, x, y)` and `calculate(Add, y, x)`
/// agree.
pub proof fn lemma_add_commutes(x: u32, y: u32)
    ensures
        calc_value(Op::Add, x, y) == calc_value(Op::Add, y, x),
{
}

/// Subtracting zero gives the first operand back.
pub proof fn lemma_sub_zero(x: u32)
    ensures
        calc_value(Op::Sub, x, 0) == x,
{
}

} // verus!
