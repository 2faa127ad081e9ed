//! The operation tag and its textual and numeric encodings.
use vstd::prelude::*;

verus! {

/// The operation that the calculator performs on its two operands.
#[derive(Clone, Copy, Debug, PartialEq, Eq, Structural)]
pub enum Op {
    Add,
    Sub,
}

/// The command-line name of each operation.
pub open spec fn op_name(op: Op) -> Seq<char> {
    match op {
        Op::Add => seq!['a', 'd', 'd'],
        Op::Sub => seq!['s', 'u', 'b'],
    }
}

/// The symbol with which an operation is written in an expression.
pub open spec fn op_symbol(op: Op) -> char {
    match op {
        Op::Add => '+',
        Op::Sub => '-',
    }
}

/// The operation that a one-byte discriminant stands for: `0` is `Add`,
/// `1` is `Sub`.
pub open spec fn op_of_discriminant(val: u8) -> Op
    recommends
        val < 2,
{
    if val == 0 {
        Op::Add
    } else {
        Op::Sub
    }
}

impl Op {
    /// Reads an operation from its one-byte discriminant. Any byte other than
    /// `0` or `1` is a programming error on the caller's side.
    pub fn lift(val: u8) -> (r: Op)
        requires
            val < 2,
        ensures
            r == op_of_discriminant(val),
    {
        match val {
            0 => Op::Add,
            _ => Op::Sub,
        }
    }

    /// The symbol of this operation: `+` or `-`.
    pub fn symbol(self) -> (r: char)
        ensures
            r == op_symbol(self),
    {
        match self {
            Op::Add => '+',
            Op::Sub => '-',
        }
    }
}

/// The error of [`parse_operator`]: the text named no known operation.
pub struct UnknownOperation {
    /// The text that was given.
    pub op: String,
}

/// Reads an operation from its name, `add` or `sub`. Any other text is an
/// unknown operation, and the error carries the text.
pub fn parse_operator(op: &str) -> (r: Result<Op, UnknownOperation>)
    ensures
        match r {
            Ok(o) => op_name(o) == op@,
            Err(e) => (forall|o: Op| op_name(o) != op@) && e.op@ == op@,
        },
{
    if op.unicode_len() == 3 {
        let c0 = op.get_char(0);
        let c1 = op.get_char(1);
        let c2 = op.get_char(2);
        if c0 == 'a' && c1 == 'd' && c2 == 'd' {
            proof {
                assert(op@ =~= op_name(Op::Add));
            }
            return Ok(Op::Add);
        }
        if c0 == 's' && c1 == 'u' && c2 == 'b' {
            proof {
                assert(op@ =~= op_name(Op::Sub));
            }
            return Ok(Op::Sub);
        }
    }
    proof {
        assert forall|o: Op| op_name(o) != op@ by {
            if op_name(o) == op@ {
                assert(op@.len() == 3);
            }
        }
    }
    Err(UnknownOperation { op: op.to_owned() })
}

} // verus!
