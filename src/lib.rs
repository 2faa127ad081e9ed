//! A small calculator built from two arithmetic components.
//!
//! An [`Op`] tag selects one of two operations on unsigned 32-bit integers:
//! wrapping addition (the adder) or wrapping subtraction (the subtractor).
//! [`calculate`] dispatches the tag to the matching component. The `abi`
//! module holds the conversions used at a component boundary, where every
//! integer travels as an `i32`.
pub mod abi;
pub mod adder;
pub mod calculator;
pub mod op;
pub mod subtractor;

pub use abi::{as_i32, AsI32};
pub use calculator::calculate;
pub use op::{parse_operator, Op, UnknownOperation};
pub use subtractor::{export_subtract, Guest, Subtractor};
