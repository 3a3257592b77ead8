//! One numeric value over three representations: doubles, numbers in standard
//! form and rational fractions.
//!
//! The library holds what is decided about such a value: which arithmetic two
//! representations meet in, how values compare, what their signs are, in which
//! order the notations of a number are read from text. It computes nothing in
//! floating point. A double is held as the 64 bits of its encoding, and where
//! an operation ends in arithmetic on doubles, or inside the `standardform` or
//! `fraction` crate, the library hands back the operands and the caller does
//! the arithmetic.
pub mod dispatch;
pub mod double;
pub mod err;
pub mod grammar;
pub mod number;
pub mod rational;
pub mod scientific;
pub mod text;

pub use err::ParsingNumberError;
pub use grammar::parse_number;
pub use number::Number;
