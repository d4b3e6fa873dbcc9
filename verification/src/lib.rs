//! A small spreadsheet-style formula calculator.
//!
//! A textual formula such as `= 1 + 2 * 3` is tokenized and parsed into a
//! binary-operator tree (`Formula`) honoring the usual precedence and
//! associativity tiers, and the tree is then reduced to a single scalar
//! `Value`: a number, a text, or a first-class error value.
//!
//! Numbers are IEEE 754 binary32 values, carried everywhere as their raw
//! 32-bit patterns so that all surrounding logic can be verified; the
//! arithmetic itself is performed by outside software-float routines behind
//! a small set of trusted wrappers.

pub mod calculate;
pub mod numeric;
pub mod parse_formula;
pub mod types;
