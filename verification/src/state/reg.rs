//! Register numbers.
//!
//! The 8-bit names index the register file; the 16-bit names select a pair.
use vstd::prelude::*;

verus! {

/// Register B.
pub const B: u8 = 0;

/// Register C.
pub const C: u8 = 1;

/// Register D.
pub const D: u8 = 2;

/// Register E.
pub const E: u8 = 3;

/// Register H.
pub const H: u8 = 4;

/// Register L.
pub const L: u8 = 5;

/// The accumulator.
pub const A: u8 = 6;

/// The flag register.
pub const F: u8 = 7;

/// The pair BC.
pub const BC: u8 = 0;

/// The pair DE.
pub const DE: u8 = 1;

/// The pair HL.
pub const HL: u8 = 2;

/// The stack pointer, where a pair is selected.
pub const SP: u8 = 3;

} // verus!
