//! Single-bit arithmetic on bytes.
//!
//! Bits are numbered from 0 (least significant) to 7. Every operation is
//! stated with division and remainder, so that facts about bytes stay within
//! linear arithmetic.
use vstd::prelude::*;

verus! {

/// The value of bit `n` alone: two to the power `n`.
pub open spec fn spec_bit_weight(n: u8) -> u8
    recommends
        n < 8,
{
    if n == 0 {
        1
    } else if n == 1 {
        2
    } else if n == 2 {
        4
    } else if n == 3 {
        8
    } else if n == 4 {
        16
    } else if n == 5 {
        32
    } else if n == 6 {
        64
    } else {
        128
    }
}

/// Whether bit `n` of `x` is one.
pub open spec fn spec_test_bit(x: u8, n: u8) -> bool
    recommends
        n < 8,
{
    if n == 0 {
        x % 2 == 1
    } else if n == 1 {
        (x / 2) % 2 == 1
    } else if n == 2 {
        (x / 4) % 2 == 1
    } else if n == 3 {
        (x / 8) % 2 == 1
    } else if n == 4 {
        (x / 16) % 2 == 1
    } else if n == 5 {
        (x / 32) % 2 == 1
    } else if n == 6 {
        (x / 64) % 2 == 1
    } else {
        x / 128 == 1
    }
}

/// `x` with bit `n` forced to one.
pub open spec fn spec_set_bit(x: u8, n: u8) -> u8
    recommends
        n < 8,
{
    if spec_test_bit(x, n) {
        x
    } else {
        (x + spec_bit_weight(n)) as u8
    }
}

/// `x` with bit `n` forced to zero.
pub open spec fn spec_clear_bit(x: u8, n: u8) -> u8
    recommends
        n < 8,
{
    if spec_test_bit(x, n) {
        (x - spec_bit_weight(n)) as u8
    } else {
        x
    }
}

/// The value of bit `n` alone.
#[verifier::when_used_as_spec(spec_bit_weight)]
pub fn bit_weight(n: u8) -> (w: u8)
    requires
        n < 8,
    ensures
        w == spec_bit_weight(n),
        w > 0,
{
    if n == 0 {
        1
    } else if n == 1 {
        2
    } else if n == 2 {
        4
    } else if n == 3 {
        8
    } else if n == 4 {
        16
    } else if n == 5 {
        32
    } else if n == 6 {
        64
    } else {
        128
    }
}

/// Whether bit `n` of `x` is one.
#[verifier::when_used_as_spec(spec_test_bit)]
pub fn test_bit(x: u8, n: u8) -> (b: bool)
    requires
        n < 8,
    ensures
        b == spec_test_bit(x, n),
{
    if n == 0 {
        x % 2 == 1
    } else if n == 1 {
        (x / 2) % 2 == 1
    } else if n == 2 {
        (x / 4) % 2 == 1
    } else if n == 3 {
        (x / 8) % 2 == 1
    } else if n == 4 {
        (x / 16) % 2 == 1
    } else if n == 5 {
        (x / 32) % 2 == 1
    } else if n == 6 {
        (x / 64) % 2 == 1
    } else {
        x / 128 == 1
    }
}

/// `x` with bit `n` forced to one.
#[verifier::when_used_as_spec(spec_set_bit)]
pub fn set_bit(x: u8, n: u8) -> (y: u8)
    requires
        n < 8,
    ensures
        y == spec_set_bit(x, n),
{
    if test_bit(x, n) {
        x
    } else {
        x + bit_weight(n)
    }
}

/// `x` with bit `n` forced to zero.
#[verifier::when_used_as_spec(spec_clear_bit)]
pub fn clear_bit(x: u8, n: u8) -> (y: u8)
    requires
        n < 8,
    ensures
        y == spec_clear_bit(x, n),
{
    if test_bit(x, n) {
        x - bit_weight(n)
    } else {
        x
    }
}

/// A bit that was set reads as one, and a bit that was cleared as zero.
pub proof fn lemma_bit_written(x: u8, n: u8)
    requires
        n < 8,
    ensures
        spec_test_bit(spec_set_bit(x, n), n),
        !spec_test_bit(spec_clear_bit(x, n), n),
{
    if n == 0 {
    } else if n == 1 {
    } else if n == 2 {
    } else if n == 3 {
    } else if n == 4 {
    } else if n == 5 {
    } else if n == 6 {
    } else {
    }
}

} // verus!
