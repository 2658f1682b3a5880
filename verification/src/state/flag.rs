//! Condition codes and the flag bits of the F register.
//!
//! The flags live in the high nibble of F: bit 7 Zero, bit 6 Subtract,
//! bit 5 Half-carry, bit 4 Carry. The low nibble is always zero in a byte
//! built by [`pack`].
use vstd::prelude::*;

verus! {

/// Condition code: the Zero flag is clear.
pub const NZ: u8 = 0;

/// Condition code: the Zero flag is set.
pub const Z: u8 = 1;

/// Condition code: the Carry flag is clear.
pub const NC: u8 = 2;

/// Condition code: the Carry flag is set.
pub const C: u8 = 3;

/// Carry flag mask.
pub const CY: u8 = 0x10;

/// Half-carry flag mask.
pub const H: u8 = 0x20;

/// Subtract flag mask.
pub const N: u8 = 0x40;

/// Zero flag mask.
pub const ZF: u8 = 0x80;

/// Whether the Zero flag is set in the flag byte `f`.
pub open spec fn spec_zero(f: u8) -> bool {
    f >= 128
}

/// Whether the Subtract flag is set in the flag byte `f`.
pub open spec fn spec_subtract(f: u8) -> bool {
    (f / 64) % 2 == 1
}

/// Whether the Half-carry flag is set in the flag byte `f`.
pub open spec fn spec_half_carry(f: u8) -> bool {
    (f / 32) % 2 == 1
}

/// Whether the Carry flag is set in the flag byte `f`.
pub open spec fn spec_carry(f: u8) -> bool {
    (f / 16) % 2 == 1
}

/// The flag byte with the four flags as given and a zero low nibble.
pub open spec fn spec_pack(z: bool, n: bool, h: bool, c: bool) -> u8 {
    ((if z { 128int } else { 0 }) + (if n { 64int } else { 0 }) + (if h { 32int } else { 0 }) + (if c { 16int } else { 0 })) as u8
}

/// Whether the Zero flag is set in the flag byte `f`.
#[verifier::when_used_as_spec(spec_zero)]
pub fn zero(f: u8) -> (b: bool)
    ensures
        b == spec_zero(f),
{
    f >= 128
}

/// Whether the Subtract flag is set in the flag byte `f`.
#[verifier::when_used_as_spec(spec_subtract)]
pub fn subtract(f: u8) -> (b: bool)
    ensures
        b == spec_subtract(f),
{
    (f / 64) % 2 == 1
}

/// Whether the Half-carry flag is set in the flag byte `f`.
#[verifier::when_used_as_spec(spec_half_carry)]
pub fn half_carry(f: u8) -> (b: bool)
    ensures
        b == spec_half_carry(f),
{
    (f / 32) % 2 == 1
}

/// Whether the Carry flag is set in the flag byte `f`.
#[verifier::when_used_as_spec(spec_carry)]
pub fn carry(f: u8) -> (b: bool)
    ensures
        b == spec_carry(f),
{
    (f / 16) % 2 == 1
}

/// The flag byte with the four flags as given and a zero low nibble.
#[verifier::when_used_as_spec(spec_pack)]
pub fn pack(z: bool, n: bool, h: bool, c: bool) -> (f: u8)
    ensures
        f == spec_pack(z, n, h, c),
        f % 16 == 0,
        spec_zero(f) == z,
        spec_subtract(f) == n,
        spec_half_carry(f) == h,
        spec_carry(f) == c,
{
    let mut f: u8 = 0;
    if z {
        f = f + 128;
    }
    if n {
        f = f + 64;
    }
    if h {
        f = f + 32;
    }
    if c {
        f = f + 16;
    }
    f
}

/// A packed flag byte reads back the four flags it was built from, and its
/// low nibble is zero.
pub proof fn lemma_pack_reads_back(z: bool, n: bool, h: bool, c: bool)
    ensures
        spec_zero(spec_pack(z, n, h, c)) == z,
        spec_subtract(spec_pack(z, n, h, c)) == n,
        spec_half_carry(spec_pack(z, n, h, c)) == h,
        spec_carry(spec_pack(z, n, h, c)) == c,
        spec_pack(z, n, h, c) % 16 == 0,
{
}

/// Every packed flag byte has a zero low nibble.
pub proof fn lemma_pack_low_nibble()
    ensures
        forall|z: bool, n: bool, h: bool, c: bool| #[trigger] spec_pack(z, n, h, c) % 16 == 0,
{
}

} // verus!
