//! What holds of the instruction set: the decimal adjustment after sums
//! and differences of decimal digits, the stack, the low nibble of the flag
//! register, and failures.
use crate::bits::{spec_clear_bit, spec_set_bit};
use crate::isa::{
    alu_add, alu_sub, bcd, carry_in, daa_flags, daa_high_fix, daa_low_corrected, daa_low_fix,
    daa_value, lemma_wrap8, wrap8,
};
use crate::state::flag::{spec_carry, spec_half_carry, spec_pack, spec_subtract, spec_zero};
use crate::state::{GbView, MemError, MemView};
use vstd::prelude::*;

verus! {

/// Whether both nibbles of `x` are decimal digits.
pub open spec fn is_bcd(x: u8) -> bool {
    x / 16 <= 9 && x % 16 <= 9
}

/// The number below 100 whose two decimal digits the byte `x` holds.
pub open spec fn bcd_value(x: u8) -> int
    recommends
        is_bcd(x),
{
    (x / 16) * 10 + x % 16
}

/// After an addition the high digit is corrected exactly when Carry is set
/// or the accumulator exceeds 0x99.
pub proof fn lemma_daa_high_fix_after_add(a: u8, f: u8)
    requires
        !spec_subtract(f),
    ensures
        daa_high_fix(a, f) == (spec_carry(f) || a > 0x99),
{
    let t = daa_low_corrected(a, f);
    lemma_wrap8(t);
    if a % 16 > 9 {
        assert(t == a + 6);
    }
}

/// The decimal digits of the sum of two pairs of digits and a carry: the
/// low digit, the carry into the high digit, and the high digit.
spec fn decimal_sum(ah: int, al: int, bh: int, bl: int, ci: int) -> (int, int) {
    let low = al + bl + ci;
    let dl = if low > 9 {
        low - 10
    } else {
        low
    };
    let high = ah + bh + (if low > 9 {
        1int
    } else {
        0
    });
    (dl, high)
}

/// The number with high part `high` and low digit `dl` has these as its
/// decimal digits, once the high part is reduced below 10.
proof fn lemma_decimal_digits(high: int, dl: int)
    requires
        -10 <= high <= 19,
        0 <= dl <= 9,
    ensures
        ({
            let t = 10 * high + dl;
            let dh = if high > 9 {
                high - 10
            } else if high < 0 {
                high + 10
            } else {
                high
            };
            &&& (t % 100) / 10 == dh
            &&& (t % 100) % 10 == dl
            &&& 0 <= dh <= 9
        }),
{
    let t = 10 * high + dl;
    let dh = if high > 9 {
        high - 10
    } else if high < 0 {
        high + 10
    } else {
        high
    };
    let r = 10 * dh + dl;
    assert(0 <= r < 100);
    assert(t == r || t == r + 100 || t == r - 100);
    assert(t % 100 == r);
    assert(r / 10 == dh);
    assert(r % 10 == dl);
}

/// The nibbles of a byte built from a high part and a low nibble.
proof fn lemma_nibbles(high: int, low: int)
    requires
        -16 <= high <= 31,
        0 <= low <= 15,
    ensures
        ({
            let v = (16 * high + low) % 256;
            let h = if high > 15 {
                high - 16
            } else if high < 0 {
                high + 16
            } else {
                high
            };
            &&& v == 16 * h + low
            &&& v / 16 == h
            &&& v % 16 == low
        }),
{
    let h = if high > 15 {
        high - 16
    } else if high < 0 {
        high + 16
    } else {
        high
    };
    let w = 16 * h + low;
    assert(0 <= w < 256);
    assert(16 * high + low == w || 16 * high + low == w + 256 || 16 * high + low == w - 256);
    assert((16 * high + low) % 256 == w);
    assert(w / 16 == h);
    assert(w % 16 == low);
}

/// The sum of two pairs of decimal digits, adjusted digit by digit.
proof fn lemma_daa_add_digits(ah: int, al: int, bh: int, bl: int, ci: int)
    requires
        0 <= ah <= 9,
        0 <= al <= 9,
        0 <= bh <= 9,
        0 <= bl <= 9,
        0 <= ci <= 1,
    ensures
        ({
            let sum = 16 * (ah + bh) + al + bl + ci;
            let t = 10 * (ah + bh) + al + bl + ci;
            let v = sum % 256;
            let h = al + bl + ci > 15;
            let c = sum > 255;
            let low: int = if h || v % 16 > 9 {
                0x06
            } else {
                0
            };
            let fix = c || v > 0x99;
            let high: int = if fix {
                0x60
            } else {
                0
            };
            &&& 0 <= v < 256
            &&& (v + low + high) % 256 == ((t % 100) / 10) * 16 + (t % 100) % 10
            &&& fix == (t >= 100)
        }),
{
    let low = al + bl + ci;
    let sum = 16 * (ah + bh) + low;
    let t = 10 * (ah + bh) + low;
    let d = decimal_sum(ah, al, bh, bl, ci);
    assert(t == 10 * d.1 + d.0);
    lemma_decimal_digits(d.1, d.0);
    let dh = if d.1 > 9 {
        d.1 - 10
    } else {
        d.1
    };
    if low <= 9 {
        lemma_nibbles(ah + bh, low);
        lemma_nibbles(dh, d.0);
    } else if low <= 15 {
        lemma_nibbles(ah + bh, low);
        lemma_nibbles(dh, d.0);
        let v = sum % 256;
        assert(v % 16 == low);
        if ah + bh >= 9 {
            assert(v + 6 + 0x60 == 16 * dh + d.0 + 256 || v + 6 + 0x60 == 16 * dh + d.0);
        } else {
            assert(v + 6 == 16 * dh + d.0);
        }
    } else {
        lemma_nibbles(ah + bh + 1, low - 16);
        lemma_nibbles(dh, d.0);
        let v = sum % 256;
        assert(v % 16 == low - 16);
        if ah + bh + 1 > 9 {
            assert(v + 6 + 0x60 == 16 * dh + d.0 + 256 || v + 6 + 0x60 == 16 * dh + d.0);
        } else {
            assert(v + 6 == 16 * dh + d.0);
        }
    }
}

/// The difference of two pairs of decimal digits, adjusted digit by digit.
proof fn lemma_daa_sub_digits(ah: int, al: int, bh: int, bl: int, ci: int)
    requires
        0 <= ah <= 9,
        0 <= al <= 9,
        0 <= bh <= 9,
        0 <= bl <= 9,
        0 <= ci <= 1,
    ensures
        ({
            let diff = 16 * (ah - bh) + al - bl - ci;
            let t = 10 * (ah - bh) + al - bl - ci;
            let v = diff % 256;
            let h = al < bl + ci;
            let c = diff < 0;
            let low: int = if h || v % 16 > 9 {
                0x06
            } else {
                0
            };
            let fix = c || ((v - low) % 256) / 16 > 9;
            let high: int = if fix {
                0x60
            } else {
                0
            };
            &&& 0 <= v < 256
            &&& 0 <= v - low
            &&& (v - low - high) % 256 == ((t % 100) / 10) * 16 + (t % 100) % 10
            &&& fix == (t < 0)
        }),
{
    let low = al - bl - ci;
    let diff = 16 * (ah - bh) + low;
    let t = 10 * (ah - bh) + low;
    let dl = if low < 0 {
        low + 10
    } else {
        low
    };
    let high = ah - bh - (if low < 0 {
        1int
    } else {
        0
    });
    assert(t == 10 * high + dl);
    lemma_decimal_digits(high, dl);
    let dh = if high < 0 {
        high + 10
    } else {
        high
    };
    let v = diff % 256;
    if low < 0 {
        assert(diff == 16 * high + (low + 16));
        lemma_nibbles(high, low + 16);
        assert(v % 16 == low + 16);
        let bh_ = if high < 0 {
            high + 16
        } else {
            high
        };
        assert(v - 6 == 16 * bh_ + dl);
        lemma_nibbles(bh_, dl);
    } else {
        lemma_nibbles(high, low);
        assert(v % 16 == low);
        let bh_ = if high < 0 {
            high + 16
        } else {
            high
        };
        assert(v == 16 * bh_ + dl);
        lemma_nibbles(bh_, dl);
    }
    lemma_nibbles(dh, dl);
}

/// After an addition of two bytes of decimal digits, with or without a
/// carry in, the decimal adjustment leaves the two low digits of the
/// decimal sum in the accumulator and sets Carry exactly when the decimal
/// sum reaches 100; Zero says that the adjusted accumulator is 0, and
/// Subtract and Half-carry are clear.
pub proof fn lemma_daa_after_add(a: u8, b: u8, c: bool)
    requires
        is_bcd(a),
        is_bcd(b),
    ensures
        daa_value(alu_add(a, b, c).0, alu_add(a, b, c).1) == bcd(
            (bcd_value(a) + bcd_value(b) + carry_in(c)) % 100,
        ),
        spec_carry(daa_flags(alu_add(a, b, c).0, alu_add(a, b, c).1)) == (bcd_value(a)
            + bcd_value(b) + carry_in(c) >= 100),
        !spec_half_carry(daa_flags(alu_add(a, b, c).0, alu_add(a, b, c).1)),
        !spec_subtract(daa_flags(alu_add(a, b, c).0, alu_add(a, b, c).1)),
        spec_zero(daa_flags(alu_add(a, b, c).0, alu_add(a, b, c).1)) == (daa_value(
            alu_add(a, b, c).0,
            alu_add(a, b, c).1,
        ) == 0),
{
    let ci = carry_in(c);
    let sum = a + b + ci;
    let v = alu_add(a, b, c).0;
    let f = alu_add(a, b, c).1;
    crate::state::flag::lemma_pack_reads_back(
        wrap8(sum) == 0,
        false,
        a % 16 + b % 16 + ci > 15,
        sum > 255,
    );
    assert(sum == 16 * (a / 16 + b / 16) + a % 16 + b % 16 + ci);
    lemma_daa_add_digits((a / 16) as int, (a % 16) as int, (b / 16) as int, (b % 16) as int, ci);
    lemma_daa_high_fix_after_add(v, f);
    crate::state::flag::lemma_pack_reads_back(
        daa_value(v, f) == 0,
        spec_subtract(f),
        false,
        daa_high_fix(v, f),
    );
}

/// After a subtraction of two bytes of decimal digits, with or without a
/// borrow in, the decimal adjustment leaves the two low digits of the
/// decimal difference in the accumulator and sets Carry exactly when the
/// difference is negative; Zero says that the adjusted accumulator is 0,
/// Subtract stays set and Half-carry is clear.
pub proof fn lemma_daa_after_sub(a: u8, b: u8, c: bool)
    requires
        is_bcd(a),
        is_bcd(b),
    ensures
        daa_value(alu_sub(a, b, c).0, alu_sub(a, b, c).1) == bcd(
            (bcd_value(a) - bcd_value(b) - carry_in(c)) % 100,
        ),
        spec_carry(daa_flags(alu_sub(a, b, c).0, alu_sub(a, b, c).1)) == (bcd_value(a)
            - bcd_value(b) - carry_in(c) < 0),
        !spec_half_carry(daa_flags(alu_sub(a, b, c).0, alu_sub(a, b, c).1)),
        spec_subtract(daa_flags(alu_sub(a, b, c).0, alu_sub(a, b, c).1)),
        spec_zero(daa_flags(alu_sub(a, b, c).0, alu_sub(a, b, c).1)) == (daa_value(
            alu_sub(a, b, c).0,
            alu_sub(a, b, c).1,
        ) == 0),
{
    let ci = carry_in(c);
    let diff = a - b - ci;
    let v = alu_sub(a, b, c).0;
    let f = alu_sub(a, b, c).1;
    crate::state::flag::lemma_pack_reads_back(
        wrap8(diff) == 0,
        true,
        a % 16 < b % 16 + ci,
        diff < 0,
    );
    assert(diff == 16 * (a / 16 - b / 16) + a % 16 - b % 16 - ci);
    lemma_daa_sub_digits((a / 16) as int, (a % 16) as int, (b / 16) as int, (b % 16) as int, ci);
    assert(daa_low_corrected(v, f) == v - (if daa_low_fix(v, f) {
        6int
    } else {
        0
    }));
    crate::state::flag::lemma_pack_reads_back(
        daa_value(v, f) == 0,
        spec_subtract(f),
        false,
        daa_high_fix(v, f),
    );
}

/// What is pushed is what is popped next, and the pop restores the stack
/// pointer.
pub proof fn lemma_push_pop(s: GbView, x: u16)
    requires
        s.wf(),
        s.can_push(),
    ensures
        s.push(x).can_pop(),
        s.push(x).pop().1 == x,
        s.push(x).pop().0.cpu.sp == s.cpu.sp,
        s.push(x).wf(),
{
    reveal(MemView::read);
    reveal(MemView::write);
}

/// Whether the low nibble of the flag register is zero, as it is kept.
pub open spec fn flags_clean(s: GbView) -> bool {
    s.wf() && s.cpu.f() % 16 == 0
}

/// Storing an operand keeps the flag register: no operand field selects
/// it.
pub proof fn lemma_w_reg_keeps_flags(s: GbView, r_i: u8, value: u8)
    requires
        s.wf(),
        r_i < 8,
    ensures
        s.w_reg(r_i, value).cpu.f() == s.cpu.f(),
        s.w_reg(r_i, value).cpu.wf(),
{
}

/// The jumps of the first group keep the registers.
pub proof fn lemma_op00_jumps_flags(s: GbView, n1: u8)
    requires
        flags_clean(s),
        n1 < 8,
    ensures
        s.op00_jumps(n1).0.cpu.r == s.cpu.r,
{
}

/// The accumulator operations of the first group leave no bit in the low
/// nibble of the flag register.
pub proof fn lemma_op00_accumulator_flags(s: GbView, n1: u8)
    requires
        flags_clean(s),
        n1 < 8,
    ensures
        s.op00_accumulator(n1).0.cpu.f() % 16 == 0,
        s.op00_accumulator(n1).0.cpu.wf(),
{
    crate::state::flag::lemma_pack_low_nibble();
}

/// Increments and decrements leave no bit in the low nibble of the flag
/// register.
pub proof fn lemma_inc_dec_flags(s: GbView, n1: u8)
    requires
        flags_clean(s),
        n1 < 8,
    ensures
        s.inc8(n1).cpu.f() % 16 == 0,
        s.inc8(n1).cpu.wf(),
        s.dec8(n1).cpu.f() % 16 == 0,
        s.dec8(n1).cpu.wf(),
        s.inc16(n1 / 2).cpu.f() % 16 == 0,
        s.inc16(n1 / 2).cpu.wf(),
        s.dec16(n1 / 2).cpu.f() % 16 == 0,
        s.dec16(n1 / 2).cpu.wf(),
{
    crate::state::flag::lemma_pack_low_nibble();
}

/// The loads of the first group keep the flag register.
pub proof fn lemma_op00_loads_flags(s: GbView, n1: u8)
    requires
        flags_clean(s),
        n1 < 8,
    ensures
        s.fetch16().0.ldrr16(n1 / 2, s.fetch16().1).cpu.f() == s.cpu.f(),
        s.fetch16().0.ldrr16(n1 / 2, s.fetch16().1).cpu.wf(),
        s.ld00a(n1).cpu.f() == s.cpu.f(),
        s.ld00a(n1).cpu.wf(),
        s.ldr8(n1).cpu.f() == s.cpu.f(),
        s.ldr8(n1).cpu.wf(),
{
    lemma_w_reg_keeps_flags(s.fetch8().0, n1, s.fetch8().1);
}

/// No instruction of the first group leaves a bit in the low nibble of the
/// flag register.
pub proof fn lemma_op00_flags(s: GbView, n1: u8, n2: u8)
    requires
        flags_clean(s),
        n1 < 8,
        n2 < 8,
    ensures
        s.op00(n1, n2).0.cpu.f() % 16 == 0,
        s.op00(n1, n2).0.cpu.wf(),
{
    reveal(GbView::op00);
    if n2 == 0 {
        lemma_op00_jumps_flags(s, n1);
    } else if n2 == 1 || n2 == 2 || n2 == 6 {
        lemma_op00_loads_flags(s, n1);
    } else if n2 == 7 {
        lemma_op00_accumulator_flags(s, n1);
    } else {
        lemma_inc_dec_flags(s, n1);
    }
}

/// No load between operands leaves a bit in the low nibble of the flag
/// register.
pub proof fn lemma_op01_flags(s: GbView, n1: u8, n2: u8)
    requires
        flags_clean(s),
        n1 < 8,
        n2 < 8,
    ensures
        s.op01(n1, n2).0.cpu.f() % 16 == 0,
        s.op01(n1, n2).0.cpu.wf(),
{
    reveal(GbView::op01);
}

/// No ALU operation leaves a bit in the low nibble of the flag register.
pub proof fn lemma_op10_flags(s: GbView, n1: u8, n2: u8)
    requires
        flags_clean(s),
        n1 < 8,
        n2 < 8,
    ensures
        s.op10(n1, n2).0.cpu.f() % 16 == 0,
        s.op10(n1, n2).0.cpu.wf(),
{
    reveal(GbView::op10);
    crate::state::flag::lemma_pack_low_nibble();
}

/// No instruction of the second opcode page leaves a bit in the low nibble
/// of the flag register.
pub proof fn lemma_op_bitwise_flags(s: GbView)
    requires
        flags_clean(s),
    ensures
        s.op_bitwise().0.cpu.f() % 16 == 0,
        s.op_bitwise().0.cpu.wf(),
{
    reveal(GbView::op_bitwise);
    let t = s.fetch8().0;
    let p = s.fetch8().1;
    let n1 = (p / 8) % 8;
    let n2 = p % 8;
    assert forall|value: u8, carry: bool|
        (#[trigger] t.rotated(n2, value, carry)).cpu.f() % 16 == 0 && t.rotated(
            n2,
            value,
            carry,
        ).cpu.wf() by {
        crate::state::flag::lemma_pack_low_nibble();
        lemma_w_reg_keeps_flags(t.with_f(spec_pack(false, false, false, carry)), n2, value);
    }
    assert forall|value: u8, carry: bool|
        (#[trigger] t.shifted(n2, value, carry)).cpu.f() % 16 == 0 && t.shifted(
            n2,
            value,
            carry,
        ).cpu.wf() by {
        crate::state::flag::lemma_pack_low_nibble();
        lemma_w_reg_keeps_flags(t.with_f(spec_pack(value == 0, false, false, carry)), n2, value);
    }
    assert(t.bit(n1, n2).cpu.f() % 16 == 0 && t.bit(n1, n2).cpu.wf()) by {
        crate::state::flag::lemma_pack_low_nibble();
    }
    lemma_w_reg_keeps_flags(t, n2, spec_clear_bit(t.r_reg(n2), n1));
    lemma_w_reg_keeps_flags(t, n2, spec_set_bit(t.r_reg(n2), n1));
}

/// An ALU operation leaves no bit in the low nibble of the flag register.
pub proof fn lemma_alu_flags(s: GbView, n1: u8, x: u8)
    requires
        flags_clean(s),
    ensures
        s.alu(n1, x).cpu.f() % 16 == 0,
        s.alu(n1, x).cpu.wf(),
        s.alu(n1, x).mem == s.mem,
{
    crate::state::flag::lemma_pack_low_nibble();
}

/// Column 0 of the last group leaves no bit in the low nibble of the flag
/// register.
pub proof fn lemma_op11_high_loads_flags(s: GbView, n1: u8)
    requires
        flags_clean(s),
        n1 < 8,
    ensures
        s.op11_high_loads(n1).0.cpu.f() % 16 == 0,
        s.op11_high_loads(n1).0.cpu.wf(),
{
    if n1 == 5 {
        crate::state::flag::lemma_pack_low_nibble();
    } else if n1 == 4 {
        assert(s.fetch8().0.ldnna((0xff00 + s.fetch8().1) as u16).cpu.r == s.cpu.r);
    } else if n1 == 6 {
        assert(s.fetch8().0.ldann((0xff00 + s.fetch8().1) as u16).cpu.f() == s.cpu.f());
    } else if n1 == 7 {
        assert(s.ldhlsp8().cpu.f() == s.cpu.f());
    } else {
        assert(s.retcc(n1).0.cpu.r == s.cpu.r);
    }
}

/// Column 1 of the last group leaves no bit in the low nibble of the flag
/// register: POP AF clears that nibble.
pub proof fn lemma_op11_returns_flags(s: GbView, n1: u8)
    requires
        flags_clean(s),
        n1 < 8,
    ensures
        s.op11_returns(n1).0.cpu.f() % 16 == 0,
        s.op11_returns(n1).0.cpu.wf(),
{
    if n1 == 1 {
        assert(s.ret().0.cpu.r == s.cpu.r);
    } else if n1 == 3 {
        assert(s.reti().0.cpu.r == s.cpu.r);
    } else if n1 == 5 {
        assert(s.jphl().cpu.r == s.cpu.r);
    } else if n1 == 7 {
        assert(s.ldsphl().cpu.r == s.cpu.r);
    } else {
        let rr = n1 / 2;
        if s.can_pop() {
            let value = s.pop().1;
            let cpu = s.pop().0.cpu.set_stack_pair(rr, value);
            assert(s.pop().0.cpu.r == s.cpu.r);
            if rr == 3 {
                assert(cpu.f() == value % 256 - value % 16);
            } else {
                assert(cpu.f() == s.cpu.f());
            }
        }
    }
}

/// Column 2 of the last group keeps the flag register but for a load of
/// the accumulator, which does not touch it either.
pub proof fn lemma_op11_absolute_loads_flags(s: GbView, n1: u8)
    requires
        flags_clean(s),
        n1 < 8,
    ensures
        s.op11_absolute_loads(n1).0.cpu.f() == s.cpu.f(),
        s.op11_absolute_loads(n1).0.cpu.wf(),
{
}

/// Column 3 of the last group leaves no bit in the low nibble of the flag
/// register.
pub proof fn lemma_op11_control_flags(s: GbView, n1: u8)
    requires
        flags_clean(s),
        n1 < 8,
    ensures
        s.op11_control(n1).0.cpu.f() % 16 == 0,
        s.op11_control(n1).0.cpu.wf(),
{
    if n1 == 1 {
        lemma_op_bitwise_flags(s);
    }
}

/// Calls and pushes keep the registers.
pub proof fn lemma_op11_calls_flags(s: GbView, n1: u8, n2: u8)
    requires
        flags_clean(s),
        n1 < 8,
    ensures
        s.op11_calls(n1, n2).0.cpu.r == s.cpu.r,
{
}

/// No instruction of the last group leaves a bit in the low nibble of the
/// flag register.
pub proof fn lemma_op11_flags(s: GbView, n1: u8, n2: u8)
    requires
        flags_clean(s),
        n1 < 8,
        n2 < 8,
    ensures
        s.op11(n1, n2).0.cpu.f() % 16 == 0,
        s.op11(n1, n2).0.cpu.wf(),
{
    reveal(GbView::op11);
    if n2 == 0 {
        lemma_op11_high_loads_flags(s, n1);
    } else if n2 == 1 {
        lemma_op11_returns_flags(s, n1);
    } else if n2 == 2 {
        lemma_op11_absolute_loads_flags(s, n1);
    } else if n2 == 3 {
        lemma_op11_control_flags(s, n1);
    } else if n2 == 4 || n2 == 5 {
        lemma_op11_calls_flags(s, n1, n2);
    } else if n2 == 6 {
        lemma_alu_flags(s.fetch8().0, n1, s.fetch8().1);
    }
}

/// The low nibble of the flag register reads as zero after every step of
/// the CPU, provided it did before.
pub proof fn lemma_flags_stay_clean(s: GbView)
    requires
        flags_clean(s),
    ensures
        s.exec_opcode().0.cpu.f() % 16 == 0,
        s.exec_opcode().0.cpu.wf(),
{
    let fetched = s.with_halt(false).fetch8();
    let opcode = fetched.1;
    let n1 = (opcode / 8) % 8;
    let n2 = opcode % 8;
    lemma_op00_flags(fetched.0, n1, n2);
    lemma_op01_flags(fetched.0, n1, n2);
    lemma_op10_flags(fetched.0, n1, n2);
    lemma_op11_flags(fetched.0, n1, n2);
}

/// An instruction that fails changes nothing: neither an opcode that names
/// no instruction nor a stack outside its window leaves a trace beyond the
/// fetch of the opcode.
pub proof fn lemma_failure_changes_nothing(s: GbView, opcode: u8)
    ensures
        s.decode(opcode).1 is Err ==> s.decode(opcode).0 == s,
        s.exec_opcode().1 is Err ==> s.exec_opcode().0 == s,
{
    let n1 = (opcode / 8) % 8;
    let n2 = opcode % 8;
    lemma_group_failure_changes_nothing(s, n1, n2);
}

/// A failing instruction of the first group changes nothing.
pub proof fn lemma_op00_failure(s: GbView, n1: u8, n2: u8)
    ensures
        s.op00(n1, n2).1 is Err ==> s.op00(n1, n2).0 == s,
{
    reveal(GbView::op00);
    assert(s.op00_accumulator(n1).1 is Ok);
    assert(s.op00_jumps(n1).1 is Err ==> s.op00_jumps(n1).0 == s);
}

/// A failing return or pop changes nothing.
pub proof fn lemma_op11_returns_failure(s: GbView, n1: u8)
    ensures
        s.op11_high_loads(n1).1 is Err ==> s.op11_high_loads(n1).0 == s,
        s.op11_returns(n1).1 is Err ==> s.op11_returns(n1).0 == s,
{
}

/// A failing call or push changes nothing, and the control instructions
/// fail only where a byte is no opcode.
pub proof fn lemma_op11_calls_failure(s: GbView, n1: u8, n2: u8)
    ensures
        s.op11_absolute_loads(n1).1 is Ok,
        s.op_bitwise().1 is Ok,
        s.op11_control(n1).1 is Err ==> s.op11_control(n1).0 == s,
        s.op11_calls(n1, n2).1 is Err ==> s.op11_calls(n1, n2).0 == s,
{
    reveal(GbView::op_bitwise);
}

/// The same, group by group: the loads between operands, the ALU
/// operations and the second opcode page never fail, and a failing
/// instruction of the other two groups changes nothing.
pub proof fn lemma_group_failure_changes_nothing(s: GbView, n1: u8, n2: u8)
    ensures
        s.op00(n1, n2).1 is Err ==> s.op00(n1, n2).0 == s,
        s.op01(n1, n2).1 is Ok,
        s.op10(n1, n2).1 is Ok,
        s.op_bitwise().1 is Ok,
        s.op11(n1, n2).1 is Err ==> s.op11(n1, n2).0 == s,
{
    lemma_op00_failure(s, n1, n2);
    reveal(GbView::op01);
    reveal(GbView::op10);
    reveal(GbView::op11);
    lemma_op11_returns_failure(s, n1);
    lemma_op11_calls_failure(s, n1, n2);
}

/// The opcodes that name an instruction of this core. The others are STOP,
/// ADD HL,rr, RST and the eleven bytes that are no opcode at all.
pub open spec fn spec_implemented(opcode: u8) -> bool {
    let n1 = (opcode / 8) % 8;
    let n2 = opcode % 8;
    if opcode / 64 == 0 {
        !(n2 == 0 && n1 == 2) && !(n2 == 1 && n1 % 2 == 1)
    } else if opcode / 64 == 3 {
        if n2 == 3 {
            n1 == 0 || n1 == 1 || n1 == 6 || n1 == 7
        } else if n2 == 4 {
            n1 < 4
        } else if n2 == 5 {
            n1 == 1 || n1 % 2 == 0
        } else {
            n2 != 7
        }
    } else {
        true
    }
}

/// In the first group STOP and ADD HL,rr alone want an implementation.
pub proof fn lemma_op00_unimplemented(s: GbView, n1: u8, n2: u8)
    requires
        n1 < 8,
        n2 < 8,
    ensures
        s.op00(n1, n2).1 == Err::<u64, MemError>(MemError::Unimplemented) <==> ((n2 == 0 && n1
            == 2) || (n2 == 1 && n1 % 2 == 1)),
{
    reveal(GbView::op00);
    assert(s.op00_accumulator(n1).1 is Ok);
}

/// In the last group RST and the eleven bytes that are no opcode alone
/// want an implementation.
pub proof fn lemma_op11_unimplemented(s: GbView, n1: u8, n2: u8)
    requires
        n1 < 8,
        n2 < 8,
    ensures
        s.op11(n1, n2).1 == Err::<u64, MemError>(MemError::Unimplemented) <==> ((n2 == 3 && 2
            <= n1 <= 5) || (n2 == 4 && n1 >= 4) || (n2 == 5 && n1 % 2 == 1 && n1 != 1) || n2
            == 7),
{
    reveal(GbView::op11);
    reveal(GbView::op_bitwise);
    assert(s.op_bitwise().1 is Ok);
    assert(s.op11_high_loads(n1).1 != Err::<u64, MemError>(MemError::Unimplemented));
    assert(s.op11_returns(n1).1 != Err::<u64, MemError>(MemError::Unimplemented));
    assert(s.op11_absolute_loads(n1).1 is Ok);
}

/// An instruction fails for want of an implementation exactly on the
/// opcodes that name none.
pub proof fn lemma_unimplemented(s: GbView, opcode: u8)
    ensures
        s.decode(opcode).1 == Err::<u64, MemError>(MemError::Unimplemented) <==> !spec_implemented(
            opcode,
        ),
{
    let n1 = (opcode / 8) % 8;
    let n2 = opcode % 8;
    lemma_op00_unimplemented(s, n1, n2);
    lemma_op11_unimplemented(s, n1, n2);
    reveal(GbView::op01);
    reveal(GbView::op10);
}

} // verus!
