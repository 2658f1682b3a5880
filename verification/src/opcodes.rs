//! The instructions of the CPU.
//!
//! Each function carries out one instruction on the machine and is proved
//! to compute what the instruction set says of it.
use crate::bits::{clear_bit, set_bit, test_bit};
use crate::isa::{alu_add, alu_and, alu_or, alu_sub, alu_xor, carry_in, signed8, wrap16, wrap8};
use crate::state::flag;
use crate::state::reg;
use crate::state::{GBState, GbView, MemError};
use vstd::prelude::*;

verus! {

/// Fetches the 16-bit value at the program counter.
pub fn r_16b_from_pc(state: &mut GBState) -> (res: Result<u16, MemError>)
    ensures
        res == Ok::<u16, MemError>(old(state)@.fetch16().1),
        final(state)@ == old(state)@.fetch16().0,
{
    let low: u8 = state.mem.r(state.cpu.pc)?;
    let high: u8 = state.mem.r(state.cpu.pc.wrapping_add(1))?;
    state.cpu.pc = state.cpu.pc.wrapping_add(2);
    Ok(low as u16 + high as u16 * 256)
}

/// Fetches the byte at the program counter.
pub fn r_8b_from_pc(state: &mut GBState) -> (res: Result<u8, MemError>)
    ensures
        res == Ok::<u8, MemError>(old(state)@.fetch8().1),
        final(state)@ == old(state)@.fetch8().0,
{
    let p: u8 = state.mem.r(state.cpu.pc)?;
    state.cpu.pc = state.cpu.pc.wrapping_add(1);
    Ok(p)
}

/// LD r, r'.
pub fn ldrr(state: &mut GBState, n1: u8, n2: u8) -> (res: Result<(), MemError>)
    requires
        n1 < 8,
        n2 < 8,
    ensures
        res is Ok,
        final(state)@ == old(state)@.ldrr(n1, n2),
{
    let value: u8 = state.r_reg(n2)?;
    state.w_reg(n1, value)
}

/// LD r, n.
pub fn ldr8(state: &mut GBState, n1: u8) -> (res: Result<(), MemError>)
    requires
        n1 < 8,
    ensures
        res is Ok,
        final(state)@ == old(state)@.ldr8(n1),
{
    let p: u8 = r_8b_from_pc(state)?;
    state.w_reg(n1, p)
}

/// LD rr, x.
pub fn ldrr16(state: &mut GBState, rr: u8, x: u16)
    requires
        rr <= 3,
    ensures
        final(state)@ == old(state)@.ldrr16(rr, x),
{
    state.cpu.w16(rr, x);
}

/// LD (nn), SP.
pub fn ldnnsp(state: &mut GBState) -> (res: Result<(), MemError>)
    ensures
        res is Ok,
        final(state)@ == old(state)@.ldnnsp(),
{
    let p: u16 = r_16b_from_pc(state)?;
    state.mem.w(p, (state.cpu.sp % 256) as u8)?;
    state.mem.w(p.wrapping_add(1), (state.cpu.sp / 256) as u8)
}

/// LD SP, HL.
pub fn ldsphl(state: &mut GBState)
    ensures
        final(state)@ == old(state)@.ldsphl(),
{
    state.cpu.sp = state.cpu.r16(reg::HL);
}

/// LD (nn), A.
pub fn ldnna(state: &mut GBState, nn: u16) -> (res: Result<(), MemError>)
    ensures
        res is Ok,
        final(state)@ == old(state)@.ldnna(nn),
{
    state.mem.w(nn, state.cpu.r[6])?;
    Ok(())
}

/// LD A, (nn).
pub fn ldann(state: &mut GBState, nn: u16) -> (res: Result<(), MemError>)
    ensures
        res is Ok,
        final(state)@ == old(state)@.ldann(nn),
{
    let value: u8 = state.mem.r(nn)?;
    state.cpu.r[6] = value;
    Ok(())
}

/// Pushes `x`. Fails, and changes nothing, if the stack pointer would leave
/// the stack's window in high RAM.
pub fn push(state: &mut GBState, x: u16) -> (res: Result<(), MemError>)
    ensures
        (final(state)@, res) == old(state)@.try_push(x),
{
    if state.cpu.sp > 0xfffe || state.cpu.sp < 0xff82 {
        return Err(MemError::StackOverflow);
    }
    state.cpu.sp = state.cpu.sp - 2;
    state.mem.w(state.cpu.sp, (x % 256) as u8)?;
    state.mem.w(state.cpu.sp + 1, (x / 256) as u8)?;
    Ok(())
}

/// Pops a 16-bit value. Fails, and changes nothing, if the stack pointer is
/// outside the stack's window in high RAM.
pub fn pop(state: &mut GBState) -> (res: Result<u16, MemError>)
    ensures
        (final(state)@, res) == old(state)@.try_pop(),
{
    if state.cpu.sp > 0xfffc || state.cpu.sp < 0xff80 {
        return Err(MemError::StackOverflow);
    }
    let low: u8 = state.mem.r(state.cpu.sp)?;
    let high: u8 = state.mem.r(state.cpu.sp + 1)?;
    state.cpu.sp = state.cpu.sp + 2;
    Ok(low as u16 + high as u16 * 256)
}

/// Moves the program counter by the signed byte `p`.
pub fn jump_relative(state: &mut GBState, p: u8)
    ensures
        final(state)@ == old(state)@.relative(p),
{
    if p < 128 {
        state.cpu.pc = state.cpu.pc.wrapping_add(p as u16);
    } else {
        state.cpu.pc = state.cpu.pc.wrapping_sub(256 - p as u16);
    }
}

/// JR n.
pub fn jr8(state: &mut GBState) -> (res: Result<(), MemError>)
    ensures
        res is Ok,
        final(state)@ == old(state)@.jr8(),
{
    let p: u8 = r_8b_from_pc(state)?;
    jump_relative(state, p);
    Ok(())
}

/// JR cc, n.
pub fn jrcc8(state: &mut GBState, n1: u8) -> (res: Result<(), MemError>)
    ensures
        res is Ok,
        final(state)@ == old(state)@.jrcc8(n1),
{
    let p: u8 = r_8b_from_pc(state)?;
    if state.cpu.check_flag(n1 % 4) {
        jump_relative(state, p);
    }
    Ok(())
}

/// JP nn.
pub fn jp16(state: &mut GBState) -> (res: Result<(), MemError>)
    ensures
        res is Ok,
        final(state)@ == old(state)@.jp16(),
{
    let p: u16 = r_16b_from_pc(state)?;
    state.cpu.pc = p;
    Ok(())
}

/// JP HL.
pub fn jphl(state: &mut GBState)
    ensures
        final(state)@ == old(state)@.jphl(),
{
    state.cpu.pc = state.cpu.r16(reg::HL);
}

/// JP cc, nn.
pub fn jpcc16(state: &mut GBState, n1: u8) -> (res: Result<(), MemError>)
    ensures
        res is Ok,
        final(state)@ == old(state)@.jpcc16(n1),
{
    let p: u16 = r_16b_from_pc(state)?;
    if state.cpu.check_flag(n1 % 4) {
        state.cpu.pc = p;
    }
    Ok(())
}

/// Whether two bytes can be pushed.
pub fn can_push(state: &GBState) -> (room: bool)
    ensures
        room == state@.can_push(),
{
    state.cpu.sp >= 0xff82 && state.cpu.sp <= 0xfffe
}

/// CALL nn. Fails, and changes nothing, if the stack has no room.
pub fn call(state: &mut GBState) -> (res: Result<(), MemError>)
    ensures
        (final(state)@, res) == old(state)@.call(),
{
    if !can_push(state) {
        return Err(MemError::StackOverflow);
    }
    let p: u16 = r_16b_from_pc(state)?;
    push(state, state.cpu.pc)?;
    state.cpu.pc = p;
    Ok(())
}

/// CALL cc, nn. Fails, and changes nothing, if the call is taken and the
/// stack has no room.
pub fn callcc(state: &mut GBState, n1: u8) -> (res: Result<(), MemError>)
    ensures
        (final(state)@, res) == old(state)@.callcc(n1),
{
    if state.cpu.check_flag(n1 % 4) {
        call(state)
    } else {
        r_16b_from_pc(state)?;
        Ok(())
    }
}

/// RET.
pub fn ret(state: &mut GBState) -> (res: Result<(), MemError>)
    ensures
        (final(state)@, res) == old(state)@.ret(),
{
    let pc: u16 = pop(state)?;
    state.cpu.pc = pc;
    Ok(())
}

/// RET cc.
pub fn retcc(state: &mut GBState, n1: u8) -> (res: Result<(), MemError>)
    ensures
        (final(state)@, res) == old(state)@.retcc(n1),
{
    if state.cpu.check_flag(n1 % 4) {
        let pc: u16 = pop(state)?;
        state.cpu.pc = pc;
    }
    Ok(())
}

/// RETI.
pub fn reti(state: &mut GBState) -> (res: Result<(), MemError>)
    ensures
        (final(state)@, res) == old(state)@.reti(),
{
    let pc: u16 = pop(state)?;
    state.cpu.pc = pc;
    state.mem.ime = true;
    Ok(())
}

/// Moves HL up or down by one, wrapping at the ends of memory.
pub fn step_hl(state: &mut GBState, up: bool)
    ensures
        final(state)@ == old(state)@.with_cpu(
            old(state)@.cpu.w16(
                reg::HL,
                wrap16(
                    if up {
                        old(state)@.cpu.r16(reg::HL) + 1
                    } else {
                        old(state)@.cpu.r16(reg::HL) - 1
                    },
                ),
            ),
        ),
{
    let hl: u16 = state.cpu.r16(reg::HL);
    let moved: u16 = if up {
        hl.wrapping_add(1)
    } else {
        hl.wrapping_sub(1)
    };
    state.cpu.w16(reg::HL, moved);
}

/// LD (rr), A and LD A, (rr), with HL incremented or decremented afterwards
/// in the forms that say so.
pub fn ld00a(state: &mut GBState, n1: u8) -> (res: Result<(), MemError>)
    requires
        n1 < 8,
    ensures
        res is Ok,
        final(state)@ == old(state)@.ld00a(n1),
{
    let ptr_reg: u8 = if n1 / 2 == 0 {
        reg::BC
    } else if n1 / 2 == 1 {
        reg::DE
    } else {
        reg::HL
    };
    if n1 % 2 == 1 {
        ldann(state, state.cpu.r16(ptr_reg))?;
    } else {
        ldnna(state, state.cpu.r16(ptr_reg))?;
    }
    if n1 / 2 == 2 {
        step_hl(state, true);
    } else if n1 / 2 == 3 {
        step_hl(state, false);
    }
    Ok(())
}

/// INC r.
pub fn inc8(state: &mut GBState, n1: u8) -> (res: Result<(), MemError>)
    requires
        n1 < 8,
    ensures
        res is Ok,
        final(state)@ == old(state)@.inc8(n1),
{
    let carry: bool = flag::carry(state.cpu.r[7]);
    let value: u8 = state.r_reg(n1)?.wrapping_add(1);
    state.w_reg(n1, value)?;
    state.cpu.r[7] = flag::pack(value == 0, false, value % 16 == 0, carry);
    Ok(())
}

/// DEC r.
pub fn dec8(state: &mut GBState, n1: u8) -> (res: Result<(), MemError>)
    requires
        n1 < 8,
    ensures
        res is Ok,
        final(state)@ == old(state)@.dec8(n1),
{
    let carry: bool = flag::carry(state.cpu.r[7]);
    let value: u8 = state.r_reg(n1)?.wrapping_sub(1);
    state.w_reg(n1, value)?;
    state.cpu.r[7] = flag::pack(value == 0, false, value % 16 == 15, carry);
    Ok(())
}

/// INC rr.
pub fn inc16(state: &mut GBState, rr: u8)
    requires
        rr <= 3,
    ensures
        final(state)@ == old(state)@.inc16(rr),
{
    let carry: bool = flag::carry(state.cpu.r[7]);
    let value: u16 = state.cpu.r16(rr).wrapping_add(1);
    state.cpu.w16(rr, value);
    state.cpu.r[7] = flag::pack(value == 0, false, value % 256 == 0, carry);
}

/// DEC rr.
pub fn dec16(state: &mut GBState, rr: u8)
    requires
        rr <= 3,
    ensures
        final(state)@ == old(state)@.dec16(rr),
{
    let carry: bool = flag::carry(state.cpu.r[7]);
    let value: u16 = state.cpu.r16(rr).wrapping_sub(1);
    state.cpu.w16(rr, value);
    state.cpu.r[7] = flag::pack(value == 0, true, value % 256 == 255, carry);
}

/// CCF.
pub fn ccf(state: &mut GBState)
    ensures
        final(state)@ == old(state)@.ccf(),
{
    let f: u8 = state.cpu.r[7];
    state.cpu.r[7] = flag::pack(flag::zero(f), false, false, !flag::carry(f));
}

/// SCF.
pub fn scf(state: &mut GBState)
    ensures
        final(state)@ == old(state)@.scf(),
{
    let f: u8 = state.cpu.r[7];
    state.cpu.r[7] = flag::pack(flag::zero(f), false, false, true);
}

/// The decimal adjustment of accumulator `a` under flags `f`: the adjusted
/// accumulator and the new flags.
pub fn decimal_adjust(a: u8, f: u8) -> (res: (u8, u8))
    ensures
        res == (crate::isa::daa_value(a, f), crate::isa::daa_flags(a, f)),
{
    let sub_flag: bool = flag::subtract(f);
    let low_fix: bool = flag::half_carry(f) || a % 16 > 9;
    let low: u8 = if low_fix { 0x06 } else { 0 };
    let high_fix: bool = if sub_flag {
        flag::carry(f) || a.wrapping_sub(low) / 16 > 9
    } else {
        flag::carry(f) || a > 0x99
    };
    let high: u8 = if high_fix { 0x60 } else { 0 };
    let delta: u8 = low + high;
    let value: u8 = if sub_flag {
        a.wrapping_sub(delta)
    } else {
        a.wrapping_add(delta)
    };
    proof {
        crate::isa::lemma_wrap8(a - low);
        crate::isa::lemma_wrap8(a - delta);
        crate::isa::lemma_wrap8(a + delta);
        if !sub_flag {
            crate::isa::laws::lemma_daa_high_fix_after_add(a, f);
        }
    }
    (value, flag::pack(value == 0, sub_flag, false, high_fix))
}

/// DAA: adjusts the accumulator to two decimal digits after an addition or
/// a subtraction of such numbers.
pub fn daa(state: &mut GBState)
    ensures
        final(state)@ == old(state)@.daa(),
{
    let res: (u8, u8) = decimal_adjust(state.cpu.r[6], state.cpu.r[7]);
    state.cpu.r[6] = res.0;
    state.cpu.r[7] = res.1;
}

/// CPL.
pub fn cpl(state: &mut GBState)
    ensures
        final(state)@ == old(state)@.cpl(),
{
    let f: u8 = state.cpu.r[7];
    state.cpu.r[6] = 255 - state.cpu.r[6];
    state.cpu.r[7] = flag::pack(flag::zero(f), false, false, flag::carry(f));
}

/// The stack pointer `sp` moved by the signed byte `p`, with the
/// Half-carry and the Carry that ADD SP, n derives from the move.
pub fn offset_stack_pointer(sp: u16, p: u8) -> (res: (u16, bool, bool))
    ensures
        res.0 == wrap16(sp + signed8(p)),
        res.1 == !(0 <= res.0 % 256 + signed8(p) <= 255),
        res.2 == !(0 <= res.0 + signed8(p) <= 0xffff),
{
    let n: i32 = if p < 128 {
        p as i32
    } else {
        p as i32 - 256
    };
    let moved: u16 = if p < 128 {
        sp.wrapping_add(p as u16)
    } else {
        sp.wrapping_sub(256 - p as u16)
    };
    let low: i32 = (moved % 256) as i32 + n;
    let all: i32 = moved as i32 + n;
    (moved, !(0 <= low && low <= 255), !(0 <= all && all <= 0xffff))
}

/// ADD SP, n.
pub fn addsp8(state: &mut GBState) -> (res: Result<(), MemError>)
    ensures
        res is Ok,
        final(state)@ == old(state)@.addsp8(),
{
    let p: u8 = r_8b_from_pc(state)?;
    let moved: (u16, bool, bool) = offset_stack_pointer(state.cpu.sp, p);
    let f: u8 = state.cpu.r[7];
    state.cpu.sp = moved.0;
    state.cpu.r[7] = flag::pack(flag::zero(f), false, moved.1, moved.2);
    Ok(())
}

/// LD HL, SP+n.
pub fn ldhlsp8(state: &mut GBState) -> (res: Result<(), MemError>)
    ensures
        res is Ok,
        final(state)@ == old(state)@.ldhlsp8(),
{
    let n: u8 = r_8b_from_pc(state)?;
    ldrr16(state, reg::HL, state.cpu.sp.wrapping_add(n as u16));
    Ok(())
}

/// Sum and flags of `a + x + c`.
pub fn add_with_carry(a: u8, x: u8, c: bool) -> (res: (u8, u8))
    ensures
        res == alu_add(a, x, c),
{
    let cin: u16 = if c { 1 } else { 0 };
    let sum: u16 = a as u16 + x as u16 + cin;
    let value: u8 = (sum % 256) as u8;
    (value, flag::pack(value == 0, false, (a % 16) as u16 + (x % 16) as u16 + cin > 15, sum > 255))
}

/// Difference and flags of `a - x - c`.
pub fn sub_with_carry(a: u8, x: u8, c: bool) -> (res: (u8, u8))
    ensures
        res == alu_sub(a, x, c),
{
    let cin: u16 = if c { 1 } else { 0 };
    let borrow: bool = (a as u16) < x as u16 + cin;
    let value: u8 = ((a as u16 + 256 - x as u16 - cin) % 256) as u8;
    (value, flag::pack(value == 0, true, ((a % 16) as u16) < (x % 16) as u16 + cin, borrow))
}

/// ADD A, x.
pub fn add(state: &mut GBState, x: u8)
    ensures
        final(state)@ == old(state)@.add(x),
{
    let res: (u8, u8) = add_with_carry(state.cpu.r[6], x, false);
    state.cpu.r[6] = res.0;
    state.cpu.r[7] = res.1;
}

/// ADC A, x.
pub fn adc(state: &mut GBState, x: u8)
    ensures
        final(state)@ == old(state)@.adc(x),
{
    let res: (u8, u8) = add_with_carry(state.cpu.r[6], x, flag::carry(state.cpu.r[7]));
    state.cpu.r[6] = res.0;
    state.cpu.r[7] = res.1;
}

/// SUB A, x.
pub fn sub(state: &mut GBState, x: u8)
    ensures
        final(state)@ == old(state)@.sub(x),
{
    let res: (u8, u8) = sub_with_carry(state.cpu.r[6], x, false);
    state.cpu.r[6] = res.0;
    state.cpu.r[7] = res.1;
}

/// SBC A, x.
pub fn sbc(state: &mut GBState, x: u8)
    ensures
        final(state)@ == old(state)@.sbc(x),
{
    let res: (u8, u8) = sub_with_carry(state.cpu.r[6], x, flag::carry(state.cpu.r[7]));
    state.cpu.r[6] = res.0;
    state.cpu.r[7] = res.1;
}

/// AND A, x.
pub fn and(state: &mut GBState, x: u8)
    ensures
        final(state)@ == old(state)@.and(x),
{
    let value: u8 = state.cpu.r[6] & x;
    state.cpu.r[6] = value;
    state.cpu.r[7] = flag::pack(value == 0, false, true, false);
}

/// XOR A, x.
pub fn xor(state: &mut GBState, x: u8)
    ensures
        final(state)@ == old(state)@.xor(x),
{
    let value: u8 = state.cpu.r[6] ^ x;
    state.cpu.r[6] = value;
    state.cpu.r[7] = flag::pack(value == 0, false, false, false);
}

/// OR A, x.
pub fn or(state: &mut GBState, x: u8)
    ensures
        final(state)@ == old(state)@.or(x),
{
    let value: u8 = state.cpu.r[6] | x;
    state.cpu.r[6] = value;
    state.cpu.r[7] = flag::pack(value == 0, false, false, false);
}

/// CP A, x.
pub fn cp(state: &mut GBState, x: u8)
    ensures
        final(state)@ == old(state)@.cp(x),
{
    let res: (u8, u8) = sub_with_carry(state.cpu.r[6], x, false);
    state.cpu.r[7] = res.1;
}

/// RLC.
pub fn rlc(state: &mut GBState, r_i: u8) -> (res: Result<(), MemError>)
    requires
        r_i < 8,
    ensures
        res is Ok,
        final(state)@ == old(state)@.rlc(r_i),
{
    let n: u8 = state.r_reg(r_i)?;
    state.cpu.r[7] = flag::pack(false, false, false, n >= 128);
    state.w_reg(r_i, n % 128 * 2 + n / 128)
}

/// RRC.
pub fn rrc(state: &mut GBState, r_i: u8) -> (res: Result<(), MemError>)
    requires
        r_i < 8,
    ensures
        res is Ok,
        final(state)@ == old(state)@.rrc(r_i),
{
    let n: u8 = state.r_reg(r_i)?;
    state.cpu.r[7] = flag::pack(false, false, false, n % 2 == 1);
    state.w_reg(r_i, n / 2 + n % 2 * 128)
}

/// RL.
pub fn rl(state: &mut GBState, r_i: u8) -> (res: Result<(), MemError>)
    requires
        r_i < 8,
    ensures
        res is Ok,
        final(state)@ == old(state)@.rl(r_i),
{
    let n: u8 = state.r_reg(r_i)?;
    let carry: u8 = if flag::carry(state.cpu.r[7]) { 1 } else { 0 };
    state.cpu.r[7] = flag::pack(false, false, false, n >= 128);
    state.w_reg(r_i, n % 128 * 2 + carry)
}

/// RR.
pub fn rr(state: &mut GBState, r_i: u8) -> (res: Result<(), MemError>)
    requires
        r_i < 8,
    ensures
        res is Ok,
        final(state)@ == old(state)@.rr(r_i),
{
    let n: u8 = state.r_reg(r_i)?;
    let carry: u8 = if flag::carry(state.cpu.r[7]) { 1 } else { 0 };
    state.cpu.r[7] = flag::pack(false, false, false, n % 2 == 1);
    state.w_reg(r_i, n / 2 + carry * 128)
}

/// SLA.
pub fn sla(state: &mut GBState, r_i: u8) -> (res: Result<(), MemError>)
    requires
        r_i < 8,
    ensures
        res is Ok,
        final(state)@ == old(state)@.sla(r_i),
{
    let n: u8 = state.r_reg(r_i)?;
    let value: u8 = n % 128 * 2;
    state.cpu.r[7] = flag::pack(value == 0, false, false, n >= 128);
    state.w_reg(r_i, value)
}

/// SRA.
pub fn sra(state: &mut GBState, r_i: u8) -> (res: Result<(), MemError>)
    requires
        r_i < 8,
    ensures
        res is Ok,
        final(state)@ == old(state)@.sra(r_i),
{
    let n: u8 = state.r_reg(r_i)?;
    let value: u8 = n / 2 + n / 128 * 128;
    state.cpu.r[7] = flag::pack(value == 0, false, false, n % 2 == 1);
    state.w_reg(r_i, value)
}

/// SWAP.
pub fn swap(state: &mut GBState, r_i: u8) -> (res: Result<(), MemError>)
    requires
        r_i < 8,
    ensures
        res is Ok,
        final(state)@ == old(state)@.swap(r_i),
{
    let n: u8 = state.r_reg(r_i)?;
    let value: u8 = n % 16 * 16 + n / 16;
    state.cpu.r[7] = flag::pack(value == 0, false, false, false);
    state.w_reg(r_i, value)
}

/// SRL.
pub fn srl(state: &mut GBState, r_i: u8) -> (res: Result<(), MemError>)
    requires
        r_i < 8,
    ensures
        res is Ok,
        final(state)@ == old(state)@.srl(r_i),
{
    let n: u8 = state.r_reg(r_i)?;
    let value: u8 = n / 2;
    state.cpu.r[7] = flag::pack(value == 0, false, false, n % 2 == 1);
    state.w_reg(r_i, value)
}

/// BIT n1, r.
pub fn bit(state: &mut GBState, n1: u8, n2: u8) -> (res: Result<(), MemError>)
    requires
        n1 < 8,
        n2 < 8,
    ensures
        res is Ok,
        final(state)@ == old(state)@.bit(n1, n2),
{
    let value: u8 = state.r_reg(n2)?;
    let carry: bool = flag::carry(state.cpu.r[7]);
    state.cpu.r[7] = flag::pack(!test_bit(value, n1), false, true, carry);
    Ok(())
}

/// RES n1, r.
pub fn res(state: &mut GBState, n1: u8, n2: u8) -> (res: Result<(), MemError>)
    requires
        n1 < 8,
        n2 < 8,
    ensures
        res is Ok,
        final(state)@ == old(state)@.res(n1, n2),
{
    let value: u8 = state.r_reg(n2)?;
    state.w_reg(n2, clear_bit(value, n1))
}

/// SET n1, r.
pub fn set(state: &mut GBState, n1: u8, n2: u8) -> (res: Result<(), MemError>)
    requires
        n1 < 8,
        n2 < 8,
    ensures
        res is Ok,
        final(state)@ == old(state)@.set(n1, n2),
{
    let value: u8 = state.r_reg(n2)?;
    state.w_reg(n2, set_bit(value, n1))
}

/// Applies the ALU operation that `n1` selects to the accumulator and `x`.
pub fn alu(state: &mut GBState, n1: u8, x: u8)
    ensures
        final(state)@ == old(state)@.alu(n1, x),
{
    if n1 == 0 {
        self::add(state, x)
    } else if n1 == 1 {
        adc(state, x)
    } else if n1 == 2 {
        self::sub(state, x)
    } else if n1 == 3 {
        sbc(state, x)
    } else if n1 == 4 {
        and(state, x)
    } else if n1 == 5 {
        xor(state, x)
    } else if n1 == 6 {
        or(state, x)
    } else {
        cp(state, x)
    }
}

/// POP rr.
pub fn poprr(state: &mut GBState, rr: u8) -> (res: Result<(), MemError>)
    requires
        rr <= 3,
    ensures
        (final(state)@, res) == old(state)@.poprr(rr),
{
    let p: u16 = pop(state)?;
    state.cpu.set_stack_pair(rr, p);
    Ok(())
}

/// PUSH rr.
pub fn pushrr(state: &mut GBState, rr: u8) -> (res: Result<(), MemError>)
    requires
        rr <= 3,
    ensures
        (final(state)@, res) == old(state)@.pushrr(rr),
{
    push(state, state.cpu.stack_pair(rr))
}

/// The outcome of an instruction that took `cycles` cycles unless it
/// failed.
pub fn with_cost(res: Result<(), MemError>, cycles: u64) -> (out: Result<u64, MemError>)
    ensures
        out == (match res {
            Ok(_) => Ok::<u64, MemError>(cycles),
            Err(e) => Err::<u64, MemError>(e),
        }),
{
    match res {
        Ok(_) => Ok(cycles),
        Err(e) => Err(e),
    }
}

/// Column 0 of the first group: NOP, LD (nn),SP and the relative jumps.
pub fn op00_jumps(state: &mut GBState, n1: u8) -> (res: Result<u64, MemError>)
    requires
        n1 < 8,
    ensures
        (final(state)@, res) == old(state)@.op00_jumps(n1),
        res is Ok ==> res.unwrap() <= 24,
{
    if n1 == 0 {
        Ok(4)
    } else if n1 == 1 {
        ldnnsp(state)?;
        Ok(20)
    } else if n1 == 2 {
        Err(MemError::Unimplemented)
    } else if n1 == 3 {
        jr8(state)?;
        Ok(12)
    } else {
        let taken: bool = state.cpu.check_flag(n1 % 4);
        jrcc8(state, n1)?;
        Ok(if taken { 12 } else { 8 })
    }
}

/// Column 7 of the first group: the rotates of the accumulator, DAA, CPL,
/// SCF and CCF.
pub fn op00_accumulator(state: &mut GBState, n1: u8) -> (res: Result<u64, MemError>)
    requires
        n1 < 8,
    ensures
        (final(state)@, res) == old(state)@.op00_accumulator(n1),
        res is Ok ==> res.unwrap() <= 24,
{
    if n1 == 0 {
        rlc(state, 7)?;
    } else if n1 == 1 {
        rrc(state, 7)?;
    } else if n1 == 2 {
        rl(state, 7)?;
    } else if n1 == 3 {
        rr(state, 7)?;
    } else if n1 == 4 {
        daa(state);
    } else if n1 == 5 {
        cpl(state);
    } else if n1 == 6 {
        scf(state);
    } else {
        ccf(state);
    }
    Ok(4)
}

/// Carries out the instruction with group bits 00 and fields `n1`, `n2`.
pub fn op00(state: &mut GBState, n1: u8, n2: u8) -> (res: Result<u64, MemError>)
    requires
        n1 < 8,
        n2 < 8,
    ensures
        (final(state)@, res) == old(state)@.op00(n1, n2),
        res is Ok ==> res.unwrap() <= 24,
{
    reveal(GbView::op00);
    if n2 == 0 {
        op00_jumps(state, n1)
    } else if n2 == 1 {
        if n1 % 2 == 1 {
            Err(MemError::Unimplemented)
        } else {
            let p: u16 = r_16b_from_pc(state)?;
            ldrr16(state, n1 / 2, p);
            Ok(12)
        }
    } else if n2 == 2 {
        ld00a(state, n1)?;
        Ok(8)
    } else if n2 == 3 {
        if n1 % 2 == 1 {
            dec16(state, n1 / 2);
        } else {
            inc16(state, n1 / 2);
        }
        Ok(8)
    } else if n2 == 4 {
        inc8(state, n1)?;
        Ok(4)
    } else if n2 == 5 {
        dec8(state, n1)?;
        Ok(4)
    } else if n2 == 6 {
        ldr8(state, n1)?;
        Ok(8)
    } else {
        op00_accumulator(state, n1)
    }
}

/// Carries out the instruction with group bits 01 and fields `n1`, `n2`.
pub fn op01(state: &mut GBState, n1: u8, n2: u8) -> (res: Result<u64, MemError>)
    requires
        n1 < 8,
        n2 < 8,
    ensures
        (final(state)@, res) == old(state)@.op01(n1, n2),
        res is Ok ==> res.unwrap() <= 24,
{
    reveal(GbView::op01);
    if n1 == 6 && n2 == 6 {
        state.mem.halt = true;
        Ok(4)
    } else {
        ldrr(state, n1, n2)?;
        Ok(if n1 == 6 || n2 == 6 { 8 } else { 4 })
    }
}

/// Carries out the instruction with group bits 10 and fields `n1`, `n2`.
pub fn op10(state: &mut GBState, n1: u8, n2: u8) -> (res: Result<u64, MemError>)
    requires
        n1 < 8,
        n2 < 8,
    ensures
        (final(state)@, res) == old(state)@.op10(n1, n2),
        res is Ok ==> res.unwrap() <= 24,
{
    reveal(GbView::op10);
    let x: u8 = state.r_reg(n2)?;
    alu(state, n1, x);
    Ok(if n2 == 6 { 8 } else { 4 })
}

/// Column 0 of the last group: the loads to and from the high page at an
/// immediate offset, ADD SP,n, LD HL,SP+n and RET cc.
pub fn op11_high_loads(state: &mut GBState, n1: u8) -> (res: Result<u64, MemError>)
    requires
        n1 < 8,
    ensures
        (final(state)@, res) == old(state)@.op11_high_loads(n1),
        res is Ok ==> res.unwrap() <= 24,
{
    if n1 == 4 {
        let n: u8 = r_8b_from_pc(state)?;
        ldnna(state, 0xff00 + n as u16)?;
        Ok(12)
    } else if n1 == 5 {
        addsp8(state)?;
        Ok(16)
    } else if n1 == 6 {
        let n: u8 = r_8b_from_pc(state)?;
        ldann(state, 0xff00 + n as u16)?;
        Ok(12)
    } else if n1 == 7 {
        ldhlsp8(state)?;
        Ok(12)
    } else {
        let taken: bool = state.cpu.check_flag(n1 % 4);
        with_cost(retcc(state, n1), if taken { 20 } else { 8 })
    }
}

/// Column 1 of the last group: RET, RETI, JP HL, LD SP,HL and POP rr.
pub fn op11_returns(state: &mut GBState, n1: u8) -> (res: Result<u64, MemError>)
    requires
        n1 < 8,
    ensures
        (final(state)@, res) == old(state)@.op11_returns(n1),
        res is Ok ==> res.unwrap() <= 24,
{
    if n1 == 1 {
        with_cost(ret(state), 16)
    } else if n1 == 3 {
        with_cost(reti(state), 16)
    } else if n1 == 5 {
        jphl(state);
        Ok(4)
    } else if n1 == 7 {
        ldsphl(state);
        Ok(8)
    } else {
        with_cost(poprr(state, n1 / 2), 12)
    }
}

/// Column 2 of the last group: the loads to and from the high page at
/// offset C, the loads to and from an absolute address, and JP cc.
pub fn op11_absolute_loads(state: &mut GBState, n1: u8) -> (res: Result<u64, MemError>)
    requires
        n1 < 8,
    ensures
        (final(state)@, res) == old(state)@.op11_absolute_loads(n1),
        res is Ok ==> res.unwrap() <= 24,
{
    if n1 == 4 {
        ldnna(state, 0xff00 + state.cpu.r[1] as u16)?;
        Ok(8)
    } else if n1 == 5 {
        let nn: u16 = r_16b_from_pc(state)?;
        ldnna(state, nn)?;
        Ok(16)
    } else if n1 == 6 {
        ldann(state, 0xff00 + state.cpu.r[1] as u16)?;
        Ok(8)
    } else if n1 == 7 {
        let nn: u16 = r_16b_from_pc(state)?;
        ldann(state, nn)?;
        Ok(16)
    } else {
        let taken: bool = state.cpu.check_flag(n1 % 4);
        jpcc16(state, n1)?;
        Ok(if taken { 16 } else { 12 })
    }
}

/// Column 3 of the last group: JP nn, the second opcode page, DI and EI.
pub fn op11_control(state: &mut GBState, n1: u8) -> (res: Result<u64, MemError>)
    requires
        n1 < 8,
    ensures
        (final(state)@, res) == old(state)@.op11_control(n1),
        res is Ok ==> res.unwrap() <= 24,
{
    if n1 == 0 {
        jp16(state)?;
        Ok(16)
    } else if n1 == 1 {
        op_bitwise(state)
    } else if n1 == 6 {
        state.mem.ime = false;
        Ok(4)
    } else if n1 == 7 {
        state.mem.ime = true;
        Ok(4)
    } else {
        Err(MemError::Unimplemented)
    }
}

/// Columns 4 and 5 of the last group: CALL cc, CALL nn and PUSH rr.
pub fn op11_calls(state: &mut GBState, n1: u8, n2: u8) -> (res: Result<u64, MemError>)
    requires
        n1 < 8,
        n2 == 4 || n2 == 5,
    ensures
        (final(state)@, res) == old(state)@.op11_calls(n1, n2),
        res is Ok ==> res.unwrap() <= 24,
{
    if n2 == 4 {
        if n1 < 4 {
            let taken: bool = state.cpu.check_flag(n1 % 4);
            with_cost(callcc(state, n1), if taken { 24 } else { 12 })
        } else {
            Err(MemError::Unimplemented)
        }
    } else if n1 == 1 {
        with_cost(call(state), 24)
    } else if n1 % 2 == 1 {
        Err(MemError::Unimplemented)
    } else {
        with_cost(pushrr(state, n1 / 2), 16)
    }
}

/// Carries out the instruction with group bits 11 and fields `n1`, `n2`.
pub fn op11(state: &mut GBState, n1: u8, n2: u8) -> (res: Result<u64, MemError>)
    requires
        n1 < 8,
        n2 < 8,
    ensures
        (final(state)@, res) == old(state)@.op11(n1, n2),
        res is Ok ==> res.unwrap() <= 24,
{
    reveal(GbView::op11);
    if n2 == 0 {
        op11_high_loads(state, n1)
    } else if n2 == 1 {
        op11_returns(state, n1)
    } else if n2 == 2 {
        op11_absolute_loads(state, n1)
    } else if n2 == 3 {
        op11_control(state, n1)
    } else if n2 == 4 || n2 == 5 {
        op11_calls(state, n1, n2)
    } else if n2 == 6 {
        let p: u8 = r_8b_from_pc(state)?;
        alu(state, n1, p);
        Ok(8)
    } else {
        Err(MemError::Unimplemented)
    }
}

/// Carries out the instruction of the second opcode page whose opcode
/// follows at the program counter.
pub fn op_bitwise(state: &mut GBState) -> (res: Result<u64, MemError>)
    ensures
        (final(state)@, res) == old(state)@.op_bitwise(),
        res is Ok ==> res.unwrap() <= 24,
{
    reveal(GbView::op_bitwise);
    let p: u8 = r_8b_from_pc(state)?;
    let opcode: u8 = p / 64;
    let n1: u8 = (p / 8) % 8;
    let n2: u8 = p % 8;
    let cycles: u64 = if n2 == 6 { 16 } else { 8 };
    if opcode == 0 {
        if n1 == 0 {
            rlc(state, n2)?;
        } else if n1 == 1 {
            rrc(state, n2)?;
        } else if n1 == 2 {
            rl(state, n2)?;
        } else if n1 == 3 {
            rr(state, n2)?;
        } else if n1 == 4 {
            sla(state, n2)?;
        } else if n1 == 5 {
            sra(state, n2)?;
        } else if n1 == 6 {
            swap(state, n2)?;
        } else {
            srl(state, n2)?;
        }
    } else if opcode == 1 {
        bit(state, n1, n2)?;
    } else if opcode == 2 {
        self::res(state, n1, n2)?;
    } else {
        set(state, n1, n2)?;
    }
    Ok(cycles)
}

/// Carries out the instruction with opcode `opcode`, whose operands follow
/// at the program counter.
pub fn decode(state: &mut GBState, opcode: u8) -> (res: Result<u64, MemError>)
    ensures
        (final(state)@, res) == old(state)@.decode(opcode),
        res is Ok ==> res.unwrap() <= 24,
{
    let n1: u8 = (opcode / 8) % 8;
    let n2: u8 = opcode % 8;
    let group: u8 = opcode / 64;
    if group == 0 {
        op00(state, n1, n2)
    } else if group == 1 {
        op01(state, n1, n2)
    } else if group == 2 {
        op10(state, n1, n2)
    } else {
        op11(state, n1, n2)
    }
}

} // verus!
