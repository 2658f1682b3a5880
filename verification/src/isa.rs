//! The instruction set, stated over the machine as a mathematical value.
//!
//! Every function here says what one instruction, or one step of the
//! machine, makes of a state. The executable instructions are proved to
//! compute exactly these.
use crate::bits::{spec_clear_bit, spec_set_bit, spec_test_bit};
use crate::state::flag::{spec_carry, spec_half_carry, spec_pack, spec_subtract, spec_zero};
use crate::state::{reg, CpuView, GbView, MemError, MemView};
use vstd::prelude::*;

pub mod laws;

verus! {

/// Cycles that a halted CPU spends per step.
pub const HALT_CYCLES: u64 = 4;

/// Cycles that the dispatch of an interrupt costs.
pub const INTERRUPT_CYCLES: u64 = 20;

/// Lowest stack pointer at which a pop is allowed: the start of high RAM.
pub const STACK_BOTTOM: u16 = 0xff80;

/// Highest stack pointer at which a pop is allowed.
pub const STACK_TOP: u16 = 0xfffc;

/// `x` reduced to 16 bits.
pub open spec fn wrap16(x: int) -> u16 {
    (x % 0x10000) as u16
}

/// `x` reduced to 8 bits.
pub open spec fn wrap8(x: int) -> u8 {
    (x % 0x100) as u8
}

/// The byte `x` read as a signed number.
pub open spec fn signed8(x: u8) -> int {
    if x < 128 {
        x as int
    } else {
        x - 256
    }
}

/// One for a carry, zero for none.
pub open spec fn carry_in(c: bool) -> int {
    if c {
        1
    } else {
        0
    }
}

/// Sum and flags of `a + x + c`. Half-carry is the carry out of the low
/// nibbles, Carry the carry out of the byte, Zero says that the sum byte
/// is 0, and Subtract is clear.
pub open spec fn alu_add(a: u8, x: u8, c: bool) -> (u8, u8) {
    let sum = a + x + carry_in(c);
    (wrap8(sum), spec_pack(wrap8(sum) == 0, false, a % 16 + x % 16 + carry_in(c) > 15, sum > 255))
}

/// Difference and flags of `a - x - c`. Half-carry is the borrow into the
/// low nibble, Carry the borrow into the byte, Zero says that the
/// difference byte is 0, and Subtract is set.
pub open spec fn alu_sub(a: u8, x: u8, c: bool) -> (u8, u8) {
    let diff = a - x - carry_in(c);
    (wrap8(diff), spec_pack(wrap8(diff) == 0, true, a % 16 < x % 16 + carry_in(c), diff < 0))
}

/// Bitwise AND and its flags: Half-carry set, Zero from the result.
pub open spec fn alu_and(a: u8, x: u8) -> (u8, u8) {
    (a & x, spec_pack(a & x == 0, false, true, false))
}

/// Bitwise XOR and its flags: Zero from the result.
pub open spec fn alu_xor(a: u8, x: u8) -> (u8, u8) {
    (a ^ x, spec_pack(a ^ x == 0, false, false, false))
}

/// Bitwise OR and its flags: Zero from the result.
pub open spec fn alu_or(a: u8, x: u8) -> (u8, u8) {
    (a | x, spec_pack(a | x == 0, false, false, false))
}

/// Whether the decimal adjustment corrects the low digit: the low nibble
/// exceeds 9 or Half-carry is set.
pub open spec fn daa_low_fix(a: u8, f: u8) -> bool {
    spec_half_carry(f) || a % 16 > 9
}

/// The accumulator after the low digit is corrected and before anything is
/// reduced to a byte: 0x06 more after an addition, 0x06 less after a
/// subtraction, where the low digit is corrected at all.
pub open spec fn daa_low_corrected(a: u8, f: u8) -> int {
    let low: int = if daa_low_fix(a, f) {
        0x06
    } else {
        0
    };
    if spec_subtract(f) {
        a - low
    } else {
        a + low
    }
}

/// Whether the decimal adjustment corrects the high digit: Carry is set, or
/// the correction of the low digit carried out of the byte, or the high
/// nibble exceeds 9 once the low digit is corrected.
pub open spec fn daa_high_fix(a: u8, f: u8) -> bool {
    spec_carry(f) || daa_low_corrected(a, f) > 255 || wrap8(daa_low_corrected(a, f)) / 16 > 9
}

/// The accumulator after the decimal adjustment of `a` under flags `f`:
/// 0x06 and 0x60 are added after an addition and subtracted after a
/// subtraction, each where its digit is corrected.
pub open spec fn daa_value(a: u8, f: u8) -> u8 {
    let low: int = if daa_low_fix(a, f) {
        0x06
    } else {
        0
    };
    let high: int = if daa_high_fix(a, f) {
        0x60
    } else {
        0
    };
    if spec_subtract(f) {
        wrap8(a - low - high)
    } else {
        wrap8(a + low + high)
    }
}

/// The flags after the decimal adjustment: Zero from the adjusted
/// accumulator, Subtract as before, Half-carry clear, and Carry set exactly
/// when the high digit was corrected.
pub open spec fn daa_flags(a: u8, f: u8) -> u8 {
    spec_pack(daa_value(a, f) == 0, spec_subtract(f), false, daa_high_fix(a, f))
}

/// The byte that holds the decimal number `d` below 100 as two digits.
pub open spec fn bcd(d: int) -> u8 {
    ((d / 10) * 16 + d % 10) as u8
}

/// Reducing a number that is less than 256 away from a byte adds or
/// subtracts 256 at most once.
pub proof fn lemma_wrap8(x: int)
    requires
        -256 <= x < 512,
    ensures
        wrap8(x) == (if x < 0 {
            x + 256
        } else if x > 255 {
            x - 256
        } else {
            x
        }),
{
}

/// The vector of interrupt source `i`.
pub open spec fn spec_interrupt_vector(i: u8) -> u16 {
    (0x40 + 8 * i) as u16
}

impl GbView {
    /// The machine with the program counter at `pc`.
    pub open spec fn with_pc(self, pc: u16) -> GbView {
        GbView { cpu: CpuView { pc, ..self.cpu }, ..self }
    }

    /// The machine with the stack pointer at `sp`.
    pub open spec fn with_sp(self, sp: u16) -> GbView {
        GbView { cpu: CpuView { sp, ..self.cpu }, ..self }
    }

    /// The machine with flag register `f`.
    pub open spec fn with_f(self, f: u8) -> GbView {
        GbView { cpu: self.cpu.set_f(f), ..self }
    }

    /// The machine with accumulator `a`.
    pub open spec fn with_a(self, a: u8) -> GbView {
        GbView { cpu: self.cpu.set_a(a), ..self }
    }

    /// The machine with accumulator and flags as in `af`.
    pub open spec fn with_af(self, af: (u8, u8)) -> GbView {
        self.with_a(af.0).with_f(af.1)
    }

    /// The machine after it fetched the byte at the program counter, and
    /// that byte. The program counter wraps at the end of memory.
    pub open spec fn fetch8(self) -> (GbView, u8) {
        (self.with_pc(wrap16(self.cpu.pc + 1)), self.mem.read(self.cpu.pc))
    }

    /// The machine after it fetched the two bytes at the program counter,
    /// and the 16-bit value they hold, low byte first.
    pub open spec fn fetch16(self) -> (GbView, u16) {
        (
            self.with_pc(wrap16(self.cpu.pc + 2)),
            (self.mem.read(self.cpu.pc) + self.mem.read(wrap16(self.cpu.pc + 1)) * 256) as u16,
        )
    }

    /// Whether two bytes can be pushed: after the push the stack pointer is
    /// still within the stack's window in high RAM.
    pub open spec fn can_push(self) -> bool {
        STACK_BOTTOM + 2 <= self.cpu.sp <= STACK_TOP + 2
    }

    /// Whether two bytes can be popped: the stack pointer is within the
    /// stack's window in high RAM.
    pub open spec fn can_pop(self) -> bool {
        STACK_BOTTOM <= self.cpu.sp <= STACK_TOP
    }

    /// The machine after `x` is pushed: the stack pointer drops by two and
    /// `x` is stored there, low byte first.
    pub open spec fn push(self, x: u16) -> GbView
        recommends
            self.can_push(),
    {
        let sp = (self.cpu.sp - 2) as u16;
        GbView {
            mem: self.mem.write(sp, (x % 256) as u8).write((sp + 1) as u16, (x / 256) as u8),
            ..self.with_sp(sp)
        }
    }

    /// The machine after two bytes are popped and the value they held, or
    /// the machine as it is and the error if the stack pointer is outside
    /// the stack's window.
    pub open spec fn try_pop(self) -> (GbView, Result<u16, MemError>) {
        if self.can_pop() {
            (self.pop().0, Ok(self.pop().1))
        } else {
            (self, Err(MemError::StackOverflow))
        }
    }

    /// The machine after two bytes are popped, and the 16-bit value they
    /// held.
    pub open spec fn pop(self) -> (GbView, u16)
        recommends
            self.can_pop(),
    {
        (
            self.with_sp((self.cpu.sp + 2) as u16),
            (self.mem.read(self.cpu.sp) + self.mem.read((self.cpu.sp + 1) as u16) * 256) as u16,
        )
    }

    /// LD r, r'.
    pub open spec fn ldrr(self, n1: u8, n2: u8) -> GbView {
        self.w_reg(n1, self.r_reg(n2))
    }

    /// LD r, n.
    pub open spec fn ldr8(self, n1: u8) -> GbView {
        self.fetch8().0.w_reg(n1, self.fetch8().1)
    }

    /// LD rr, x.
    pub open spec fn ldrr16(self, rr: u8, x: u16) -> GbView {
        self.with_cpu(self.cpu.w16(rr, x))
    }

    /// LD (nn), SP: the stack pointer is stored at the fetched address, low
    /// byte first.
    pub open spec fn ldnnsp(self) -> GbView {
        let s = self.fetch16().0;
        let p = self.fetch16().1;
        s.with_mem(
            s.mem.write(p, (s.cpu.sp % 256) as u8).write(wrap16(p + 1), (s.cpu.sp / 256) as u8),
        )
    }

    /// LD SP, HL.
    pub open spec fn ldsphl(self) -> GbView {
        self.with_sp(self.cpu.r16(reg::HL))
    }

    /// LD (nn), A.
    pub open spec fn ldnna(self, nn: u16) -> GbView {
        self.with_mem(self.mem.write(nn, self.cpu.a()))
    }

    /// LD A, (nn).
    pub open spec fn ldann(self, nn: u16) -> GbView {
        self.with_a(self.mem.read(nn))
    }

    /// The program counter moved by the signed byte `p`.
    pub open spec fn relative(self, p: u8) -> GbView {
        self.with_pc(wrap16(self.cpu.pc + signed8(p)))
    }

    /// JR n: the jump is relative to the address after the instruction.
    pub open spec fn jr8(self) -> GbView {
        self.fetch8().0.relative(self.fetch8().1)
    }

    /// JR cc, n.
    pub open spec fn jrcc8(self, n1: u8) -> GbView {
        if self.cpu.check_flag(n1 % 4) {
            self.jr8()
        } else {
            self.fetch8().0
        }
    }

    /// JP nn.
    pub open spec fn jp16(self) -> GbView {
        self.with_pc(self.fetch16().1)
    }

    /// JP HL.
    pub open spec fn jphl(self) -> GbView {
        self.with_pc(self.cpu.r16(reg::HL))
    }

    /// JP cc, nn.
    pub open spec fn jpcc16(self, n1: u8) -> GbView {
        if self.cpu.check_flag(n1 % 4) {
            self.jp16()
        } else {
            self.fetch16().0
        }
    }

    /// The machine after `x` is pushed, or the machine as it is and the
    /// error if the stack has no room.
    pub open spec fn try_push(self, x: u16) -> (GbView, Result<(), MemError>) {
        if self.can_push() {
            (self.push(x), Ok(()))
        } else {
            (self, Err(MemError::StackOverflow))
        }
    }

    /// CALL nn: the address after the instruction is pushed and the program
    /// counter set to the fetched address. Without room on the stack the
    /// call fails and nothing is fetched.
    pub open spec fn call(self) -> (GbView, Result<(), MemError>) {
        let s = self.fetch16().0;
        if self.can_push() {
            (s.push(s.cpu.pc).with_pc(self.fetch16().1), Ok(()))
        } else {
            (self, Err(MemError::StackOverflow))
        }
    }

    /// CALL cc, nn.
    pub open spec fn callcc(self, n1: u8) -> (GbView, Result<(), MemError>) {
        if self.cpu.check_flag(n1 % 4) {
            self.call()
        } else {
            (self.fetch16().0, Ok(()))
        }
    }

    /// RET: the program counter is popped.
    pub open spec fn ret(self) -> (GbView, Result<(), MemError>) {
        if self.can_pop() {
            (self.pop().0.with_pc(self.pop().1), Ok(()))
        } else {
            (self, Err(MemError::StackOverflow))
        }
    }

    /// RET cc.
    pub open spec fn retcc(self, n1: u8) -> (GbView, Result<(), MemError>) {
        if self.cpu.check_flag(n1 % 4) {
            self.ret()
        } else {
            (self, Ok(()))
        }
    }

    /// The machine with the interrupt master enable as given.
    pub open spec fn with_ime(self, ime: bool) -> GbView {
        self.with_mem(MemView { ime, ..self.mem })
    }

    /// The machine with the halt latch as given.
    pub open spec fn with_halt(self, halt: bool) -> GbView {
        self.with_mem(MemView { halt, ..self.mem })
    }

    /// RETI: a return that also restores the interrupt master enable.
    pub open spec fn reti(self) -> (GbView, Result<(), MemError>) {
        if self.can_pop() {
            (self.ret().0.with_ime(true), Ok(()))
        } else {
            (self, Err(MemError::StackOverflow))
        }
    }

    /// The pair through which the accumulator load `n1` addresses memory:
    /// BC, DE, or HL for both the incrementing and the decrementing form.
    pub open spec fn ld00a_pair(n1: u8) -> u8 {
        if n1 / 2 == 0 {
            reg::BC
        } else if n1 / 2 == 1 {
            reg::DE
        } else {
            reg::HL
        }
    }

    /// LD (rr), A and LD A, (rr), with HL incremented or decremented
    /// afterwards in the forms that say so. Odd `n1` loads A, even stores
    /// it.
    pub open spec fn ld00a(self, n1: u8) -> GbView {
        let addr = self.cpu.r16(Self::ld00a_pair(n1));
        let s = if n1 % 2 == 1 {
            self.ldann(addr)
        } else {
            self.ldnna(addr)
        };
        if n1 / 2 == 2 {
            s.with_cpu(s.cpu.w16(reg::HL, wrap16(s.cpu.r16(reg::HL) + 1)))
        } else if n1 / 2 == 3 {
            s.with_cpu(s.cpu.w16(reg::HL, wrap16(s.cpu.r16(reg::HL) - 1)))
        } else {
            s
        }
    }

    /// INC r: Zero and Half-carry from the result, Half-carry when the low
    /// nibble became 0; Subtract clear, Carry kept.
    pub open spec fn inc8(self, n1: u8) -> GbView {
        let v = wrap8(self.r_reg(n1) + 1);
        self.w_reg(n1, v).with_f(spec_pack(v == 0, false, v % 16 == 0, spec_carry(self.cpu.f())))
    }

    /// DEC r: Zero and Half-carry from the result, Half-carry when the low
    /// nibble became 0xf; Subtract clear, Carry kept.
    pub open spec fn dec8(self, n1: u8) -> GbView {
        let v = wrap8(self.r_reg(n1) - 1);
        self.w_reg(n1, v).with_f(spec_pack(v == 0, false, v % 16 == 15, spec_carry(self.cpu.f())))
    }

    /// INC rr: Zero from the result, Half-carry when the low byte became 0;
    /// Subtract clear, Carry kept.
    pub open spec fn inc16(self, rr: u8) -> GbView {
        let v = wrap16(self.cpu.r16(rr) + 1);
        self.with_cpu(
            self.cpu.w16(rr, v).set_f(
                spec_pack(v == 0, false, v % 256 == 0, spec_carry(self.cpu.f())),
            ),
        )
    }

    /// DEC rr: Zero from the result, Half-carry when the low byte became
    /// 0xff; Subtract set, Carry kept.
    pub open spec fn dec16(self, rr: u8) -> GbView {
        let v = wrap16(self.cpu.r16(rr) - 1);
        self.with_cpu(
            self.cpu.w16(rr, v).set_f(
                spec_pack(v == 0, true, v % 256 == 255, spec_carry(self.cpu.f())),
            ),
        )
    }

    /// CCF: Carry flipped, Subtract and Half-carry clear, Zero kept.
    pub open spec fn ccf(self) -> GbView {
        let f = self.cpu.f();
        self.with_f(spec_pack(spec_zero(f), false, false, !spec_carry(f)))
    }

    /// SCF: Carry set, Subtract and Half-carry clear, Zero kept.
    pub open spec fn scf(self) -> GbView {
        self.with_f(spec_pack(spec_zero(self.cpu.f()), false, false, true))
    }

    /// DAA.
    pub open spec fn daa(self) -> GbView {
        self.with_af((daa_value(self.cpu.a(), self.cpu.f()), daa_flags(self.cpu.a(), self.cpu.f())))
    }

    /// CPL: every bit of the accumulator flipped, Subtract and Half-carry
    /// clear, Zero and Carry kept.
    pub open spec fn cpl(self) -> GbView {
        let f = self.cpu.f();
        self.with_af(
            ((255 - self.cpu.a()) as u8, spec_pack(spec_zero(f), false, false, spec_carry(f))),
        )
    }

    /// ADD SP, n with a signed `n`. Subtract is clear and Zero kept;
    /// Half-carry and Carry say whether adding `n` once more to the low
    /// byte of the new stack pointer, and to all of it, would leave the
    /// byte and the 16 bits.
    pub open spec fn addsp8(self) -> GbView {
        let s = self.fetch8().0;
        let n = signed8(self.fetch8().1);
        let sp = wrap16(s.cpu.sp + n);
        s.with_sp(sp).with_f(
            spec_pack(
                spec_zero(s.cpu.f()),
                false,
                !(0 <= sp % 256 + n <= 255),
                !(0 <= sp + n <= 0xffff),
            ),
        )
    }

    /// LD HL, SP+n with an unsigned `n`.
    pub open spec fn ldhlsp8(self) -> GbView {
        let s = self.fetch8().0;
        s.ldrr16(reg::HL, wrap16(s.cpu.sp + self.fetch8().1))
    }

    /// ADD A, x.
    pub open spec fn add(self, x: u8) -> GbView {
        self.with_af(alu_add(self.cpu.a(), x, false))
    }

    /// ADC A, x.
    pub open spec fn adc(self, x: u8) -> GbView {
        self.with_af(alu_add(self.cpu.a(), x, spec_carry(self.cpu.f())))
    }

    /// SUB A, x.
    pub open spec fn sub(self, x: u8) -> GbView {
        self.with_af(alu_sub(self.cpu.a(), x, false))
    }

    /// SBC A, x.
    pub open spec fn sbc(self, x: u8) -> GbView {
        self.with_af(alu_sub(self.cpu.a(), x, spec_carry(self.cpu.f())))
    }

    /// AND A, x.
    pub open spec fn and(self, x: u8) -> GbView {
        self.with_af(alu_and(self.cpu.a(), x))
    }

    /// XOR A, x.
    pub open spec fn xor(self, x: u8) -> GbView {
        self.with_af(alu_xor(self.cpu.a(), x))
    }

    /// OR A, x.
    pub open spec fn or(self, x: u8) -> GbView {
        self.with_af(alu_or(self.cpu.a(), x))
    }

    /// CP A, x: the flags of a subtraction, the accumulator kept.
    pub open spec fn cp(self, x: u8) -> GbView {
        self.with_f(alu_sub(self.cpu.a(), x, false).1)
    }

    /// The machine after a rotate or shift stored `value` in operand `r_i`
    /// and moved `carry` into Carry, the other flags clear.
    pub open spec fn rotated(self, r_i: u8, value: u8, carry: bool) -> GbView {
        self.with_f(spec_pack(false, false, false, carry)).w_reg(r_i, value)
    }

    /// The machine after a shift stored `value` in operand `r_i` and moved
    /// `carry` into Carry, with Zero from the value.
    pub open spec fn shifted(self, r_i: u8, value: u8, carry: bool) -> GbView {
        self.with_f(spec_pack(value == 0, false, false, carry)).w_reg(r_i, value)
    }

    /// RLC: rotate left, bit 7 to Carry and to bit 0.
    pub open spec fn rlc(self, r_i: u8) -> GbView {
        let n = self.r_reg(r_i);
        self.rotated(r_i, (n % 128 * 2 + n / 128) as u8, n >= 128)
    }

    /// RRC: rotate right, bit 0 to Carry and to bit 7.
    pub open spec fn rrc(self, r_i: u8) -> GbView {
        let n = self.r_reg(r_i);
        self.rotated(r_i, (n / 2 + n % 2 * 128) as u8, n % 2 == 1)
    }

    /// RL: rotate left through Carry.
    pub open spec fn rl(self, r_i: u8) -> GbView {
        let n = self.r_reg(r_i);
        self.rotated(r_i, (n % 128 * 2 + carry_in(spec_carry(self.cpu.f()))) as u8, n >= 128)
    }

    /// RR: rotate right through Carry.
    pub open spec fn rr(self, r_i: u8) -> GbView {
        let n = self.r_reg(r_i);
        self.rotated(r_i, (n / 2 + carry_in(spec_carry(self.cpu.f())) * 128) as u8, n % 2 == 1)
    }

    /// SLA: shift left, bit 7 to Carry.
    pub open spec fn sla(self, r_i: u8) -> GbView {
        let n = self.r_reg(r_i);
        self.shifted(r_i, (n % 128 * 2) as u8, n >= 128)
    }

    /// SRA: shift right, bit 7 kept, bit 0 to Carry.
    pub open spec fn sra(self, r_i: u8) -> GbView {
        let n = self.r_reg(r_i);
        self.shifted(r_i, (n / 2 + n / 128 * 128) as u8, n % 2 == 1)
    }

    /// SWAP: the two nibbles exchanged.
    pub open spec fn swap(self, r_i: u8) -> GbView {
        let n = self.r_reg(r_i);
        self.shifted(r_i, (n % 16 * 16 + n / 16) as u8, false)
    }

    /// SRL: shift right, bit 0 to Carry.
    pub open spec fn srl(self, r_i: u8) -> GbView {
        let n = self.r_reg(r_i);
        self.shifted(r_i, n / 2, n % 2 == 1)
    }

    /// BIT n1, r: Zero says that the bit is 0; Half-carry set, Subtract
    /// clear, Carry kept.
    pub open spec fn bit(self, n1: u8, n2: u8) -> GbView {
        self.with_f(
            spec_pack(
                !spec_test_bit(self.r_reg(n2), n1),
                false,
                true,
                spec_carry(self.cpu.f()),
            ),
        )
    }

    /// RES n1, r.
    pub open spec fn res(self, n1: u8, n2: u8) -> GbView {
        self.w_reg(n2, spec_clear_bit(self.r_reg(n2), n1))
    }

    /// SET n1, r.
    pub open spec fn set(self, n1: u8, n2: u8) -> GbView {
        self.w_reg(n2, spec_set_bit(self.r_reg(n2), n1))
    }
    /// The machine after the ALU operation that the 3-bit field `n1`
    /// selects is applied to the accumulator and `x`: ADD, ADC, SUB, SBC,
    /// AND, XOR, OR, CP for 0 to 7.
    pub open spec fn alu(self, n1: u8, x: u8) -> GbView {
        if n1 == 0 {
            self.add(x)
        } else if n1 == 1 {
            self.adc(x)
        } else if n1 == 2 {
            self.sub(x)
        } else if n1 == 3 {
            self.sbc(x)
        } else if n1 == 4 {
            self.and(x)
        } else if n1 == 5 {
            self.xor(x)
        } else if n1 == 6 {
            self.or(x)
        } else {
            self.cp(x)
        }
    }

    /// POP rr: BC, DE, HL, AF for 0 to 3.
    pub open spec fn poprr(self, rr: u8) -> (GbView, Result<(), MemError>) {
        if self.can_pop() {
            (self.pop().0.with_cpu(self.pop().0.cpu.set_stack_pair(rr, self.pop().1)), Ok(()))
        } else {
            (self, Err(MemError::StackOverflow))
        }
    }

    /// PUSH rr: BC, DE, HL, AF for 0 to 3.
    pub open spec fn pushrr(self, rr: u8) -> (GbView, Result<(), MemError>) {
        self.try_push(self.cpu.stack_pair(rr))
    }

    /// Column 0 of the first group: NOP, LD (nn),SP, the relative jumps,
    /// and STOP, which this core does not have.
    pub open spec fn op00_jumps(self, n1: u8) -> (GbView, Result<u64, MemError>) {
        if n1 == 0 {
            (self, Ok(4))
        } else if n1 == 1 {
            (self.ldnnsp(), Ok(20))
        } else if n1 == 2 {
            (self, Err(MemError::Unimplemented))
        } else if n1 == 3 {
            (self.jr8(), Ok(12))
        } else {
            (
                self.jrcc8(n1),
                Ok(
                    if self.cpu.check_flag(n1 % 4) {
                        12
                    } else {
                        8
                    },
                ),
            )
        }
    }

    /// Column 7 of the first group: the rotates of the accumulator, DAA,
    /// CPL, SCF and CCF.
    pub open spec fn op00_accumulator(self, n1: u8) -> (GbView, Result<u64, MemError>) {
        if n1 == 0 {
            (self.rlc(7), Ok(4))
        } else if n1 == 1 {
            (self.rrc(7), Ok(4))
        } else if n1 == 2 {
            (self.rl(7), Ok(4))
        } else if n1 == 3 {
            (self.rr(7), Ok(4))
        } else if n1 == 4 {
            (self.daa(), Ok(4))
        } else if n1 == 5 {
            (self.cpl(), Ok(4))
        } else if n1 == 6 {
            (self.scf(), Ok(4))
        } else {
            (self.ccf(), Ok(4))
        }
    }

    /// The instructions whose opcode begins with the bits 00. ADD HL,rr is
    /// not among those that this core has.
    #[verifier::opaque]
    pub open spec fn op00(self, n1: u8, n2: u8) -> (GbView, Result<u64, MemError>) {
        if n2 == 0 {
            self.op00_jumps(n1)
        } else if n2 == 1 {
            if n1 % 2 == 1 {
                (self, Err(MemError::Unimplemented))
            } else {
                (self.fetch16().0.ldrr16(n1 / 2, self.fetch16().1), Ok(12))
            }
        } else if n2 == 2 {
            (self.ld00a(n1), Ok(8))
        } else if n2 == 3 {
            if n1 % 2 == 1 {
                (self.dec16(n1 / 2), Ok(8))
            } else {
                (self.inc16(n1 / 2), Ok(8))
            }
        } else if n2 == 4 {
            (self.inc8(n1), Ok(4))
        } else if n2 == 5 {
            (self.dec8(n1), Ok(4))
        } else if n2 == 6 {
            (self.ldr8(n1), Ok(8))
        } else {
            self.op00_accumulator(n1)
        }
    }

    /// The instructions whose opcode begins with the bits 01: the loads
    /// between operands, and HALT where both fields select the byte at HL.
    #[verifier::opaque]
    pub open spec fn op01(self, n1: u8, n2: u8) -> (GbView, Result<u64, MemError>) {
        if n1 == 6 && n2 == 6 {
            (self.with_halt(true), Ok(4))
        } else {
            (
                self.ldrr(n1, n2),
                Ok(
                    if n1 == 6 || n2 == 6 {
                        8
                    } else {
                        4
                    },
                ),
            )
        }
    }

    /// The instructions whose opcode begins with the bits 10: the ALU
    /// operation `n1` on the accumulator and operand `n2`.
    #[verifier::opaque]
    pub open spec fn op10(self, n1: u8, n2: u8) -> (GbView, Result<u64, MemError>) {
        (
            self.alu(n1, self.r_reg(n2)),
            Ok(
                if n2 == 6 {
                    8
                } else {
                    4
                },
            ),
        )
    }

    /// The instructions of the second opcode page.
    #[verifier::opaque]
    pub open spec fn op_bitwise(self) -> (GbView, Result<u64, MemError>) {
        let s = self.fetch8().0;
        let p = self.fetch8().1;
        let n1 = (p / 8) % 8;
        let n2 = p % 8;
        let cycles: u64 = if n2 == 6 {
            16
        } else {
            8
        };
        if p / 64 == 0 {
            if n1 == 0 {
                (s.rlc(n2), Ok(cycles))
            } else if n1 == 1 {
                (s.rrc(n2), Ok(cycles))
            } else if n1 == 2 {
                (s.rl(n2), Ok(cycles))
            } else if n1 == 3 {
                (s.rr(n2), Ok(cycles))
            } else if n1 == 4 {
                (s.sla(n2), Ok(cycles))
            } else if n1 == 5 {
                (s.sra(n2), Ok(cycles))
            } else if n1 == 6 {
                (s.swap(n2), Ok(cycles))
            } else {
                (s.srl(n2), Ok(cycles))
            }
        } else if p / 64 == 1 {
            (s.bit(n1, n2), Ok(cycles))
        } else if p / 64 == 2 {
            (s.res(n1, n2), Ok(cycles))
        } else {
            (s.set(n1, n2), Ok(cycles))
        }
    }

    /// Column 0 of the last group: the loads to and from the high page at
    /// an immediate offset, ADD SP,n, LD HL,SP+n and RET cc.
    pub open spec fn op11_high_loads(self, n1: u8) -> (GbView, Result<u64, MemError>) {
        if n1 == 4 {
            (self.fetch8().0.ldnna((0xff00 + self.fetch8().1) as u16), Ok(12))
        } else if n1 == 5 {
            (self.addsp8(), Ok(16))
        } else if n1 == 6 {
            (self.fetch8().0.ldann((0xff00 + self.fetch8().1) as u16), Ok(12))
        } else if n1 == 7 {
            (self.ldhlsp8(), Ok(12))
        } else {
            with_cost(
                self.retcc(n1),
                if self.cpu.check_flag(n1 % 4) {
                    20
                } else {
                    8
                },
            )
        }
    }

    /// Column 1 of the last group: RET, RETI, JP HL, LD SP,HL and POP rr.
    pub open spec fn op11_returns(self, n1: u8) -> (GbView, Result<u64, MemError>) {
        if n1 == 1 {
            with_cost(self.ret(), 16)
        } else if n1 == 3 {
            with_cost(self.reti(), 16)
        } else if n1 == 5 {
            (self.jphl(), Ok(4))
        } else if n1 == 7 {
            (self.ldsphl(), Ok(8))
        } else {
            with_cost(self.poprr(n1 / 2), 12)
        }
    }

    /// Column 2 of the last group: the loads to and from the high page at
    /// offset C, the loads to and from an absolute address, and JP cc.
    pub open spec fn op11_absolute_loads(self, n1: u8) -> (GbView, Result<u64, MemError>) {
        if n1 == 4 {
            (self.ldnna((0xff00 + self.cpu.r[1]) as u16), Ok(8))
        } else if n1 == 5 {
            (self.fetch16().0.ldnna(self.fetch16().1), Ok(16))
        } else if n1 == 6 {
            (self.ldann((0xff00 + self.cpu.r[1]) as u16), Ok(8))
        } else if n1 == 7 {
            (self.fetch16().0.ldann(self.fetch16().1), Ok(16))
        } else {
            (
                self.jpcc16(n1),
                Ok(
                    if self.cpu.check_flag(n1 % 4) {
                        16
                    } else {
                        12
                    },
                ),
            )
        }
    }

    /// Column 3 of the last group: JP nn, the second opcode page, DI and
    /// EI; the other four bytes are no opcode.
    pub open spec fn op11_control(self, n1: u8) -> (GbView, Result<u64, MemError>) {
        if n1 == 0 {
            (self.jp16(), Ok(16))
        } else if n1 == 1 {
            self.op_bitwise()
        } else if n1 == 6 {
            (self.with_ime(false), Ok(4))
        } else if n1 == 7 {
            (self.with_ime(true), Ok(4))
        } else {
            (self, Err(MemError::Unimplemented))
        }
    }

    /// Columns 4 and 5 of the last group: CALL cc, CALL nn and PUSH rr; the
    /// other seven bytes are no opcode.
    pub open spec fn op11_calls(self, n1: u8, n2: u8) -> (GbView, Result<u64, MemError>) {
        if n2 == 4 {
            if n1 < 4 {
                with_cost(
                    self.callcc(n1),
                    if self.cpu.check_flag(n1 % 4) {
                        24
                    } else {
                        12
                    },
                )
            } else {
                (self, Err(MemError::Unimplemented))
            }
        } else if n1 == 1 {
            with_cost(self.call(), 24)
        } else if n1 % 2 == 1 {
            (self, Err(MemError::Unimplemented))
        } else {
            with_cost(self.pushrr(n1 / 2), 16)
        }
    }

    /// The instructions whose opcode begins with the bits 11. RST is not
    /// among those that this core has.
    #[verifier::opaque]
    pub open spec fn op11(self, n1: u8, n2: u8) -> (GbView, Result<u64, MemError>) {
        if n2 == 0 {
            self.op11_high_loads(n1)
        } else if n2 == 1 {
            self.op11_returns(n1)
        } else if n2 == 2 {
            self.op11_absolute_loads(n1)
        } else if n2 == 3 {
            self.op11_control(n1)
        } else if n2 == 4 || n2 == 5 {
            self.op11_calls(n1, n2)
        } else if n2 == 6 {
            (self.fetch8().0.alu(n1, self.fetch8().1), Ok(8))
        } else {
            (self, Err(MemError::Unimplemented))
        }
    }

    /// The machine after the instruction with opcode `opcode`, whose
    /// operands follow at the program counter, and the cycles it took. Bits
    /// 7 and 6 of the opcode select the group, bits 5 to 3 and 2 to 0 the
    /// two fields.
    pub open spec fn decode(self, opcode: u8) -> (GbView, Result<u64, MemError>) {
        let n1 = (opcode / 8) % 8;
        let n2 = opcode % 8;
        if opcode / 64 == 0 {
            self.op00(n1, n2)
        } else if opcode / 64 == 1 {
            self.op01(n1, n2)
        } else if opcode / 64 == 2 {
            self.op10(n1, n2)
        } else {
            self.op11(n1, n2)
        }
    }

    /// Whether interrupt source `i` is both enabled and pending.
    pub open spec fn interrupt_requested(self, i: u8) -> bool {
        spec_test_bit(self.mem.interrupts_register, i) && spec_test_bit(
            self.mem.interrupt_flags(),
            i,
        )
    }

    /// The interrupt source to serve: the lowest-numbered one among
    /// vblank (0), lcd-stat (1), timer (2), serial (3) and joypad (4) that is
    /// both enabled and pending.
    pub open spec fn interrupt_source(self) -> Option<u8> {
        if self.interrupt_requested(0) {
            Some(0u8)
        } else if self.interrupt_requested(1) {
            Some(1u8)
        } else if self.interrupt_requested(2) {
            Some(2u8)
        } else if self.interrupt_requested(3) {
            Some(3u8)
        } else if self.interrupt_requested(4) {
            Some(4u8)
        } else {
            None
        }
    }

    /// One step of the CPU. A halted CPU spends a fixed number of cycles
    /// and fetches nothing until an enabled interrupt is pending; otherwise
    /// the opcode at the program counter is fetched and carried out. A
    /// failure is fatal: the machine stays as it was before the step, so
    /// that no further step gets past the failing instruction.
    pub open spec fn exec_opcode(self) -> (GbView, Result<u64, MemError>) {
        if self.mem.halt && self.interrupt_source() is None {
            (self, Ok(HALT_CYCLES))
        } else {
            let r = self.with_halt(false).fetch8().0.decode(self.with_halt(false).fetch8().1);
            if r.1 is Err {
                (self, r.1)
            } else {
                r
            }
        }
    }

    /// The machine after the interrupt controller dispatched source `i`:
    /// the program counter is pushed and set to the vector of the source,
    /// the master enable and the pending bit of the source are cleared.
    pub open spec fn dispatch(self, i: u8) -> GbView
        recommends
            self.can_push(),
            i < 5,
    {
        let s = self.push(self.cpu.pc);
        s.with_mem(
            MemView { ime: false, ..s.mem }.set_interrupt_flags(
                spec_clear_bit(s.mem.interrupt_flags(), i),
            ),
        ).with_pc(spec_interrupt_vector(i))
    }

    /// What the interrupt controller does between two instructions, and
    /// the cycles it charges. With the master enable set and a source both
    /// enabled and pending, that source is dispatched; with the master
    /// enable clear, pending bits stay as they are.
    pub open spec fn check_interrupts(self) -> (GbView, Result<u64, MemError>) {
        if self.mem.ime && self.interrupt_source() is Some {
            if self.can_push() {
                (self.dispatch(self.interrupt_source().unwrap()), Ok(INTERRUPT_CYCLES))
            } else {
                (self, Err(MemError::StackOverflow))
            }
        } else {
            (self, Ok(0))
        }
    }
}

/// The outcome of an instruction that took `cycles` cycles unless it
/// failed.
pub open spec fn with_cost(r: (GbView, Result<(), MemError>), cycles: u64) -> (
    GbView,
    Result<u64, MemError>,
) {
    match r.1 {
        Ok(_) => (r.0, Ok(cycles)),
        Err(e) => (r.0, Err(e)),
    }
}

} // verus!
