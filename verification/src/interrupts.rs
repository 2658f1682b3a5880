//! The interrupt controller and the timer.
use crate::bits::{clear_bit, set_bit, test_bit};
use crate::display::DisplayInterrupt;
use crate::isa::INTERRUPT_CYCLES;
use crate::opcodes;
use crate::state::{GBState, GbView, MemError, MemView};
use vstd::prelude::*;

verus! {

/// Interrupt source of the vertical blank.
pub const VBLANK: u8 = 0;

/// Interrupt source of the display status.
pub const LCD_STAT: u8 = 1;

/// Interrupt source of the timer.
pub const TIMER: u8 = 2;

/// Interrupt source of the serial port.
pub const SERIAL: u8 = 3;

/// Interrupt source of the joypad.
pub const JOYPAD: u8 = 4;

/// The vector of interrupt source `i`.
pub fn interrupt_vector(i: u8) -> (vector: u16)
    requires
        i < 5,
    ensures
        vector == crate::isa::spec_interrupt_vector(i),
{
    0x40 + 8 * i as u16
}

/// Cycles per step of the programmable counter under control byte `tac`.
pub open spec fn spec_tima_period(tac: u8) -> u64 {
    if tac % 4 == 0 {
        1024
    } else if tac % 4 == 1 {
        16
    } else if tac % 4 == 2 {
        64
    } else {
        256
    }
}

/// Cycles per step of the programmable counter under control byte `tac`.
#[verifier::when_used_as_spec(spec_tima_period)]
pub fn tima_period(tac: u8) -> (period: u64)
    ensures
        period == spec_tima_period(tac),
        period >= 16,
{
    if tac % 4 == 0 {
        1024
    } else if tac % 4 == 1 {
        16
    } else if tac % 4 == 2 {
        64
    } else {
        256
    }
}

impl MemView {
    /// Memory after `cycles` cycles of the divider, which steps once every
    /// 256 cycles and wraps at 256.
    pub open spec fn div_timer(self, cycles: u64) -> MemView {
        MemView {
            div: ((self.div + (self.div_cycles + cycles) / 256) % 256) as u8,
            div_cycles: ((self.div_cycles + cycles) % 256) as u64,
            ..self
        }
    }

    /// Whether the programmable counter runs: bit 2 of its control byte.
    pub open spec fn tima_enabled(self) -> bool {
        crate::bits::spec_test_bit(self.io[0x07], 2)
    }

    /// Memory after one step of the programmable counter: it counts up,
    /// and from 255 it goes on with the reload value and sets the pending
    /// bit of the timer interrupt.
    pub open spec fn tima_tick(self) -> MemView {
        if self.io[0x05] == 255 {
            MemView {
                io: self.io.update(0x05, self.io[0x06]).update(
                    0x0f,
                    crate::bits::spec_set_bit(self.io[0x0f], TIMER),
                ),
                ..self
            }
        } else {
            MemView { io: self.io.update(0x05, (self.io[0x05] + 1) as u8), ..self }
        }
    }

    /// Memory after `n` steps of the programmable counter.
    pub open spec fn tima_ticks(self, n: nat) -> MemView
        decreases n,
    {
        if n == 0 {
            self
        } else {
            self.tima_ticks((n - 1) as nat).tima_tick()
        }
    }

    /// The steps that `cycles` more cycles make the programmable counter
    /// take.
    pub open spec fn tima_steps(self, cycles: u64) -> nat {
        ((self.tima_cycles + cycles) / (spec_tima_period(self.io[0x07]) as int)) as nat
    }

    /// Memory after `cycles` cycles of the programmable counter. Switched
    /// off, it stands still.
    pub open spec fn tima_timer(self, cycles: u64) -> MemView {
        if self.tima_enabled() {
            MemView {
                tima_cycles: ((self.tima_cycles + cycles) % (spec_tima_period(
                    self.io[0x07],
                ) as int)) as u64,
                ..self.tima_ticks(self.tima_steps(cycles))
            }
        } else {
            self
        }
    }

    /// Memory with the pending bits that the display asked for.
    pub open spec fn raise_display(self, interrupt: DisplayInterrupt) -> MemView {
        let flags = self.interrupt_flags();
        match interrupt {
            DisplayInterrupt::Vblank => self.set_interrupt_flags(
                crate::bits::spec_set_bit(flags, VBLANK),
            ),
            DisplayInterrupt::Stat => self.set_interrupt_flags(
                crate::bits::spec_set_bit(flags, LCD_STAT),
            ),
            DisplayInterrupt::Both => self.set_interrupt_flags(
                crate::bits::spec_set_bit(crate::bits::spec_set_bit(flags, VBLANK), LCD_STAT),
            ),
            DisplayInterrupt::Nothing => self,
        }
    }

    /// Memory after the display advanced by `cycles` dots and its requests
    /// were latched in the pending mask.
    pub open spec fn update_display_interrupts(self, cycles: u64) -> MemView {
        self.with_display(self.display.update_display(cycles)).raise_display(
            self.display.update_display_interrupt(cycles),
        )
    }
}

impl GbView {
    /// The machine after `cycles` cycles of the divider, the programmable
    /// counter and the display.
    pub open spec fn advance_clocks(self, cycles: u64) -> GbView {
        self.with_mem(
            self.mem.div_timer(cycles).tima_timer(cycles).update_display_interrupts(cycles),
        )
    }

    /// Whether `cycles` cycles take the display into the vertical blank.
    pub open spec fn enters_vblank(self, cycles: u64) -> bool {
        self.mem.display.update_display_interrupt(cycles) == DisplayInterrupt::Vblank
            || self.mem.display.update_display_interrupt(cycles) == DisplayInterrupt::Both
    }

    /// One turn of the machine: the CPU steps, its cycles drive the timer
    /// and the display, and the interrupt controller is consulted; the
    /// cycles of a dispatch drive timer and display as well. The result is
    /// the cycles spent and whether the display entered the vertical blank,
    /// which completes a frame. A failure stops the turn where it occurs: a
    /// failing instruction leaves the machine as it was before the turn, a
    /// failing dispatch as the instruction and the clocks left it.
    pub open spec fn step(self) -> (GbView, Result<(u64, bool), MemError>) {
        let e = self.exec_opcode();
        match e.1 {
            Err(err) => (e.0, Err(err)),
            Ok(c) => {
                let clocked = e.0.advance_clocks(c);
                let i = clocked.check_interrupts();
                match i.1 {
                    Err(err) => (i.0, Err(err)),
                    Ok(d) => if d == 0 {
                        (i.0, Ok((c, e.0.enters_vblank(c))))
                    } else {
                        (
                            i.0.advance_clocks(d),
                            Ok(((c + d) as u64, e.0.enters_vblank(c) || i.0.enters_vblank(d))),
                        )
                    },
                }
            },
        }
    }
}

impl GBState {
    /// Advances the divider, the programmable counter and the display by
    /// `cycles` cycles, and says whether the display entered the vertical
    /// blank.
    pub fn advance_clocks(&mut self, cycles: u64) -> (vblank: bool)
        ensures
            final(self)@ == old(self)@.advance_clocks(cycles),
            vblank == old(self)@.enters_vblank(cycles),
    {
        self.div_timer(cycles);
        self.tima_timer(cycles);
        assert(self@.mem.display == old(self)@.mem.display) by {
            lemma_tima_ticks_keep_display(
                old(self)@.mem.div_timer(cycles),
                old(self)@.mem.div_timer(cycles).tima_steps(cycles),
            );
        }
        let interrupt: DisplayInterrupt = self.update_display_interrupts(cycles);
        match interrupt {
            DisplayInterrupt::Vblank => true,
            DisplayInterrupt::Both => true,
            _ => false,
        }
    }

    /// Performs one turn of the machine and returns the cycles it took
    /// and whether a frame was completed.
    pub fn step(&mut self) -> (res: Result<(u64, bool), MemError>)
        ensures
            (final(self)@, res) == old(self)@.step(),
    {
        let c: u64 = crate::exec_opcode(self)?;
        let frame: bool = self.advance_clocks(c);
        let d: u64 = self.check_interrupts()?;
        if d == 0 {
            Ok((c, frame))
        } else {
            let late: bool = self.advance_clocks(d);
            Ok((c + d, frame || late))
        }
    }

    /// The interrupt source to serve, if one is both enabled and pending.
    pub fn interrupt_source(&self) -> (source: Option<u8>)
        ensures
            source == self@.interrupt_source(),
            source is Some ==> source.unwrap() < 5,
    {
        let enabled: u8 = self.mem.interrupts_register;
        let pending: u8 = self.mem.io[0x0f];
        let mut i: u8 = 0;
        while i < 5
            invariant
                i <= 5,
                enabled == self@.mem.interrupts_register,
                pending == self@.mem.interrupt_flags(),
                forall|j: u8| j < i ==> !self@.interrupt_requested(j),
            decreases 5 - i,
        {
            if test_bit(enabled, i) && test_bit(pending, i) {
                return Some(i);
            }
            i += 1;
        }
        None
    }

    /// Consults the interrupt controller between two instructions and
    /// returns the cycles it charges: the dispatch cost if a source was
    /// dispatched, else 0.
    ///
    /// Fails with [`MemError::StackOverflow`], and changes nothing, if a
    /// source is to be dispatched and the stack has no room for the program
    /// counter.
    pub fn check_interrupts(&mut self) -> (res: Result<u64, MemError>)
        ensures
            (final(self)@, res) == old(self)@.check_interrupts(),
    {
        if self.mem.ime {
            match self.interrupt_source() {
                Some(i) => {
                    opcodes::push(self, self.cpu.pc)?;
                    self.mem.ime = false;
                    self.mem.io[0x0f] = clear_bit(self.mem.io[0x0f], i);
                    self.cpu.pc = interrupt_vector(i);
                    return Ok(INTERRUPT_CYCLES);
                },
                None => {},
            }
        }
        Ok(0)
    }

    /// Advances the divider by `cycles` cycles.
    pub fn div_timer(&mut self, cycles: u64)
        ensures
            final(self)@ == old(self)@.with_mem(old(self)@.mem.div_timer(cycles)),
    {
        let total: u128 = self.mem.div_cycles as u128 + cycles as u128;
        self.mem.div = ((self.mem.div as u128 + total / 256) % 256) as u8;
        self.mem.div_cycles = (total % 256) as u64;
    }

    /// Advances the programmable counter by `cycles` cycles.
    pub fn tima_timer(&mut self, cycles: u64)
        ensures
            final(self)@ == old(self)@.with_mem(old(self)@.mem.tima_timer(cycles)),
    {
        let tac: u8 = self.mem.io[0x07];
        if !test_bit(tac, 2) {
            return ;
        }
        let period: u64 = tima_period(tac);
        let rest: u64 = self.mem.tima_cycles % period + cycles % period;
        let steps: u64 = self.mem.tima_cycles / period + cycles / period + rest / period;
        assert(steps == old(self)@.mem.tima_steps(cycles) && rest % period == (
        old(self)@.mem.tima_cycles + cycles) % (period as int)) by {
            lemma_split_division(old(self)@.mem.tima_cycles as int, cycles as int, period as int);
        }
        let mut i: u64 = 0;
        while i < steps
            invariant
                i <= steps,
                self@ == old(self)@.with_mem(old(self)@.mem.tima_ticks(i as nat)),
            decreases steps - i,
        {
            if self.mem.io[0x05] == 255 {
                self.mem.io[0x05] = self.mem.io[0x06];
                self.mem.io[0x0f] = set_bit(self.mem.io[0x0f], TIMER);
            } else {
                self.mem.io[0x05] = self.mem.io[0x05] + 1;
            }
            i += 1;
        }
        self.mem.tima_cycles = rest % period;
    }

    /// Advances the display by `cycles` dots, latches the interrupts it
    /// asks for in the pending mask, and returns them.
    pub fn update_display_interrupts(&mut self, cycles: u64) -> (interrupt: DisplayInterrupt)
        ensures
            final(self)@ == old(self)@.with_mem(old(self)@.mem.update_display_interrupts(cycles)),
            interrupt == old(self)@.mem.display.update_display_interrupt(cycles),
    {
        let interrupt: DisplayInterrupt = self.mem.display.update_display(cycles);
        let flags: u8 = self.mem.io[0x0f];
        match interrupt {
            DisplayInterrupt::Vblank => {
                self.mem.io[0x0f] = set_bit(flags, VBLANK);
            },
            DisplayInterrupt::Stat => {
                self.mem.io[0x0f] = set_bit(flags, LCD_STAT);
            },
            DisplayInterrupt::Both => {
                self.mem.io[0x0f] = set_bit(set_bit(flags, VBLANK), LCD_STAT);
            },
            DisplayInterrupt::Nothing => {},
        }
        interrupt
    }
}

/// Quotient and remainder of a sum by `d`, from those of the two terms.
pub proof fn lemma_split_division(a: int, b: int, d: int)
    requires
        0 <= a,
        0 <= b,
        0 < d,
    ensures
        (a + b) / d == a / d + b / d + (a % d + b % d) / d,
        (a + b) % d == (a % d + b % d) % d,
{
    vstd::arithmetic::div_mod::lemma_fundamental_div_mod(a, d);
    vstd::arithmetic::div_mod::lemma_fundamental_div_mod(b, d);
    let r = a % d + b % d;
    vstd::arithmetic::div_mod::lemma_fundamental_div_mod(r, d);
    let q = a / d + b / d + r / d;
    assert(a + b == d * q + r % d) by (nonlinear_arith)
        requires
            a == d * (a / d) + a % d,
            b == d * (b / d) + b % d,
            r == d * (r / d) + r % d,
            r == a % d + b % d,
            q == a / d + b / d + r / d,
    ;
    vstd::arithmetic::div_mod::lemma_mod_bound(r, d);
    vstd::arithmetic::div_mod::lemma_fundamental_div_mod_converse(a + b, d, q, r % d);
}

/// With the master enable set and source `i` the lowest one that is both
/// enabled and pending, the controller leaves the program counter at the
/// vector of `i`, the master enable and the pending bit of `i` cleared, and
/// the former program counter on the stack, from which a pop brings it
/// back and restores the stack pointer.
pub proof fn lemma_interrupt_dispatch(s: GbView, i: u8)
    requires
        s.wf(),
        s.mem.ime,
        i < 5,
        s.interrupt_requested(i),
        forall|j: u8| j < i ==> !s.interrupt_requested(j),
        s.can_push(),
    ensures
        s.check_interrupts().1 == Ok::<u64, MemError>(INTERRUPT_CYCLES),
        s.check_interrupts().0.cpu.pc == crate::isa::spec_interrupt_vector(i),
        !s.check_interrupts().0.mem.ime,
        !crate::bits::spec_test_bit(s.check_interrupts().0.mem.interrupt_flags(), i),
        s.check_interrupts().0.can_pop(),
        s.check_interrupts().0.pop().1 == s.cpu.pc,
        s.check_interrupts().0.pop().0.cpu.sp == s.cpu.sp,
{
    reveal(MemView::read);
    reveal(MemView::write);
    assert(s.interrupt_source() == Some(i));
    let pushed = s.push(s.cpu.pc);
    crate::bits::lemma_bit_written(pushed.mem.interrupt_flags(), i);
    crate::isa::laws::lemma_push_pop(s, s.cpu.pc);
}

/// With the master enable clear nothing is dispatched: the machine stays
/// as it is, pending bits included, and no cycles are charged.
pub proof fn lemma_interrupts_masked(s: GbView)
    requires
        !s.mem.ime,
    ensures
        s.check_interrupts() == (s, Ok::<u64, MemError>(0)),
{
}

/// The programmable counter does not touch the display.
pub proof fn lemma_tima_ticks_keep_display(m: MemView, n: nat)
    ensures
        m.tima_ticks(n).display == m.display,
    decreases n,
{
    if n > 0 {
        lemma_tima_ticks_keep_display(m, (n - 1) as nat);
    }
}

} // verus!
