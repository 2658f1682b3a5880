//! The I/O register block at 0xff00.
//!
//! A register that a component owns is read from and written to that
//! component; every other register is a plain byte of the block.
use crate::state::{MemError, MemView, Memory};
use vstd::prelude::*;

verus! {

/// Joypad select and state.
pub const REG_JOYPAD: u8 = 0x00;

/// Divider.
pub const REG_DIV: u8 = 0x04;

/// Programmable counter.
pub const REG_TIMA: u8 = 0x05;

/// Reload value of the programmable counter.
pub const REG_TMA: u8 = 0x06;

/// Control of the programmable counter.
pub const REG_TAC: u8 = 0x07;

/// Pending-interrupt mask.
pub const REG_IF: u8 = 0x0f;

/// LCD control.
pub const REG_LCDC: u8 = 0x40;

/// Display-interrupt configuration.
pub const REG_STAT: u8 = 0x41;

/// Viewport Y.
pub const REG_SCY: u8 = 0x42;

/// Viewport X.
pub const REG_SCX: u8 = 0x43;

/// Current scanline.
pub const REG_LY: u8 = 0x44;

/// Scanline to compare with.
pub const REG_LYC: u8 = 0x45;

/// Source page of a sprite-memory transfer.
pub const REG_DMA: u8 = 0x46;

/// Background palette.
pub const REG_BGP: u8 = 0x47;

/// First object palette.
pub const REG_OBP0: u8 = 0x48;

/// Second object palette.
pub const REG_OBP1: u8 = 0x49;

/// Window Y.
pub const REG_WY: u8 = 0x4a;

/// Window X.
pub const REG_WX: u8 = 0x4b;

/// Boot-lock register. The boot-lock bit is the latch that keeps the boot
/// overlay in place, not bit 0 of the value written: a write whose bit 0 is
/// set writes a 0 to the latch, a write whose bit 0 is clear leaves the
/// latch as it is, and nothing sets the latch again. The register reads
/// 0xfe while the latch is set and 0xff once it is cleared.
pub const REG_BOOT: u8 = 0x50;

/// The display-interrupt mode that the configuration byte `value` selects:
/// the highest of its bits 6, 5, 4, 3 that is set selects mode 3, 2, 1, 0,
/// and with none of them set no status interrupt is raised.
pub open spec fn spec_stat_mode(value: u8) -> u8 {
    if (value / 64) % 2 == 1 {
        3
    } else if (value / 32) % 2 == 1 {
        2
    } else if (value / 16) % 2 == 1 {
        1
    } else if (value / 8) % 2 == 1 {
        0
    } else {
        0xff
    }
}

/// The display-interrupt mode that the configuration byte `value` selects.
#[verifier::when_used_as_spec(spec_stat_mode)]
pub fn stat_mode(value: u8) -> (mode: u8)
    ensures
        mode == spec_stat_mode(value),
{
    if (value / 64) % 2 == 1 {
        3
    } else if (value / 32) % 2 == 1 {
        2
    } else if (value / 16) % 2 == 1 {
        1
    } else if (value / 8) % 2 == 1 {
        0
    } else {
        0xff
    }
}

impl MemView {
    /// The byte that I/O register `addr` reads as.
    #[verifier::opaque]
    pub open spec fn read_io(self, addr: u8) -> u8
        recommends
            addr < 0x80,
    {
        if addr == REG_JOYPAD {
            if self.joypad_is_action {
                (self.joypad_reg / 16 + 0xd0) as u8
            } else {
                (self.joypad_reg % 16 + 0xe0) as u8
            }
        } else if addr == REG_DIV {
            self.div
        } else if addr == REG_LCDC {
            self.display.lcdc
        } else if addr == REG_SCY {
            self.display.viewport_y
        } else if addr == REG_SCX {
            self.display.viewport_x
        } else if addr == REG_LY {
            self.display.ly
        } else if addr == REG_LYC {
            self.display.lyc
        } else if addr == REG_BGP {
            self.display.bg_palette
        } else if addr == REG_OBP0 {
            self.display.obj_palettes[0]
        } else if addr == REG_OBP1 {
            self.display.obj_palettes[1]
        } else if addr == REG_WY {
            self.display.window_y
        } else if addr == REG_WX {
            self.display.window_x
        } else if addr == REG_BOOT {
            if self.boot_rom_on {
                0xfe
            } else {
                0xff
            }
        } else {
            self.io[addr as int]
        }
    }

    /// Memory with the given display.
    pub open spec fn with_display(self, display: crate::display::DisplayView) -> MemView {
        MemView { display, ..self }
    }

    /// Memory with the given first square channel.
    pub open spec fn with_ch1(self, ch1: crate::audio::SquareChannelView) -> MemView {
        MemView { audio: crate::audio::AudioView { ch1, ..self.audio }, ..self }
    }

    /// Memory with the given second square channel.
    pub open spec fn with_ch2(self, ch2: crate::audio::SquareChannelView) -> MemView {
        MemView { audio: crate::audio::AudioView { ch2, ..self.audio }, ..self }
    }

    /// Memory with the given wave channel.
    pub open spec fn with_ch3(self, ch3: crate::audio::CustomChannelView) -> MemView {
        MemView { audio: crate::audio::AudioView { ch3, ..self.audio }, ..self }
    }

    /// Sprite memory after a transfer from `page`: its 160 bytes are the
    /// 160 bytes that the bus reads from address `page * 0x100` on.
    pub open spec fn dma_source(self, page: u8) -> Seq<u8> {
        Seq::new(0xa0, |i: int| self.read((page * 0x100 + i) as u16))
    }

    /// Memory after `value` is written to I/O register `addr`, before the
    /// sample memory of the wave channel is considered.
    #[verifier::opaque]
    pub open spec fn write_io_register(self, addr: u8, value: u8) -> MemView
        recommends
            addr < 0x80,
    {
        let d = self.display;
        if addr == REG_JOYPAD {
            MemView { joypad_is_action: (value / 32) % 2 == 0, ..self }
        } else if addr == REG_DIV {
            MemView { div: 0, div_cycles: 0, ..self }
        } else if addr == 0x11 {
            self.with_ch1(self.audio.ch1.write_duty_length(value))
        } else if addr == 0x12 {
            self.with_ch1(self.audio.ch1.write_envelope(value))
        } else if addr == 0x13 {
            self.with_ch1(self.audio.ch1.write_period_low(value))
        } else if addr == 0x14 {
            self.with_ch1(self.audio.ch1.write_period_high(value))
        } else if addr == 0x16 {
            self.with_ch2(self.audio.ch2.write_duty_length(value))
        } else if addr == 0x17 {
            self.with_ch2(self.audio.ch2.write_envelope(value))
        } else if addr == 0x18 {
            self.with_ch2(self.audio.ch2.write_period_low(value))
        } else if addr == 0x19 {
            self.with_ch2(self.audio.ch2.write_period_high(value))
        } else if addr == 0x1b {
            self.with_ch3(self.audio.ch3.write_length(value))
        } else if addr == 0x1c {
            self.with_ch3(self.audio.ch3.write_volume(value))
        } else if addr == 0x1d {
            self.with_ch3(self.audio.ch3.write_period_low(value))
        } else if addr == 0x1e {
            self.with_ch3(self.audio.ch3.write_period_high(value))
        } else if addr == REG_LCDC {
            self.with_display(crate::display::DisplayView { lcdc: value, ..d })
        } else if addr == REG_STAT {
            MemView {
                display: crate::display::DisplayView {
                    lcd_interrupt_mode: spec_stat_mode(value),
                    ..d
                },
                io: self.io.update(addr as int, value),
                ..self
            }
        } else if addr == REG_SCY {
            self.with_display(crate::display::DisplayView { viewport_y: value, ..d })
        } else if addr == REG_SCX {
            self.with_display(crate::display::DisplayView { viewport_x: value, ..d })
        } else if addr == REG_LYC {
            self.with_display(crate::display::DisplayView { lyc: value, ..d })
        } else if addr == REG_DMA {
            if value < 0xe0 {
                self.with_display(crate::display::DisplayView { oam: self.dma_source(value), ..d })
            } else {
                self
            }
        } else if addr == REG_BGP {
            self.with_display(crate::display::DisplayView { bg_palette: value, ..d })
        } else if addr == REG_OBP0 {
            self.with_display(
                crate::display::DisplayView { obj_palettes: d.obj_palettes.update(0, value), ..d },
            )
        } else if addr == REG_OBP1 {
            self.with_display(
                crate::display::DisplayView { obj_palettes: d.obj_palettes.update(1, value), ..d },
            )
        } else if addr == REG_WY {
            self.with_display(crate::display::DisplayView { window_y: value, ..d })
        } else if addr == REG_WX {
            self.with_display(crate::display::DisplayView { window_x: value, ..d })
        } else if addr == REG_BOOT {
            MemView { boot_rom_on: value % 2 == 0 && self.boot_rom_on, ..self }
        } else {
            MemView { io: self.io.update(addr as int, value), ..self }
        }
    }

    /// Memory after `value` is written to I/O register `addr`. A write to
    /// one of the sixteen bytes of sample memory also sets two samples of
    /// the wave channel.
    pub open spec fn write_io(self, addr: u8, value: u8) -> MemView
        recommends
            addr < 0x80,
    {
        let m = self.write_io_register(addr, value);
        if 0x30 <= addr <= 0x3f {
            m.with_ch3(m.audio.ch3.set_samples(addr - 0x30, value))
        } else {
            m
        }
    }
}

/// Whether one of the four buttons of a group went from released (1) to
/// pressed (0) between the nibbles `before` and `after`.
pub open spec fn spec_falling_edge(before: u8, after: u8) -> bool {
    ||| (crate::bits::spec_test_bit(before, 0) && !crate::bits::spec_test_bit(after, 0))
    ||| (crate::bits::spec_test_bit(before, 1) && !crate::bits::spec_test_bit(after, 1))
    ||| (crate::bits::spec_test_bit(before, 2) && !crate::bits::spec_test_bit(after, 2))
    ||| (crate::bits::spec_test_bit(before, 3) && !crate::bits::spec_test_bit(after, 3))
}

/// Whether one of the four buttons of a group went from released to
/// pressed.
#[verifier::when_used_as_spec(spec_falling_edge)]
pub fn falling_edge(before: u8, after: u8) -> (edge: bool)
    ensures
        edge == spec_falling_edge(before, after),
{
    let mut edge: bool = false;
    let mut n: u8 = 0;
    while n < 4
        invariant
            n <= 4,
            edge == exists|k: u8|
                k < n && crate::bits::spec_test_bit(before, k) && !crate::bits::spec_test_bit(
                    after,
                    k,
                ),
        decreases 4 - n,
    {
        if crate::bits::test_bit(before, n) && !crate::bits::test_bit(after, n) {
            edge = true;
        }
        n += 1;
    }
    edge
}

impl MemView {
    /// The nibble of the button state that belongs to the selected group.
    pub open spec fn selected_buttons(self) -> u8 {
        if self.joypad_is_action {
            self.joypad_reg / 16
        } else {
            self.joypad_reg % 16
        }
    }

    /// Memory after the buttons were polled: the low nibbles of `direction`
    /// and `action` become the button state, and a falling edge in the
    /// selected group sets the pending bit of the joypad interrupt.
    pub open spec fn update_joypad(self, direction: u8, action: u8) -> MemView {
        let selected = if self.joypad_is_action {
            action % 16
        } else {
            direction % 16
        };
        let m = if spec_falling_edge(self.selected_buttons(), selected as u8) {
            self.set_interrupt_flags(
                crate::bits::spec_set_bit(self.interrupt_flags(), crate::interrupts::JOYPAD),
            )
        } else {
            self
        };
        MemView { joypad_reg: (direction % 16 + (action % 16) * 16) as u8, ..m }
    }
}

impl Memory {
    /// Takes the state of the buttons, one bit per button and 0 for a
    /// pressed one, and raises the joypad interrupt on a falling edge in the
    /// selected group.
    pub fn update_joypad(&mut self, direction: u8, action: u8)
        ensures
            final(self)@ == old(self)@.update_joypad(direction, action),
    {
        let before: u8 = if self.joypad_is_action {
            self.joypad_reg / 16
        } else {
            self.joypad_reg % 16
        };
        let after: u8 = if self.joypad_is_action {
            action % 16
        } else {
            direction % 16
        };
        if falling_edge(before, after) {
            self.io[0x0f] = crate::bits::set_bit(self.io[0x0f], crate::interrupts::JOYPAD);
        }
        self.joypad_reg = direction % 16 + (action % 16) * 16;
    }

    /// Reads I/O register `addr`.
    pub fn r_io(&self, addr: u8) -> (value: u8)
        requires
            addr < 0x80,
        ensures
            value == self@.read_io(addr),
    {
        reveal(MemView::read_io);
        if addr == REG_JOYPAD {
            if self.joypad_is_action {
                self.joypad_reg / 16 + 0xd0
            } else {
                self.joypad_reg % 16 + 0xe0
            }
        } else if addr == REG_DIV {
            self.div
        } else if addr == REG_LCDC {
            self.display.lcdc
        } else if addr == REG_SCY {
            self.display.viewport_y
        } else if addr == REG_SCX {
            self.display.viewport_x
        } else if addr == REG_LY {
            self.display.ly
        } else if addr == REG_LYC {
            self.display.lyc
        } else if addr == REG_BGP {
            self.display.bg_palette
        } else if addr == REG_OBP0 {
            self.display.obj_palettes[0]
        } else if addr == REG_OBP1 {
            self.display.obj_palettes[1]
        } else if addr == REG_WY {
            self.display.window_y
        } else if addr == REG_WX {
            self.display.window_x
        } else if addr == REG_BOOT {
            if self.boot_rom_on {
                0xfe
            } else {
                0xff
            }
        } else {
            self.io[addr as usize]
        }
    }

    /// Copies the 160 bytes at `page * 0x100` into sprite memory.
    pub fn dma(&mut self, page: u8)
        requires
            page < 0xe0,
        ensures
            final(self)@ == old(self)@.with_display(
                crate::display::DisplayView {
                    oam: old(self)@.dma_source(page),
                    ..old(self)@.display
                },
            ),
    {
        let base: u16 = page as u16 * 0x100;
        let mut i: u16 = 0;
        while i < 0xa0
            invariant
                i <= 0xa0,
                page < 0xe0,
                base == page * 0x100,
                self@ == old(self)@.with_display(
                    crate::display::DisplayView { oam: self@.display.oam, ..old(self)@.display },
                ),
                forall|j: int|
                    0 <= j < 0xa0 ==> #[trigger] self@.display.oam[j] == (if j < i {
                        old(self)@.read((page * 0x100 + j) as u16)
                    } else {
                        old(self)@.display.oam[j]
                    }),
            decreases 0xa0 - i,
        {
            let value: u8 = match self.r(base + i) {
                Ok(v) => v,
                Err(_) => 0,
            };
            assert(self@.read((base + i) as u16) == old(self)@.read((base + i) as u16)) by {
                reveal(MemView::read);
            }
            self.display.oam[i as usize] = value;
            i += 1;
        }
        assert(self@.display.oam =~= old(self)@.dma_source(page));
    }

    /// Writes `value` to I/O register `addr`.
    pub fn w_io(&mut self, addr: u8, value: u8) -> (res: Result<(), MemError>)
        requires
            addr < 0x80,
        ensures
            res is Ok,
            final(self)@ == old(self)@.write_io(addr, value),
    {
        reveal(MemView::write_io_register);
        if addr == REG_JOYPAD {
            self.joypad_is_action = (value / 32) % 2 == 0;
        } else if addr == REG_DIV {
            self.div = 0;
            self.div_cycles = 0;
        } else if addr == 0x11 {
            self.audio.ch1.write_duty_length(value);
        } else if addr == 0x12 {
            self.audio.ch1.write_envelope(value);
        } else if addr == 0x13 {
            self.audio.ch1.write_period_low(value);
        } else if addr == 0x14 {
            self.audio.ch1.write_period_high(value);
        } else if addr == 0x16 {
            self.audio.ch2.write_duty_length(value);
        } else if addr == 0x17 {
            self.audio.ch2.write_envelope(value);
        } else if addr == 0x18 {
            self.audio.ch2.write_period_low(value);
        } else if addr == 0x19 {
            self.audio.ch2.write_period_high(value);
        } else if addr == 0x1b {
            self.audio.ch3.write_length(value);
        } else if addr == 0x1c {
            self.audio.ch3.write_volume(value);
        } else if addr == 0x1d {
            self.audio.ch3.write_period_low(value);
        } else if addr == 0x1e {
            self.audio.ch3.write_period_high(value);
        } else if addr == REG_LCDC {
            self.display.lcdc = value;
        } else if addr == REG_STAT {
            self.display.lcd_interrupt_mode = stat_mode(value);
            self.io[addr as usize] = value;
        } else if addr == REG_SCY {
            self.display.viewport_y = value;
        } else if addr == REG_SCX {
            self.display.viewport_x = value;
        } else if addr == REG_LYC {
            self.display.lyc = value;
        } else if addr == REG_DMA {
            if value < 0xe0 {
                self.dma(value);
            }
        } else if addr == REG_BGP {
            self.display.bg_palette = value;
        } else if addr == REG_OBP0 {
            self.display.obj_palettes[0] = value;
        } else if addr == REG_OBP1 {
            self.display.obj_palettes[1] = value;
        } else if addr == REG_WY {
            self.display.window_y = value;
        } else if addr == REG_WX {
            self.display.window_x = value;
        } else if addr == REG_BOOT {
            self.boot_rom_on = value % 2 == 0 && self.boot_rom_on;
        } else {
            self.io[addr as usize] = value;
        }
        if addr >= 0x30 && addr <= 0x3f {
            self.audio.ch3.set_samples((addr - 0x30) as usize, value);
        }
        Ok(())
    }
}

} // verus!
