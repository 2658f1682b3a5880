//! The machine state: register file, memory bus and the two together.
use crate::audio::{Audio, AudioView};
use crate::display::{Display, DisplayView};
use vstd::prelude::*;

pub mod flag;
pub mod reg;

verus! {

/// Program counter at power-on.
pub const PROGRAM_START_ADDRESS: u16 = 0x0;

/// Stack pointer at power-on.
pub const STACK_START_ADDRESS: u16 = 0x0;

/// Why a bus or CPU operation failed. Every failure is fatal: the
/// instruction or the interrupt dispatch that reports it has changed
/// nothing, and the machine must not be run any further.
#[derive(Clone, Copy, Debug, PartialEq, Eq, Structural)]
pub enum MemError {
    /// A write reached read-only memory.
    WritingToROM,
    /// The opcode names an instruction that this core does not have.
    Unimplemented,
    /// The address is in a prohibited area.
    NotUsable,
    /// The stack pointer left the high-RAM window of the stack.
    StackOverflow,
}

/// The register file as a mathematical value.
pub struct CpuView {
    /// The eight 8-bit registers B, C, D, E, H, L, A, F in this order.
    pub r: Seq<u8>,
    pub pc: u16,
    pub sp: u16,
}

impl CpuView {
    /// The register file holds exactly eight 8-bit registers.
    pub open spec fn wf(self) -> bool {
        self.r.len() == 8
    }

    /// The accumulator.
    pub open spec fn a(self) -> u8 {
        self.r[6]
    }

    /// The flag register.
    pub open spec fn f(self) -> u8 {
        self.r[7]
    }

    /// The 16-bit value of pair `r`: BC, DE, HL for 0, 1, 2 and the stack
    /// pointer for 3. The first register of a pair holds the high byte.
    pub open spec fn r16(self, r: u8) -> u16
        recommends
            r <= 3,
    {
        if r == reg::SP {
            self.sp
        } else {
            (self.r[r * 2] * 256 + self.r[r * 2 + 1]) as u16
        }
    }

    /// The register file after pair `r` is set to `value`.
    pub open spec fn w16(self, r: u8, value: u16) -> CpuView
        recommends
            r <= 3,
    {
        if r == reg::SP {
            CpuView { sp: value, ..self }
        } else {
            CpuView {
                r: self.r.update(r * 2 + 1, (value % 256) as u8).update(
                    r * 2,
                    (value / 256) as u8,
                ),
                ..self
            }
        }
    }

    /// The 16-bit value of the pair that PUSH and POP select with `r`:
    /// BC, DE, HL for 0, 1, 2 and AF for 3.
    pub open spec fn stack_pair(self, r: u8) -> u16
        recommends
            r <= 3,
    {
        (self.r[r * 2] * 256 + self.r[r * 2 + 1]) as u16
    }

    /// The register file after POP stores `value` in the pair selected by
    /// `r`. The low nibble of F stays zero.
    pub open spec fn set_stack_pair(self, r: u8, value: u16) -> CpuView
        recommends
            r <= 3,
    {
        let low: int = if r == 3 {
            value % 256 - value % 16
        } else {
            (value % 256) as int
        };
        CpuView {
            r: self.r.update(r * 2 + 1, low as u8).update(r * 2, (value / 256) as u8),
            ..self
        }
    }

    /// Whether condition code `cc` holds of the flag register.
    pub open spec fn check_flag(self, cc: u8) -> bool
        recommends
            cc < 4,
    {
        if cc == flag::NZ {
            !flag::spec_zero(self.f())
        } else if cc == flag::Z {
            flag::spec_zero(self.f())
        } else if cc == flag::NC {
            !flag::spec_carry(self.f())
        } else {
            flag::spec_carry(self.f())
        }
    }

    /// The register file with register `i` of the file set to `value`.
    pub open spec fn set_r(self, i: int, value: u8) -> CpuView {
        CpuView { r: self.r.update(i, value), ..self }
    }

    /// The register file with the flag register set to `value`.
    pub open spec fn set_f(self, value: u8) -> CpuView {
        self.set_r(7, value)
    }

    /// The register file with the accumulator set to `value`.
    pub open spec fn set_a(self, value: u8) -> CpuView {
        self.set_r(6, value)
    }

    /// The register file at power-on.
    pub open spec fn power_on() -> CpuView {
        CpuView {
            r: Seq::new(8, |i: int| 0u8),
            pc: PROGRAM_START_ADDRESS,
            sp: STACK_START_ADDRESS,
        }
    }
}

/// The register file.
#[derive(Debug)]
pub struct CPU {
    /// B, C, D, E, H, L, A, F. In a 3-bit operand field A is written 7 and
    /// the byte at the address in HL is written 6.
    pub r: [u8; 8],
    /// Program counter.
    pub pc: u16,
    /// Stack pointer.
    pub sp: u16,
}

impl View for CPU {
    type V = CpuView;

    open spec fn view(&self) -> CpuView {
        CpuView { r: self.r@, pc: self.pc, sp: self.sp }
    }
}

impl CPU {
    /// The register file at power-on.
    pub fn new() -> (cpu: CPU)
        ensures
            cpu@ == CpuView::power_on(),
    {
        let cpu = CPU { r: [0;8], pc: PROGRAM_START_ADDRESS, sp: STACK_START_ADDRESS };
        assert(cpu.r@ =~= Seq::new(8, |i: int| 0u8));
        cpu
    }

    /// The 16-bit value of pair `r`.
    pub fn r16(&self, r: u8) -> (value: u16)
        requires
            r <= 3,
        ensures
            value == self@.r16(r),
    {
        if r == reg::SP {
            self.sp
        } else {
            let i: usize = r as usize * 2;
            (self.r[i] as u16) * 256 + self.r[i + 1] as u16
        }
    }

    /// Sets pair `r` to `value`.
    pub fn w16(&mut self, r: u8, value: u16)
        requires
            r <= 3,
        ensures
            final(self)@ == old(self)@.w16(r, value),
    {
        if r == reg::SP {
            self.sp = value;
        } else {
            let i: usize = r as usize * 2;
            self.r[i + 1] = (value % 256) as u8;
            self.r[i] = (value / 256) as u8;
        }
    }

    /// The pair that PUSH reads for selector `r`.
    pub fn stack_pair(&self, r: u8) -> (value: u16)
        requires
            r <= 3,
        ensures
            value == self@.stack_pair(r),
    {
        let i: usize = r as usize * 2;
        (self.r[i] as u16) * 256 + self.r[i + 1] as u16
    }

    /// Stores `value` in the pair that POP writes for selector `r`.
    pub fn set_stack_pair(&mut self, r: u8, value: u16)
        requires
            r <= 3,
        ensures
            final(self)@ == old(self)@.set_stack_pair(r, value),
    {
        let i: usize = r as usize * 2;
        let low: u16 = if r == 3 {
            value % 256 - value % 16
        } else {
            value % 256
        };
        self.r[i + 1] = low as u8;
        self.r[i] = (value / 256) as u8;
    }

    /// Whether condition code `flag` holds of the flag register.
    pub fn check_flag(&self, flag: u8) -> (holds: bool)
        requires
            flag < 4,
        ensures
            holds == self@.check_flag(flag),
    {
        let f: u8 = self.r[7];
        if flag == flag::NZ {
            !flag::zero(f)
        } else if flag == flag::Z {
            flag::zero(f)
        } else if flag == flag::NC {
            !flag::carry(f)
        } else {
            flag::carry(f)
        }
    }
}

/// The owners of the address space. Every address has exactly one.
#[derive(Clone, Copy, Debug, PartialEq, Eq, Structural)]
pub enum Region {
    /// 0x0000 to 0x00ff while the boot-lock latch is set.
    BootOverlay,
    /// 0x0000 to 0x7fff, but for the active boot overlay.
    CartridgeRom,
    /// 0x8000 to 0x9fff: tile data and tile maps, owned by the display.
    VideoRam,
    /// 0xc000 to 0xdfff, and its echo at 0xe000 to 0xefff.
    WorkRam,
    /// 0xfe00 to 0xfe9f: sprite attributes, owned by the display.
    SpriteMemory,
    /// 0xff00 to 0xff7f.
    IoRegisters,
    /// 0xff80 to 0xfffe.
    HighRam,
    /// 0xffff.
    InterruptEnable,
    /// The ranges that no store backs: they read as 0 and ignore writes.
    Unbacked,
}

/// The owner of address `addr`, given the state of the boot-lock latch.
pub open spec fn spec_region(boot_rom_on: bool, addr: u16) -> Region {
    if addr < 0x100 && boot_rom_on {
        Region::BootOverlay
    } else if addr < 0x8000 {
        Region::CartridgeRom
    } else if addr < 0xa000 {
        Region::VideoRam
    } else if addr < 0xc000 {
        Region::Unbacked
    } else if addr < 0xf000 {
        Region::WorkRam
    } else if addr < 0xfe00 {
        Region::Unbacked
    } else if addr < 0xfea0 {
        Region::SpriteMemory
    } else if addr < 0xff00 {
        Region::Unbacked
    } else if addr < 0xff80 {
        Region::IoRegisters
    } else if addr < 0xffff {
        Region::HighRam
    } else {
        Region::InterruptEnable
    }
}

/// Everything behind the bus, as a mathematical value.
pub struct MemView {
    pub boot_rom: Seq<u8>,
    pub boot_rom_on: bool,
    pub rom: Seq<u8>,
    pub wram_00: Seq<u8>,
    pub wram_01: Seq<u8>,
    pub display: DisplayView,
    pub io: Seq<u8>,
    pub hram: Seq<u8>,
    pub audio: AudioView,
    pub ime: bool,
    pub div: u8,
    pub div_cycles: u64,
    pub tima_cycles: u64,
    pub joypad_reg: u8,
    pub joypad_is_action: bool,
    pub interrupts_register: u8,
    pub halt: bool,
}

impl MemView {
    /// Every store has its fixed size.
    pub open spec fn wf(self) -> bool {
        &&& self.boot_rom.len() == 0x100
        &&& self.rom.len() == 0x8000
        &&& self.wram_00.len() == 0x1000
        &&& self.wram_01.len() == 0x1000
        &&& self.display.wf()
        &&& self.io.len() == 0x80
        &&& self.hram.len() == 0x7f
        &&& self.audio.wf()
    }

    /// Memory at power-on: every store zeroed, the boot overlay active, the
    /// display off and its screen cleared.
    pub open spec fn power_on() -> MemView {
        MemView {
            boot_rom: Seq::new(0x100, |i: int| 0u8),
            boot_rom_on: true,
            rom: Seq::new(0x8000, |i: int| 0u8),
            wram_00: Seq::new(0x1000, |i: int| 0u8),
            wram_01: Seq::new(0x1000, |i: int| 0u8),
            display: DisplayView::power_on().cls(),
            io: Seq::new(0x80, |i: int| 0u8),
            hram: Seq::new(0x7f, |i: int| 0u8),
            audio: AudioView::power_on(),
            ime: false,
            div: 0,
            div_cycles: 0,
            tima_cycles: 0,
            joypad_reg: 0,
            joypad_is_action: false,
            interrupts_register: 0,
            halt: false,
        }
    }

    /// `store` with its first cells replaced by `data`, as far as either
    /// reaches.
    pub open spec fn overlay(store: Seq<u8>, data: Seq<u8>) -> Seq<u8> {
        Seq::new(
            store.len(),
            |i: int|
                if i < data.len() {
                    data[i]
                } else {
                    store[i]
                },
        )
    }

    /// Memory after `data` is loaded into the boot overlay.
    pub open spec fn load_boot_rom(self, data: Seq<u8>) -> MemView {
        MemView { boot_rom: Self::overlay(self.boot_rom, data), ..self }
    }

    /// Memory after `data` is loaded into the cartridge ROM from address 0.
    pub open spec fn load_rom(self, data: Seq<u8>) -> MemView {
        MemView { rom: Self::overlay(self.rom, data), ..self }
    }

    /// The byte that the bus reads at `addr`. Every address belongs to
    /// exactly one of the ranges below; the two ranges that no store backs
    /// read as 0.
    #[verifier::opaque]
    pub open spec fn read(self, addr: u16) -> u8 {
        if addr < 0x100 && self.boot_rom_on {
            self.boot_rom[addr as int]
        } else if addr < 0x8000 {
            self.rom[addr as int]
        } else if addr < 0xa000 {
            self.display.read((addr - 0x8000) as u16)
        } else if addr < 0xc000 {
            0
        } else if addr < 0xd000 {
            self.wram_00[addr - 0xc000]
        } else if addr < 0xe000 {
            self.wram_01[addr - 0xd000]
        } else if addr < 0xf000 {
            self.wram_00[addr - 0xe000]
        } else if addr < 0xfe00 {
            0
        } else if addr < 0xfea0 {
            self.display.read((addr - 0x8000) as u16)
        } else if addr < 0xff00 {
            0
        } else if addr < 0xff80 {
            self.read_io((addr - 0xff00) as u8)
        } else if addr < 0xffff {
            self.hram[addr - 0xff80]
        } else {
            self.interrupts_register
        }
    }

    /// Memory after the bus writes `value` at `addr`. A write to the boot
    /// overlay, to the cartridge ROM or to a range that no store backs is
    /// discarded.
    #[verifier::opaque]
    pub open spec fn write(self, addr: u16, value: u8) -> MemView {
        if addr < 0x8000 {
            self
        } else if addr < 0xa000 {
            MemView { display: self.display.write((addr - 0x8000) as u16, value), ..self }
        } else if addr < 0xc000 {
            self
        } else if addr < 0xd000 {
            MemView { wram_00: self.wram_00.update(addr - 0xc000, value), ..self }
        } else if addr < 0xe000 {
            MemView { wram_01: self.wram_01.update(addr - 0xd000, value), ..self }
        } else if addr < 0xf000 {
            MemView { wram_00: self.wram_00.update(addr - 0xe000, value), ..self }
        } else if addr < 0xfe00 {
            self
        } else if addr < 0xfea0 {
            MemView { display: self.display.write((addr - 0x8000) as u16, value), ..self }
        } else if addr < 0xff00 {
            self
        } else if addr < 0xff80 {
            self.write_io((addr - 0xff00) as u8, value)
        } else if addr < 0xffff {
            MemView { hram: self.hram.update(addr - 0xff80, value), ..self }
        } else {
            MemView { interrupts_register: value, ..self }
        }
    }

    /// The pending-interrupt mask.
    pub open spec fn interrupt_flags(self) -> u8 {
        self.io[0x0f]
    }

    /// Memory with the pending-interrupt mask set to `value`.
    pub open spec fn set_interrupt_flags(self, value: u8) -> MemView {
        MemView { io: self.io.update(0x0f, value), ..self }
    }
}

/// Everything behind the bus: the backing stores, the display engine, the
/// sound registers, and the interrupt and timer state.
pub struct Memory {
    pub boot_rom: [u8; 0x100],
    /// The boot-lock latch: while set, the boot overlay covers the first
    /// 256 bytes of the ROM. A write of a value with bit 0 set to register
    /// 0xff50 clears it for good.
    pub boot_rom_on: bool,
    /// 32 KiB of cartridge ROM.
    pub rom: [u8; 0x8000],
    /// 4 KiB of work RAM at 0xc000, mirrored at 0xe000.
    pub wram_00: [u8; 0x1000],
    /// 4 KiB of work RAM at 0xd000.
    pub wram_01: [u8; 0x1000],
    /// The display engine with its 8 KiB of video RAM.
    pub display: Display,
    /// The I/O registers that no component claims.
    pub io: [u8; 0x80],
    /// High RAM.
    pub hram: [u8; 0x7f],
    pub audio: Audio,
    /// Interrupt master enable.
    pub ime: bool,
    /// The divider register.
    pub div: u8,
    /// Cycles counted towards the next step of the divider.
    pub div_cycles: u64,
    /// Cycles counted towards the next step of the programmable counter.
    pub tima_cycles: u64,
    /// Button state: directions in the low nibble, actions in the high.
    pub joypad_reg: u8,
    /// Whether the program selected the action buttons.
    pub joypad_is_action: bool,
    /// The interrupt-enable mask.
    pub interrupts_register: u8,
    /// Whether the CPU is halted.
    pub halt: bool,
}

impl View for Memory {
    type V = MemView;

    open spec fn view(&self) -> MemView {
        MemView {
            boot_rom: self.boot_rom@,
            boot_rom_on: self.boot_rom_on,
            rom: self.rom@,
            wram_00: self.wram_00@,
            wram_01: self.wram_01@,
            display: self.display@,
            io: self.io@,
            hram: self.hram@,
            audio: self.audio@,
            ime: self.ime,
            div: self.div,
            div_cycles: self.div_cycles,
            tima_cycles: self.tima_cycles,
            joypad_reg: self.joypad_reg,
            joypad_is_action: self.joypad_is_action,
            interrupts_register: self.interrupts_register,
            halt: self.halt,
        }
    }
}

impl Memory {
    /// Memory at power-on.
    pub fn new() -> (mem: Memory)
        ensures
            mem@ == MemView::power_on(),
    {
        let mut display = Display::new();
        display.cls();
        let mem = Memory {
            boot_rom: [0;0x100],
            boot_rom_on: true,
            rom: [0;0x8000],
            wram_00: [0;0x1000],
            wram_01: [0;0x1000],
            display,
            io: [0;0x80],
            hram: [0;0x7f],
            audio: Audio::new(),
            ime: false,
            interrupts_register: 0,
            joypad_is_action: false,
            joypad_reg: 0,
            div: 0,
            div_cycles: 0,
            tima_cycles: 0,
            halt: false,
        };
        assert(mem@.boot_rom =~= MemView::power_on().boot_rom);
        assert(mem@.rom =~= MemView::power_on().rom);
        assert(mem@.wram_00 =~= MemView::power_on().wram_00);
        assert(mem@.wram_01 =~= MemView::power_on().wram_01);
        assert(mem@.io =~= MemView::power_on().io);
        assert(mem@.hram =~= MemView::power_on().hram);
        mem
    }

    /// Loads `data` into the boot overlay, as far as it fits.
    pub fn load_boot_rom(&mut self, data: &[u8])
        ensures
            final(self)@ == old(self)@.load_boot_rom(data@),
    {
        let mut i: usize = 0;
        while i < 0x100 && i < data.len()
            invariant
                i <= 0x100,
                i <= data.len(),
                self@ == (MemView { boot_rom: self@.boot_rom, ..old(self)@ }),
                forall|j: int|
                    0 <= j < 0x100 ==> #[trigger] self@.boot_rom[j] == (if j < i {
                        data@[j]
                    } else {
                        old(self)@.boot_rom[j]
                    }),
            decreases 0x100 - i,
        {
            self.boot_rom[i] = data[i];
            i += 1;
        }
        assert(self@.boot_rom =~= old(self)@.load_boot_rom(data@).boot_rom);
    }

    /// Loads `data` into the cartridge ROM from address 0, as far as it
    /// fits.
    pub fn load_rom(&mut self, data: &[u8])
        ensures
            final(self)@ == old(self)@.load_rom(data@),
    {
        let mut i: usize = 0;
        while i < 0x8000 && i < data.len()
            invariant
                i <= 0x8000,
                i <= data.len(),
                self@ == (MemView { rom: self@.rom, ..old(self)@ }),
                forall|j: int|
                    0 <= j < 0x8000 ==> #[trigger] self@.rom[j] == (if j < i {
                        data@[j]
                    } else {
                        old(self)@.rom[j]
                    }),
            decreases 0x8000 - i,
        {
            self.rom[i] = data[i];
            i += 1;
        }
        assert(self@.rom =~= old(self)@.load_rom(data@).rom);
    }

    /// The owner of address `addr`.
    pub fn region(&self, addr: u16) -> (region: Region)
        ensures
            region == spec_region(self.boot_rom_on, addr),
    {
        if addr < 0x100 && self.boot_rom_on {
            Region::BootOverlay
        } else if addr < 0x8000 {
            Region::CartridgeRom
        } else if addr < 0xa000 {
            Region::VideoRam
        } else if addr < 0xc000 {
            Region::Unbacked
        } else if addr < 0xf000 {
            Region::WorkRam
        } else if addr < 0xfe00 {
            Region::Unbacked
        } else if addr < 0xfea0 {
            Region::SpriteMemory
        } else if addr < 0xff00 {
            Region::Unbacked
        } else if addr < 0xff80 {
            Region::IoRegisters
        } else if addr < 0xffff {
            Region::HighRam
        } else {
            Region::InterruptEnable
        }
    }

    /// Reads the byte at `addr` through the bus.
    pub fn r(&self, addr: u16) -> (res: Result<u8, MemError>)
        ensures
            res == Ok::<u8, MemError>(self@.read(addr)),
    {
        reveal(MemView::read);
        if addr < 0x100 && self.boot_rom_on {
            Ok(self.boot_rom[addr as usize])
        } else if addr < 0x8000 {
            Ok(self.rom[addr as usize])
        } else if addr >= 0xc000 && addr < 0xd000 {
            Ok(self.wram_00[addr as usize - 0xc000])
        } else if addr >= 0xe000 && addr < 0xf000 {
            Ok(self.wram_00[addr as usize - 0xe000])
        } else if addr >= 0xd000 && addr < 0xe000 {
            Ok(self.wram_01[addr as usize - 0xd000])
        } else if (addr >= 0x8000 && addr < 0xa000) || (addr >= 0xfe00 && addr < 0xfea0) {
            self.display.r(addr - 0x8000)
        } else if addr >= 0xff00 && addr < 0xff80 {
            Ok(self.r_io((addr - 0xff00) as u8))
        } else if addr >= 0xff80 && addr < 0xffff {
            Ok(self.hram[addr as usize - 0xff80])
        } else if addr == 0xffff {
            Ok(self.interrupts_register)
        } else {
            Ok(0)
        }
    }

    /// Writes `value` at `addr` through the bus.
    pub fn w(&mut self, addr: u16, value: u8) -> (res: Result<(), MemError>)
        ensures
            res is Ok,
            final(self)@ == old(self)@.write(addr, value),
    {
        reveal(MemView::write);
        if addr < 0x100 && self.boot_rom_on {
            Ok(())
        } else if addr < 0x8000 {
            Ok(())
        } else if addr >= 0xc000 && addr < 0xd000 {
            self.wram_00[addr as usize - 0xc000] = value;
            Ok(())
        } else if addr >= 0xe000 && addr < 0xf000 {
            self.wram_00[addr as usize - 0xe000] = value;
            Ok(())
        } else if addr >= 0xd000 && addr < 0xe000 {
            self.wram_01[addr as usize - 0xd000] = value;
            Ok(())
        } else if (addr >= 0x8000 && addr < 0xa000) || (addr >= 0xfe00 && addr < 0xfea0) {
            self.display.w(addr - 0x8000, value)
        } else if addr >= 0xff00 && addr < 0xff80 {
            self.w_io((addr - 0xff00) as u8, value)
        } else if addr >= 0xff80 && addr < 0xffff {
            self.hram[addr as usize - 0xff80] = value;
            Ok(())
        } else if addr == 0xffff {
            self.interrupts_register = value;
            Ok(())
        } else {
            Ok(())
        }
    }
}

/// The whole machine as a mathematical value.
pub struct GbView {
    pub cpu: CpuView,
    pub mem: MemView,
    pub is_debug: bool,
}

impl GbView {
    /// Register file and stores have their fixed sizes.
    pub open spec fn wf(self) -> bool {
        self.cpu.wf() && self.mem.wf()
    }

    /// The machine at power-on.
    pub open spec fn power_on() -> GbView {
        GbView { cpu: CpuView::power_on(), mem: MemView::power_on(), is_debug: false }
    }

    /// The operand that the 3-bit field `r_i` selects: B, C, D, E, H, L for
    /// 0 to 5, the byte at the address in HL for 6, and A for 7.
    pub open spec fn r_reg(self, r_i: u8) -> u8
        recommends
            r_i < 8,
    {
        if r_i < 6 {
            self.cpu.r[r_i as int]
        } else if r_i == 7 {
            self.cpu.r[6]
        } else {
            self.mem.read(self.cpu.r16(reg::HL))
        }
    }

    /// The machine after `value` is stored in the operand that the 3-bit
    /// field `r_i` selects.
    pub open spec fn w_reg(self, r_i: u8, value: u8) -> GbView
        recommends
            r_i < 8,
    {
        if r_i < 6 {
            GbView { cpu: self.cpu.set_r(r_i as int, value), ..self }
        } else if r_i == 7 {
            GbView { cpu: self.cpu.set_r(6, value), ..self }
        } else {
            GbView { mem: self.mem.write(self.cpu.r16(reg::HL), value), ..self }
        }
    }

    /// The machine with the given register file.
    pub open spec fn with_cpu(self, cpu: CpuView) -> GbView {
        GbView { cpu, ..self }
    }

    /// The machine with the given memory.
    pub open spec fn with_mem(self, mem: MemView) -> GbView {
        GbView { mem, ..self }
    }
}

/// The whole machine: register file and memory.
pub struct GBState {
    pub cpu: CPU,
    pub mem: Memory,
    pub is_debug: bool,
}

impl View for GBState {
    type V = GbView;

    open spec fn view(&self) -> GbView {
        GbView { cpu: self.cpu@, mem: self.mem@, is_debug: self.is_debug }
    }
}

impl GBState {
    /// The machine at power-on, with an empty boot overlay.
    pub fn new() -> (state: GBState)
        ensures
            state@ == GbView::power_on(),
    {
        GBState { cpu: CPU::new(), mem: Memory::new(), is_debug: false }
    }

    /// Reads the operand that the 3-bit field `r_i` selects.
    pub fn r_reg(&self, r_i: u8) -> (res: Result<u8, MemError>)
        requires
            r_i < 8,
        ensures
            res == Ok::<u8, MemError>(self@.r_reg(r_i)),
    {
        if r_i < 6 {
            Ok(self.cpu.r[r_i as usize])
        } else if r_i == 7 {
            Ok(self.cpu.r[6])
        } else {
            self.mem.r(self.cpu.r16(reg::HL))
        }
    }

    /// Stores `value` in the operand that the 3-bit field `r_i` selects.
    pub fn w_reg(&mut self, r_i: u8, value: u8) -> (res: Result<(), MemError>)
        requires
            r_i < 8,
        ensures
            res is Ok,
            final(self)@ == old(self)@.w_reg(r_i, value),
    {
        if r_i < 6 {
            self.cpu.r[r_i as usize] = value;
        } else if r_i == 7 {
            self.cpu.r[6] = value;
        } else {
            self.mem.w(self.cpu.r16(reg::HL), value)?;
        }
        Ok(())
    }
}

/// Writing a pair and reading it back gives the value written, for the
/// three register pairs and the stack pointer alike.
pub proof fn lemma_w16_r16(c: CpuView, r: u8, value: u16)
    requires
        c.wf(),
        r <= 3,
    ensures
        c.w16(r, value).r16(r) == value,
        c.w16(r, value).wf(),
{
}

/// Whether `addr` lies in video RAM, work RAM or high RAM.
pub open spec fn is_ram(addr: u16) -> bool {
    0x8000 <= addr < 0xa000 || 0xc000 <= addr < 0xe000 || 0xff80 <= addr < 0xffff
}

/// The address at which the echo region mirrors the work-RAM address
/// `addr`.
pub open spec fn echo_of(addr: u16) -> u16
    recommends
        0xc000 <= addr < 0xd000,
{
    (addr + 0x2000) as u16
}

/// A byte written to video RAM, work RAM or high RAM is the byte read back
/// from the same address.
pub proof fn lemma_write_then_read(m: MemView, addr: u16, value: u8)
    requires
        m.wf(),
        is_ram(addr),
    ensures
        m.write(addr, value).read(addr) == value,
        m.write(addr, value).wf(),
{
    reveal(MemView::read);
    reveal(MemView::write);
}

/// The echo region and the first bank of work RAM are the same cells: both
/// addresses always read the same byte, and a byte written through either
/// is read back through the other.
pub proof fn lemma_echo(m: MemView, addr: u16, value: u8)
    requires
        m.wf(),
        0xc000 <= addr < 0xd000,
    ensures
        m.read(echo_of(addr)) == m.read(addr),
        m.write(addr, value).read(echo_of(addr)) == value,
        m.write(echo_of(addr), value).read(addr) == value,
        m.write(echo_of(addr), value) == m.write(addr, value),
{
    reveal(MemView::read);
    reveal(MemView::write);
}

/// A write to video RAM, work RAM or high RAM changes the byte read at no
/// other address of these regions, the echo of the written cell apart.
pub proof fn lemma_write_keeps_others(m: MemView, addr: u16, value: u8, other: u16)
    requires
        m.wf(),
        is_ram(addr),
        is_ram(other),
        other != addr,
    ensures
        m.write(addr, value).read(other) == m.read(other),
{
    reveal(MemView::read);
    reveal(MemView::write);
}

/// A write to the cartridge ROM or to the boot overlay changes nothing.
pub proof fn lemma_rom_write_discarded(m: MemView, addr: u16, value: u8)
    requires
        addr < 0x8000,
    ensures
        m.write(addr, value) == m,
{
    reveal(MemView::write);
}

/// The boot-lock latch is one-way: no write sets it again once it is
/// cleared. It is cleared by a write to its register of a value whose bit 0
/// is set, and by nothing else: a write of a value whose bit 0 is clear
/// leaves the overlay in place.
pub proof fn lemma_boot_lock_one_way(m: MemView, addr: u16, value: u8)
    ensures
        !m.boot_rom_on ==> !m.write(addr, value).boot_rom_on,
        value % 2 == 1 ==> !m.write(0xff50, value).boot_rom_on,
        value % 2 == 0 ==> m.write(0xff50, value).boot_rom_on == m.boot_rom_on,
        addr != 0xff50 ==> m.write(addr, value).boot_rom_on == m.boot_rom_on,
{
    reveal(MemView::write);
    reveal(MemView::write_io_register);
}

/// A read is served by the owner of the address and by no other store.
pub proof fn lemma_read_from_owner(m: MemView, addr: u16)
    ensures
        m.read(addr) == (match spec_region(m.boot_rom_on, addr) {
            Region::BootOverlay => m.boot_rom[addr as int],
            Region::CartridgeRom => m.rom[addr as int],
            Region::VideoRam => m.display.read((addr - 0x8000) as u16),
            Region::WorkRam => if 0xd000 <= addr < 0xe000 {
                m.wram_01[addr - 0xd000]
            } else {
                m.wram_00[(addr % 0x1000) as int]
            },
            Region::SpriteMemory => m.display.oam[addr - 0xfe00],
            Region::IoRegisters => m.read_io((addr - 0xff00) as u8),
            Region::HighRam => m.hram[addr - 0xff80],
            Region::InterruptEnable => m.interrupts_register,
            Region::Unbacked => 0,
        }),
{
    reveal(MemView::read);
}

/// A write changes nothing outside the store of the owner of the address:
/// nothing at all where the owner is read-only or absent, and one store
/// else. Writes to I/O registers are the one exception, as a register may
/// stand for more than a byte.
pub proof fn lemma_write_stays_with_owner(m: MemView, addr: u16, value: u8)
    ensures
        match spec_region(m.boot_rom_on, addr) {
            Region::BootOverlay => m.write(addr, value) == m,
            Region::CartridgeRom => m.write(addr, value) == m,
            Region::Unbacked => m.write(addr, value) == m,
            Region::VideoRam => m.write(addr, value) == (MemView {
                display: DisplayView {
                    tiledata: m.write(addr, value).display.tiledata,
                    tilemaps: m.write(addr, value).display.tilemaps,
                    ..m.display
                },
                ..m
            }),
            Region::SpriteMemory => m.write(addr, value) == (MemView {
                display: DisplayView { oam: m.write(addr, value).display.oam, ..m.display },
                ..m
            }),
            Region::WorkRam => m.write(addr, value) == (MemView {
                wram_00: m.write(addr, value).wram_00,
                wram_01: m.write(addr, value).wram_01,
                ..m
            }),
            Region::HighRam => m.write(addr, value) == (MemView {
                hram: m.write(addr, value).hram,
                ..m
            }),
            Region::InterruptEnable => m.write(addr, value) == (MemView {
                interrupts_register: value,
                ..m
            }),
            Region::IoRegisters => m.write(addr, value) == m.write_io((addr - 0xff00) as u8, value),
        },
{
    reveal(MemView::write);
}

} // verus!
