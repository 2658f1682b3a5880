use emulator::state::{GBState, Memory, Region};

#[test]
fn ram_round_trip() {
    let mut mem = Memory::new();
    for addr in [0x8000u16, 0x97ff, 0x9800, 0x9fff, 0xc000, 0xcfff, 0xd000, 0xdfff, 0xff80, 0xfffe] {
        mem.w(addr, 0xa5).unwrap();
        assert_eq!(mem.r(addr), Ok(0xa5));
        mem.w(addr, 0x5a).unwrap();
        assert_eq!(mem.r(addr), Ok(0x5a));
    }
}

#[test]
fn echo_mirrors_work_ram() {
    let mut mem = Memory::new();
    mem.w(0xc123, 0x11).unwrap();
    assert_eq!(mem.r(0xe123), Ok(0x11));
    mem.w(0xe123, 0x22).unwrap();
    assert_eq!(mem.r(0xc123), Ok(0x22));
    mem.w(0xefff, 0x33).unwrap();
    assert_eq!(mem.r(0xcfff), Ok(0x33));
}

#[test]
fn rom_writes_are_discarded() {
    let mut mem = Memory::new();
    mem.load_rom(&[1, 2, 3]);
    mem.w(0x0001, 0xff).unwrap();
    mem.w(0x7fff, 0xff).unwrap();
    mem.w(0xff50, 1).unwrap();
    assert_eq!(mem.r(0x0000), Ok(1));
    assert_eq!(mem.r(0x0001), Ok(2));
    mem.w(0x0001, 0xff).unwrap();
    assert_eq!(mem.r(0x0001), Ok(2));
    assert_eq!(mem.r(0x7fff), Ok(0));
}

#[test]
fn unbacked_ranges_read_zero() {
    let mut mem = Memory::new();
    for addr in [0xa000u16, 0xbfff, 0xf000, 0xfdff, 0xfea0, 0xfeff] {
        mem.w(addr, 0x77).unwrap();
        assert_eq!(mem.r(addr), Ok(0));
    }
}

#[test]
fn boot_overlay_covers_rom_until_unlocked_and_never_returns() {
    let mut mem = Memory::new();
    mem.load_boot_rom(&[0xaa, 0xbb]);
    mem.load_rom(&[0x11, 0x22]);
    assert_eq!(mem.r(0x0000), Ok(0xaa));
    assert_eq!(mem.r(0xff50), Ok(0xfe));
    // A value with bit 0 clear leaves the latch set.
    mem.w(0xff50, 0).unwrap();
    assert!(mem.boot_rom_on);
    assert_eq!(mem.r(0x0001), Ok(0xbb));
    mem.w(0xff50, 0xfe).unwrap();
    assert!(mem.boot_rom_on);
    // A value with bit 0 set clears it.
    mem.w(0xff50, 1).unwrap();
    assert!(!mem.boot_rom_on);
    assert_eq!(mem.r(0x0000), Ok(0x11));
    assert_eq!(mem.r(0xff50), Ok(0xff));
    mem.w(0xff50, 0).unwrap();
    assert!(!mem.boot_rom_on);
    assert_eq!(mem.r(0x0001), Ok(0x22));
}

#[test]
fn loading_more_than_fits_keeps_the_first_bytes() {
    let mut mem = Memory::new();
    let data = vec![7u8; 0x200];
    mem.load_boot_rom(&data);
    assert_eq!(mem.boot_rom[0xff], 7);
    assert_eq!(mem.r(0x0100), Ok(0));
}

#[test]
fn interrupt_enable_byte_at_top_address() {
    let mut mem = Memory::new();
    mem.w(0xffff, 0x1f).unwrap();
    assert_eq!(mem.interrupts_register, 0x1f);
    assert_eq!(mem.r(0xffff), Ok(0x1f));
}

#[test]
fn display_registers_are_forwarded() {
    let mut mem = Memory::new();
    mem.w(0xff40, 0x91).unwrap();
    mem.w(0xff42, 3).unwrap();
    mem.w(0xff43, 4).unwrap();
    mem.w(0xff45, 5).unwrap();
    mem.w(0xff47, 0xe4).unwrap();
    mem.w(0xff48, 0xd2).unwrap();
    mem.w(0xff49, 0x1b).unwrap();
    mem.w(0xff4a, 6).unwrap();
    mem.w(0xff4b, 7).unwrap();
    assert_eq!(mem.display.lcdc, 0x91);
    assert_eq!(mem.display.viewport_y, 3);
    assert_eq!(mem.display.viewport_x, 4);
    assert_eq!(mem.display.lyc, 5);
    assert_eq!(mem.display.bg_palette, 0xe4);
    assert_eq!(mem.display.obj_palettes, [0xd2, 0x1b]);
    assert_eq!(mem.display.window_y, 6);
    assert_eq!(mem.display.window_x, 7);
    for (addr, value) in [(0xff40u16, 0x91u8), (0xff42, 3), (0xff43, 4), (0xff45, 5), (0xff47, 0xe4), (0xff48, 0xd2), (0xff49, 0x1b), (0xff4a, 6), (0xff4b, 7)] {
        assert_eq!(mem.r(addr), Ok(value));
    }
    mem.display.ly = 77;
    assert_eq!(mem.r(0xff44), Ok(77));
    mem.w(0xff44, 1).unwrap();
    assert_eq!(mem.display.ly, 77);
}

#[test]
fn status_register_selects_interrupt_mode() {
    let mut mem = Memory::new();
    assert_eq!(mem.display.lcd_interrupt_mode, 0xff);
    mem.w(0xff41, 0x08).unwrap();
    assert_eq!(mem.display.lcd_interrupt_mode, 0);
    mem.w(0xff41, 0x18).unwrap();
    assert_eq!(mem.display.lcd_interrupt_mode, 1);
    mem.w(0xff41, 0x20).unwrap();
    assert_eq!(mem.display.lcd_interrupt_mode, 2);
    mem.w(0xff41, 0x78).unwrap();
    assert_eq!(mem.display.lcd_interrupt_mode, 3);
    assert_eq!(mem.r(0xff41), Ok(0x78));
    mem.w(0xff41, 0x07).unwrap();
    assert_eq!(mem.display.lcd_interrupt_mode, 0xff);
}

#[test]
fn sprite_memory_transfer_copies_160_bytes() {
    let mut mem = Memory::new();
    for i in 0..0xa0u16 {
        mem.w(0xc100 + i, i as u8 ^ 0x5a).unwrap();
    }
    mem.w(0xc1a0, 0xee).unwrap();
    mem.w(0xff46, 0xc1).unwrap();
    for i in 0..0xa0u16 {
        assert_eq!(mem.r(0xfe00 + i), Ok(i as u8 ^ 0x5a));
    }
    // A page at or above 0xe0 is not a source.
    mem.w(0xff46, 0xe0).unwrap();
    assert_eq!(mem.r(0xfe00), Ok(0x5a));
}

#[test]
fn joypad_register_multiplexes_the_two_groups() {
    let mut mem = Memory::new();
    mem.joypad_reg = 0xa5;
    mem.w(0xff00, 0x10).unwrap(); // bit 5 clear: actions
    assert!(mem.joypad_is_action);
    assert_eq!(mem.r(0xff00), Ok(0xda));
    mem.w(0xff00, 0x20).unwrap(); // bit 5 set: directions
    assert!(!mem.joypad_is_action);
    assert_eq!(mem.r(0xff00), Ok(0xe5));
}

#[test]
fn joypad_poll_raises_interrupt_on_falling_edge_of_selected_group() {
    let mut mem = Memory::new();
    mem.update_joypad(0x0f, 0x0f);
    assert_eq!(mem.joypad_reg, 0xff);
    assert_eq!(mem.io[0x0f], 0);
    mem.update_joypad(0x0f, 0x0e); // an action button, directions selected
    assert_eq!(mem.joypad_reg, 0xef);
    assert_eq!(mem.io[0x0f], 0);
    mem.update_joypad(0x0d, 0x0e); // a direction button
    assert_eq!(mem.joypad_reg, 0xed);
    assert_eq!(mem.io[0x0f], 0x10);
    mem.io[0x0f] = 0;
    mem.update_joypad(0x0f, 0x0f); // releases are no edge
    assert_eq!(mem.io[0x0f], 0);
    mem.w(0xff00, 0x10).unwrap();
    mem.update_joypad(0x0f, 0x07);
    assert_eq!(mem.io[0x0f], 0x10);
}

#[test]
fn sound_registers_reach_the_channels() {
    let mut mem = Memory::new();
    mem.w(0xff11, 0b10_000101).unwrap();
    assert_eq!(mem.audio.ch1.duty, 2);
    assert_eq!(mem.audio.ch1.length_timer, 5);
    assert!(mem.audio.ch1.length_timer_enabled);
    mem.w(0xff12, 0xa9).unwrap();
    assert_eq!(mem.audio.ch1.initial_volume, 0xa);
    assert_eq!(mem.audio.ch1.env_direction, 1);
    assert_eq!(mem.audio.ch1.sweep, 1);
    mem.w(0xff13, 0x34).unwrap();
    mem.w(0xff14, 0x05).unwrap();
    assert_eq!(mem.audio.ch1.period_value, 0x534);
    assert!(mem.audio.ch1.wave.is_none());
    assert!(!mem.audio.ch1.pending);
    mem.w(0xff14, 0x85).unwrap();
    assert!(mem.audio.ch1.pending);
    let wave = mem.audio.ch1.wave.unwrap();
    assert_eq!(wave.period_value, 2048 - 0x534);
    assert_eq!(wave.env_initial_volume, 0xa);
    assert_eq!(wave.length_timer, 5);
    assert_eq!(wave.num_sample, 0);
    assert_eq!(&wave.wave_pattern[..16], &[0xf; 16]);
    assert_eq!(&wave.wave_pattern[16..], &[0; 16]);
    assert!(mem.audio.ch2.wave.is_none());
    mem.w(0xff16, 0xc0).unwrap();
    mem.w(0xff19, 0x80).unwrap();
    assert_eq!(mem.audio.ch2.duty, 3);
    assert!(!mem.audio.ch2.length_timer_enabled);
    assert_eq!(&mem.audio.ch2.wave.unwrap().wave_pattern[..9], &[0xf, 0xf, 0xf, 0xf, 0xf, 0xf, 0xf, 0xf, 0]);
}

#[test]
fn wave_channel_registers_and_sample_memory() {
    let mut mem = Memory::new();
    mem.w(0xff30, 0x12).unwrap();
    mem.w(0xff3f, 0xef).unwrap();
    assert_eq!(mem.audio.ch3.wave_pattern[0], 1);
    assert_eq!(mem.audio.ch3.wave_pattern[1], 2);
    assert_eq!(mem.audio.ch3.wave_pattern[30], 0xe);
    assert_eq!(mem.audio.ch3.wave_pattern[31], 0xf);
    assert_eq!(mem.r(0xff30), Ok(0x12));
    mem.w(0xff1b, 63).unwrap();
    assert_eq!(mem.audio.ch3.length_timer, 63);
    assert!(mem.audio.ch3.length_timer_enabled);
    mem.w(0xff1b, 64).unwrap();
    assert!(!mem.audio.ch3.length_timer_enabled);
    for (value, volume) in [(0x00u8, 0u8), (0x20, 15), (0x40, 7), (0x60, 3)] {
        mem.w(0xff1c, value).unwrap();
        assert_eq!(mem.audio.ch3.initial_volume, volume);
    }
    mem.w(0xff1d, 0x10).unwrap();
    mem.w(0xff1e, 0x82).unwrap();
    assert_eq!(mem.audio.ch3.period_value, 0x210 / 2);
    let wave = mem.audio.ch3.wave.unwrap();
    assert_eq!(wave.period_value, 2 * (2048 - 0x210));
    assert_eq!(wave.wave_pattern[31], 0xf);
}

#[test]
fn power_on_state() {
    let state = GBState::new();
    assert_eq!(state.cpu.pc, 0);
    assert_eq!(state.cpu.sp, 0);
    assert_eq!(state.cpu.r, [0; 8]);
    assert!(state.mem.boot_rom_on);
    assert!(!state.mem.ime);
    assert!(!state.mem.halt);
    assert_eq!(state.mem.display.lcdc, 0);
    assert_eq!(state.mem.display.ly, 0);
    assert!(state.mem.display.framebuffer.iter().all(|&c| c == 0x00e0f8d0));
}

#[test]
fn every_address_has_one_owner() {
    let mut mem = Memory::new();
    assert_eq!(mem.region(0x0000), Region::BootOverlay);
    assert_eq!(mem.region(0x00ff), Region::BootOverlay);
    assert_eq!(mem.region(0x0100), Region::CartridgeRom);
    assert_eq!(mem.region(0x7fff), Region::CartridgeRom);
    assert_eq!(mem.region(0x8000), Region::VideoRam);
    assert_eq!(mem.region(0x9fff), Region::VideoRam);
    assert_eq!(mem.region(0xa000), Region::Unbacked);
    assert_eq!(mem.region(0xbfff), Region::Unbacked);
    assert_eq!(mem.region(0xc000), Region::WorkRam);
    assert_eq!(mem.region(0xdfff), Region::WorkRam);
    assert_eq!(mem.region(0xe000), Region::WorkRam);
    assert_eq!(mem.region(0xefff), Region::WorkRam);
    assert_eq!(mem.region(0xf000), Region::Unbacked);
    assert_eq!(mem.region(0xfdff), Region::Unbacked);
    assert_eq!(mem.region(0xfe00), Region::SpriteMemory);
    assert_eq!(mem.region(0xfe9f), Region::SpriteMemory);
    assert_eq!(mem.region(0xfea0), Region::Unbacked);
    assert_eq!(mem.region(0xfeff), Region::Unbacked);
    assert_eq!(mem.region(0xff00), Region::IoRegisters);
    assert_eq!(mem.region(0xff7f), Region::IoRegisters);
    assert_eq!(mem.region(0xff80), Region::HighRam);
    assert_eq!(mem.region(0xfffe), Region::HighRam);
    assert_eq!(mem.region(0xffff), Region::InterruptEnable);
    mem.w(0xff50, 1).unwrap();
    assert_eq!(mem.region(0x0000), Region::CartridgeRom);
}

#[test]
fn sprite_memory_round_trip_through_the_bus() {
    let mut mem = Memory::new();
    mem.w(0xfe00, 0x12).unwrap();
    mem.w(0xfe9f, 0x34).unwrap();
    assert_eq!(mem.r(0xfe00), Ok(0x12));
    assert_eq!(mem.r(0xfe9f), Ok(0x34));
    assert_eq!(mem.display.oam[0x9f], 0x34);
}
