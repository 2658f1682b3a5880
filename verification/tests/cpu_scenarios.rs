use emulator::exec_opcode;
use emulator::state::{flag, reg, GBState, MemError};

fn machine(program: &[u8]) -> GBState {
    let mut state = GBState::new();
    state.mem.load_boot_rom(program);
    state
}

fn flags(state: &GBState) -> u8 {
    state.cpu.r[reg::F as usize]
}

#[test]
fn load_immediate_sets_register_and_advances_pc_by_two() {
    let mut state = machine(&[0x06, 0x42]);
    assert_eq!(exec_opcode(&mut state), Ok(8));
    assert_eq!(state.cpu.r[reg::B as usize], 0x42);
    assert_eq!(state.cpu.pc, 2);
}

#[test]
fn relative_jump_lands_after_instruction_plus_offset() {
    let mut state = machine(&[0x18, 0x05]);
    assert_eq!(exec_opcode(&mut state), Ok(12));
    assert_eq!(state.cpu.pc, 2 + 5);
}

#[test]
fn relative_jump_backwards_wraps() {
    let mut state = machine(&[0x18, 0xfd]); // JR -3
    exec_opcode(&mut state).unwrap();
    assert_eq!(state.cpu.pc, 0xffff);
}

#[test]
fn conditional_jump_not_taken_costs_less() {
    let mut state = machine(&[0x20, 0x05]); // JR NZ, 5
    state.cpu.r[reg::F as usize] = flag::ZF;
    assert_eq!(exec_opcode(&mut state), Ok(8));
    assert_eq!(state.cpu.pc, 2);
    let mut state = machine(&[0x28, 0x05]); // JR Z, 5
    state.cpu.r[reg::F as usize] = flag::ZF;
    assert_eq!(exec_opcode(&mut state), Ok(12));
    assert_eq!(state.cpu.pc, 7);
}

#[test]
fn push_then_pop_round_trips_and_restores_sp() {
    let mut state = machine(&[0xc5, 0xd1]); // PUSH BC; POP DE
    state.cpu.sp = 0xfffe;
    state.cpu.w16(reg::BC, 0xbeef);
    assert_eq!(exec_opcode(&mut state), Ok(16));
    assert_eq!(state.cpu.sp, 0xfffc);
    assert_eq!(state.mem.r(0xfffc), Ok(0xef));
    assert_eq!(state.mem.r(0xfffd), Ok(0xbe));
    assert_eq!(exec_opcode(&mut state), Ok(12));
    assert_eq!(state.cpu.r16(reg::DE), 0xbeef);
    assert_eq!(state.cpu.sp, 0xfffe);
}

#[test]
fn pop_af_keeps_low_nibble_of_flags_zero() {
    let mut state = machine(&[0xc5, 0xf1, 0xf5, 0xc1]); // PUSH BC; POP AF; PUSH AF; POP BC
    state.cpu.sp = 0xfffe;
    state.cpu.w16(reg::BC, 0x12ff);
    exec_opcode(&mut state).unwrap();
    exec_opcode(&mut state).unwrap();
    assert_eq!(state.cpu.r[reg::A as usize], 0x12);
    assert_eq!(flags(&state), 0xf0);
    exec_opcode(&mut state).unwrap();
    exec_opcode(&mut state).unwrap();
    assert_eq!(state.cpu.r16(reg::BC), 0x12f0);
}

#[test]
fn push_outside_stack_window_is_an_error() {
    let mut state = machine(&[0xc5]);
    state.cpu.sp = 0x0000;
    assert_eq!(exec_opcode(&mut state), Err(MemError::StackOverflow));
    assert_eq!(state.cpu.sp, 0x0000);
    assert_eq!(state.cpu.pc, 0);
    let mut state = machine(&[0xc5]);
    state.cpu.sp = 0xff81;
    assert_eq!(exec_opcode(&mut state), Err(MemError::StackOverflow));
    let mut state = machine(&[0xc5]);
    state.cpu.sp = 0xff82;
    assert_eq!(exec_opcode(&mut state), Ok(16));
    assert_eq!(state.cpu.sp, 0xff80);
}

#[test]
fn pop_outside_stack_window_is_an_error() {
    let mut state = machine(&[0xc1]);
    state.cpu.sp = 0xfffd;
    assert_eq!(exec_opcode(&mut state), Err(MemError::StackOverflow));
    let mut state = machine(&[0xc9]); // RET
    state.cpu.sp = 0x1000;
    assert_eq!(exec_opcode(&mut state), Err(MemError::StackOverflow));
    assert_eq!(state.cpu.sp, 0x1000);
}

#[test]
fn unimplemented_opcodes_are_fatal() {
    for opcode in [
        0x10u8, 0x09, 0x19, 0x29, 0x39, 0xd3, 0xdb, 0xdd, 0xe3, 0xe4, 0xeb, 0xec, 0xed, 0xf4,
        0xfc, 0xfd, 0xc7, 0xcf, 0xd7, 0xdf, 0xe7, 0xef, 0xf7, 0xff,
    ] {
        let mut state = machine(&[opcode, 0x04]);
        state.cpu.r = [1, 2, 3, 4, 5, 6, 7, 0x80];
        state.cpu.sp = 0xfffe;
        assert_eq!(exec_opcode(&mut state), Err(MemError::Unimplemented));
        // The machine is as it was, and no further step gets past the opcode.
        assert_eq!(state.cpu.pc, 0);
        assert_eq!(state.cpu.sp, 0xfffe);
        assert_eq!(state.cpu.r, [1, 2, 3, 4, 5, 6, 7, 0x80]);
        assert_eq!(exec_opcode(&mut state), Err(MemError::Unimplemented));
        assert_eq!(state.cpu.pc, 0);
        assert_eq!(state.cpu.r[reg::B as usize], 1);
    }
}

#[test]
fn every_other_opcode_is_implemented() {
    let missing = [
        0x10u8, 0x09, 0x19, 0x29, 0x39, 0xd3, 0xdb, 0xdd, 0xe3, 0xe4, 0xeb, 0xec, 0xed, 0xf4,
        0xfc, 0xfd, 0xc7, 0xcf, 0xd7, 0xdf, 0xe7, 0xef, 0xf7, 0xff,
    ];
    for opcode in 0..=255u8 {
        let mut state = machine(&[opcode, 0x00, 0x00]);
        state.cpu.sp = 0xffc0;
        let res = exec_opcode(&mut state);
        assert_eq!(res == Err(MemError::Unimplemented), missing.contains(&opcode));
        assert_eq!(res.is_err(), missing.contains(&opcode));
    }
}

#[test]
fn failure_of_a_halted_cpu_leaves_it_halted() {
    let mut state = machine(&[0x10]);
    state.mem.halt = true;
    state.mem.interrupts_register = 0x01;
    state.mem.io[0x0f] = 0x01;
    assert_eq!(exec_opcode(&mut state), Err(MemError::Unimplemented));
    assert!(state.mem.halt);
    assert_eq!(state.cpu.pc, 0);
}

#[test]
fn call_without_room_on_the_stack_changes_nothing() {
    let mut state = machine(&[0xcd, 0x20, 0x00]);
    state.cpu.sp = 0x1000;
    assert_eq!(exec_opcode(&mut state), Err(MemError::StackOverflow));
    assert_eq!(state.cpu.pc, 0);
    assert_eq!(state.cpu.sp, 0x1000);
    let mut state = machine(&[0xcc, 0x20, 0x00]); // CALL Z, taken
    state.cpu.sp = 0x1000;
    state.cpu.r[reg::F as usize] = flag::ZF;
    assert_eq!(exec_opcode(&mut state), Err(MemError::StackOverflow));
    assert_eq!(state.cpu.pc, 0);
    let mut state = machine(&[0xcc, 0x20, 0x00]); // CALL Z, not taken
    state.cpu.sp = 0x1000;
    assert_eq!(exec_opcode(&mut state), Ok(12));
    assert_eq!(state.cpu.pc, 3);
}

#[test]
fn add_boundary_flags() {
    let mut state = machine(&[0xc6, 0x01, 0xc6, 0x01]); // ADD A, 1 twice
    state.cpu.r[reg::A as usize] = 0x0f;
    assert_eq!(exec_opcode(&mut state), Ok(8));
    assert_eq!(state.cpu.r[reg::A as usize], 0x10);
    assert_eq!(flags(&state), flag::H);
    state.cpu.r[reg::A as usize] = 0xff;
    exec_opcode(&mut state).unwrap();
    assert_eq!(state.cpu.r[reg::A as usize], 0x00);
    assert_eq!(flags(&state), flag::ZF | flag::H | flag::CY);
}

#[test]
fn sub_and_compare_boundary_flags() {
    let mut state = machine(&[0xd6, 0x01, 0xfe, 0x10, 0xde, 0x00]); // SUB 1; CP 0x10; SBC 0
    state.cpu.r[reg::A as usize] = 0x00;
    exec_opcode(&mut state).unwrap();
    assert_eq!(state.cpu.r[reg::A as usize], 0xff);
    assert_eq!(flags(&state), flag::N | flag::H | flag::CY);
    state.cpu.r[reg::A as usize] = 0x10;
    exec_opcode(&mut state).unwrap();
    assert_eq!(state.cpu.r[reg::A as usize], 0x10);
    assert_eq!(flags(&state), flag::ZF | flag::N);
    state.cpu.r[reg::A as usize] = 0x10;
    state.cpu.r[reg::F as usize] = flag::CY;
    exec_opcode(&mut state).unwrap();
    assert_eq!(state.cpu.r[reg::A as usize], 0x0f);
    assert_eq!(flags(&state), flag::N | flag::H);
}

#[test]
fn logic_operations_set_their_flags() {
    let mut state = machine(&[0xe6, 0x0f, 0xee, 0xff, 0xf6, 0x00]); // AND 0x0f; XOR 0xff; OR 0
    state.cpu.r[reg::A as usize] = 0xf0;
    exec_opcode(&mut state).unwrap();
    assert_eq!(state.cpu.r[reg::A as usize], 0x00);
    assert_eq!(flags(&state), flag::ZF | flag::H);
    exec_opcode(&mut state).unwrap();
    assert_eq!(state.cpu.r[reg::A as usize], 0xff);
    assert_eq!(flags(&state), 0);
    state.cpu.r[reg::A as usize] = 0;
    exec_opcode(&mut state).unwrap();
    assert_eq!(flags(&state), flag::ZF);
}

#[test]
fn alu_on_byte_at_hl_costs_eight_cycles() {
    let mut state = machine(&[0x86]); // ADD A, (HL)
    state.mem.w(0xc000, 0x22).unwrap();
    state.cpu.w16(reg::HL, 0xc000);
    state.cpu.r[reg::A as usize] = 0x11;
    assert_eq!(exec_opcode(&mut state), Ok(8));
    assert_eq!(state.cpu.r[reg::A as usize], 0x33);
}

#[test]
fn increment_and_decrement_flags() {
    let mut state = machine(&[0x04, 0x05, 0x05, 0x34]); // INC B; DEC B; DEC B; INC (HL)
    state.cpu.r[reg::B as usize] = 0x0f;
    state.cpu.r[reg::F as usize] = flag::CY | flag::N;
    assert_eq!(exec_opcode(&mut state), Ok(4));
    assert_eq!(state.cpu.r[reg::B as usize], 0x10);
    assert_eq!(flags(&state), flag::H | flag::CY);
    exec_opcode(&mut state).unwrap();
    assert_eq!(state.cpu.r[reg::B as usize], 0x0f);
    assert_eq!(flags(&state), flag::H | flag::CY);
    state.cpu.r[reg::B as usize] = 0x01;
    exec_opcode(&mut state).unwrap();
    assert_eq!(state.cpu.r[reg::B as usize], 0x00);
    assert_eq!(flags(&state), flag::ZF | flag::CY);
    state.cpu.w16(reg::HL, 0xc010);
    state.mem.w(0xc010, 0xff).unwrap();
    exec_opcode(&mut state).unwrap();
    assert_eq!(state.mem.r(0xc010), Ok(0x00));
    assert_eq!(flags(&state), flag::ZF | flag::H | flag::CY);
}

#[test]
fn sixteen_bit_increment_and_decrement() {
    let mut state = machine(&[0x03, 0x0b, 0x0b, 0x33]); // INC BC; DEC BC; DEC BC; INC SP
    state.cpu.w16(reg::BC, 0xffff);
    assert_eq!(exec_opcode(&mut state), Ok(8));
    assert_eq!(state.cpu.r16(reg::BC), 0x0000);
    assert_eq!(flags(&state), flag::ZF | flag::H);
    exec_opcode(&mut state).unwrap();
    assert_eq!(state.cpu.r16(reg::BC), 0xffff);
    assert_eq!(flags(&state), flag::N | flag::H);
    exec_opcode(&mut state).unwrap();
    assert_eq!(state.cpu.r16(reg::BC), 0xfffe);
    assert_eq!(flags(&state), flag::N);
    state.cpu.sp = 0x00ff;
    exec_opcode(&mut state).unwrap();
    assert_eq!(state.cpu.sp, 0x0100);
}

#[test]
fn decimal_adjust_after_addition() {
    // 15 + 27 = 42
    let mut state = machine(&[0xc6, 0x27, 0x27, 0xc6, 0x60, 0x27]);
    state.cpu.r[reg::A as usize] = 0x15;
    exec_opcode(&mut state).unwrap();
    assert_eq!(state.cpu.r[reg::A as usize], 0x3c);
    assert_eq!(exec_opcode(&mut state), Ok(4));
    assert_eq!(state.cpu.r[reg::A as usize], 0x42);
    assert_eq!(flags(&state), 0);
    // 50 + 60 = 110
    state.cpu.r[reg::A as usize] = 0x50;
    exec_opcode(&mut state).unwrap();
    exec_opcode(&mut state).unwrap();
    assert_eq!(state.cpu.r[reg::A as usize], 0x10);
    assert_eq!(flags(&state), flag::CY);
}

#[test]
fn decimal_adjust_after_addition_that_overflows_in_the_low_digit() {
    // 99 + 1 = 100: the sum byte 0x9a has a high nibble of 9 only.
    let mut state = machine(&[0xc6, 0x01, 0x27, 0xc6, 0x07, 0x27, 0xc6, 0x66, 0x27]);
    state.cpu.r[reg::A as usize] = 0x99;
    exec_opcode(&mut state).unwrap();
    assert_eq!(state.cpu.r[reg::A as usize], 0x9a);
    assert_eq!(flags(&state), 0);
    exec_opcode(&mut state).unwrap();
    assert_eq!(state.cpu.r[reg::A as usize], 0x00);
    assert_eq!(flags(&state), 0x90);
    // 98 + 7 = 105
    state.cpu.r[reg::A as usize] = 0x98;
    exec_opcode(&mut state).unwrap();
    assert_eq!(state.cpu.r[reg::A as usize], 0x9f);
    exec_opcode(&mut state).unwrap();
    assert_eq!(state.cpu.r[reg::A as usize], 0x05);
    assert_eq!(flags(&state), flag::CY);
    // 99 + 66 = 165: the low correction carries out of the byte.
    state.cpu.r[reg::A as usize] = 0x99;
    exec_opcode(&mut state).unwrap();
    assert_eq!(state.cpu.r[reg::A as usize], 0xff);
    exec_opcode(&mut state).unwrap();
    assert_eq!(state.cpu.r[reg::A as usize], 0x65);
    assert_eq!(flags(&state), flag::CY);
}

#[test]
fn decimal_adjust_of_every_pair_of_decimal_bytes() {
    let bcd = |d: u32| -> u8 { ((d / 10) * 16 + d % 10) as u8 };
    for x in 0..100u32 {
        for y in 0..100u32 {
            let mut state = machine(&[0x80, 0x27]); // ADD A, B; DAA
            state.cpu.r[reg::A as usize] = bcd(x);
            state.cpu.r[reg::B as usize] = bcd(y);
            exec_opcode(&mut state).unwrap();
            exec_opcode(&mut state).unwrap();
            let a = state.cpu.r[reg::A as usize];
            assert_eq!(a, bcd((x + y) % 100));
            let mut expected = 0;
            if x + y >= 100 {
                expected |= flag::CY;
            }
            if a == 0 {
                expected |= flag::ZF;
            }
            assert_eq!(flags(&state), expected);

            let mut state = machine(&[0x90, 0x27]); // SUB A, B; DAA
            state.cpu.r[reg::A as usize] = bcd(x);
            state.cpu.r[reg::B as usize] = bcd(y);
            exec_opcode(&mut state).unwrap();
            exec_opcode(&mut state).unwrap();
            let a = state.cpu.r[reg::A as usize];
            assert_eq!(a, bcd((100 + x - y) % 100));
            let mut expected = flag::N;
            if x < y {
                expected |= flag::CY;
            }
            if a == 0 {
                expected |= flag::ZF;
            }
            assert_eq!(flags(&state), expected);
        }
    }
}

#[test]
fn decimal_adjust_after_subtraction() {
    // 42 - 15 = 27
    let mut state = machine(&[0xd6, 0x15, 0x27, 0xd6, 0x01, 0x27]);
    state.cpu.r[reg::A as usize] = 0x42;
    exec_opcode(&mut state).unwrap();
    assert_eq!(state.cpu.r[reg::A as usize], 0x2d);
    exec_opcode(&mut state).unwrap();
    assert_eq!(state.cpu.r[reg::A as usize], 0x27);
    assert_eq!(flags(&state), flag::N);
    // 0 - 1 = 99 with a borrow
    state.cpu.r[reg::A as usize] = 0x00;
    exec_opcode(&mut state).unwrap();
    exec_opcode(&mut state).unwrap();
    assert_eq!(state.cpu.r[reg::A as usize], 0x99);
    assert_eq!(flags(&state), flag::N | flag::CY);
}

#[test]
fn decimal_adjust_sets_zero_and_honours_incoming_carry() {
    let mut state = machine(&[0x27, 0x27]);
    state.cpu.r[reg::A as usize] = 0x00;
    state.cpu.r[reg::F as usize] = flag::H | flag::ZF;
    exec_opcode(&mut state).unwrap();
    assert_eq!(state.cpu.r[reg::A as usize], 0x06);
    assert_eq!(flags(&state), 0);
    state.cpu.r[reg::A as usize] = 0xa0;
    state.cpu.r[reg::F as usize] = flag::CY;
    exec_opcode(&mut state).unwrap();
    assert_eq!(state.cpu.r[reg::A as usize], 0x00);
    assert_eq!(flags(&state), flag::ZF | flag::CY);
}

#[test]
fn accumulator_rotates() {
    let mut state = machine(&[0x07, 0x0f, 0x17, 0x1f]); // RLCA; RRCA; RLA; RRA
    state.cpu.r[reg::A as usize] = 0x81;
    assert_eq!(exec_opcode(&mut state), Ok(4));
    assert_eq!(state.cpu.r[reg::A as usize], 0x03);
    assert_eq!(flags(&state), flag::CY);
    exec_opcode(&mut state).unwrap();
    assert_eq!(state.cpu.r[reg::A as usize], 0x81);
    assert_eq!(flags(&state), flag::CY);
    exec_opcode(&mut state).unwrap();
    assert_eq!(state.cpu.r[reg::A as usize], 0x03);
    assert_eq!(flags(&state), flag::CY);
    state.cpu.r[reg::F as usize] = 0;
    exec_opcode(&mut state).unwrap();
    assert_eq!(state.cpu.r[reg::A as usize], 0x01);
    assert_eq!(flags(&state), flag::CY);
}

#[test]
fn second_page_shifts_and_swap() {
    // SLA B; SRA B; SWAP B; SRL B
    let mut state = machine(&[0xcb, 0x20, 0xcb, 0x28, 0xcb, 0x30, 0xcb, 0x38]);
    state.cpu.r[reg::B as usize] = 0x81;
    assert_eq!(exec_opcode(&mut state), Ok(8));
    assert_eq!(state.cpu.r[reg::B as usize], 0x02);
    assert_eq!(flags(&state), flag::CY);
    state.cpu.r[reg::B as usize] = 0x81;
    exec_opcode(&mut state).unwrap();
    assert_eq!(state.cpu.r[reg::B as usize], 0xc0);
    assert_eq!(flags(&state), flag::CY);
    state.cpu.r[reg::B as usize] = 0x12;
    exec_opcode(&mut state).unwrap();
    assert_eq!(state.cpu.r[reg::B as usize], 0x21);
    assert_eq!(flags(&state), 0);
    state.cpu.r[reg::B as usize] = 0x01;
    exec_opcode(&mut state).unwrap();
    assert_eq!(state.cpu.r[reg::B as usize], 0x00);
    assert_eq!(flags(&state), flag::ZF | flag::CY);
}

#[test]
fn second_page_bit_test_set_and_reset() {
    // BIT 7, H; SET 0, (HL); RES 7, A; BIT 0, (HL)
    let mut state = machine(&[0xcb, 0x7c, 0xcb, 0xc6, 0xcb, 0xbf, 0xcb, 0x46]);
    state.cpu.w16(reg::HL, 0xc000);
    state.cpu.r[reg::F as usize] = flag::CY;
    assert_eq!(exec_opcode(&mut state), Ok(8));
    assert_eq!(flags(&state), flag::H | flag::CY);
    assert_eq!(exec_opcode(&mut state), Ok(16));
    assert_eq!(state.mem.r(0xc000), Ok(0x01));
    state.cpu.r[reg::A as usize] = 0xff;
    exec_opcode(&mut state).unwrap();
    assert_eq!(state.cpu.r[reg::A as usize], 0x7f);
    state.cpu.w16(reg::HL, 0xc001);
    exec_opcode(&mut state).unwrap();
    assert_eq!(flags(&state), flag::ZF | flag::H | flag::CY);
}

#[test]
fn call_and_return() {
    let mut rom = vec![0u8; 0x30];
    rom[0] = 0xcd; // CALL 0x0020
    rom[1] = 0x20;
    rom[2] = 0x00;
    rom[0x20] = 0xc9; // RET
    let mut state = machine(&rom);
    state.cpu.sp = 0xfffe;
    assert_eq!(exec_opcode(&mut state), Ok(24));
    assert_eq!(state.cpu.pc, 0x0020);
    assert_eq!(state.cpu.sp, 0xfffc);
    assert_eq!(state.mem.r(0xfffc), Ok(0x03));
    assert_eq!(exec_opcode(&mut state), Ok(16));
    assert_eq!(state.cpu.pc, 0x0003);
    assert_eq!(state.cpu.sp, 0xfffe);
}

#[test]
fn conditional_call_and_return_costs() {
    let mut state = machine(&[0xc4, 0x20, 0x00, 0xc0]); // CALL NZ; RET NZ
    state.cpu.sp = 0xfffe;
    state.cpu.r[reg::F as usize] = flag::ZF;
    assert_eq!(exec_opcode(&mut state), Ok(12));
    assert_eq!(state.cpu.pc, 3);
    assert_eq!(exec_opcode(&mut state), Ok(8));
    assert_eq!(state.cpu.pc, 4);
    let mut state = machine(&[0xdc, 0x20, 0x00]); // CALL C
    state.cpu.sp = 0xfffe;
    state.cpu.r[reg::F as usize] = flag::CY;
    assert_eq!(exec_opcode(&mut state), Ok(24));
    assert_eq!(state.cpu.pc, 0x20);
}

#[test]
fn absolute_jumps() {
    let mut state = machine(&[0xc3, 0x34, 0x12]); // JP 0x1234
    assert_eq!(exec_opcode(&mut state), Ok(16));
    assert_eq!(state.cpu.pc, 0x1234);
    let mut state = machine(&[0xe9]); // JP HL
    state.cpu.w16(reg::HL, 0x4321);
    assert_eq!(exec_opcode(&mut state), Ok(4));
    assert_eq!(state.cpu.pc, 0x4321);
    let mut state = machine(&[0xda, 0x34, 0x12]); // JP C
    assert_eq!(exec_opcode(&mut state), Ok(12));
    assert_eq!(state.cpu.pc, 3);
}

#[test]
fn high_page_loads() {
    let mut state = machine(&[0xe0, 0x80, 0xf0, 0x80, 0xe2, 0xf2]); // LDH (0x80),A; LDH A,(0x80); LD (C),A; LD A,(C)
    state.cpu.r[reg::A as usize] = 0x5a;
    assert_eq!(exec_opcode(&mut state), Ok(12));
    assert_eq!(state.mem.r(0xff80), Ok(0x5a));
    state.cpu.r[reg::A as usize] = 0;
    assert_eq!(exec_opcode(&mut state), Ok(12));
    assert_eq!(state.cpu.r[reg::A as usize], 0x5a);
    state.cpu.r[reg::C as usize] = 0x81;
    assert_eq!(exec_opcode(&mut state), Ok(8));
    assert_eq!(state.mem.r(0xff81), Ok(0x5a));
    state.cpu.r[reg::A as usize] = 0;
    assert_eq!(exec_opcode(&mut state), Ok(8));
    assert_eq!(state.cpu.r[reg::A as usize], 0x5a);
}

#[test]
fn absolute_accumulator_loads_and_stack_pointer_moves() {
    let mut state = machine(&[0xea, 0x00, 0xc0, 0xfa, 0x00, 0xc0, 0xf9, 0xe8, 0xfe, 0xf8, 0x02]);
    state.cpu.r[reg::A as usize] = 0x77;
    assert_eq!(exec_opcode(&mut state), Ok(16)); // LD (0xc000), A
    assert_eq!(state.mem.r(0xc000), Ok(0x77));
    state.cpu.r[reg::A as usize] = 0;
    assert_eq!(exec_opcode(&mut state), Ok(16)); // LD A, (0xc000)
    assert_eq!(state.cpu.r[reg::A as usize], 0x77);
    state.cpu.w16(reg::HL, 0xff90);
    assert_eq!(exec_opcode(&mut state), Ok(8)); // LD SP, HL
    assert_eq!(state.cpu.sp, 0xff90);
    assert_eq!(exec_opcode(&mut state), Ok(16)); // ADD SP, -2
    assert_eq!(state.cpu.sp, 0xff8e);
    assert_eq!(exec_opcode(&mut state), Ok(12)); // LD HL, SP+2
    assert_eq!(state.cpu.r16(reg::HL), 0xff90);
}

#[test]
fn halt_waits_for_an_enabled_pending_interrupt() {
    let mut state = machine(&[0x76, 0x04]); // HALT; INC B
    assert_eq!(exec_opcode(&mut state), Ok(4));
    assert!(state.mem.halt);
    assert_eq!(state.cpu.pc, 1);
    assert_eq!(exec_opcode(&mut state), Ok(4));
    assert_eq!(state.cpu.pc, 1);
    state.mem.io[0x0f] = 0x04; // pending but not enabled
    assert_eq!(exec_opcode(&mut state), Ok(4));
    assert_eq!(state.cpu.pc, 1);
    state.mem.interrupts_register = 0x04;
    assert_eq!(exec_opcode(&mut state), Ok(4));
    assert!(!state.mem.halt);
    assert_eq!(state.cpu.pc, 2);
    assert_eq!(state.cpu.r[reg::B as usize], 1);
}

#[test]
fn interrupt_toggles_and_return_from_interrupt() {
    let mut state = machine(&[0xfb, 0xf3, 0xd9]); // EI; DI; RETI
    assert_eq!(exec_opcode(&mut state), Ok(4));
    assert!(state.mem.ime);
    assert_eq!(exec_opcode(&mut state), Ok(4));
    assert!(!state.mem.ime);
    state.cpu.sp = 0xff80;
    state.mem.w(0xff80, 0x34).unwrap();
    state.mem.w(0xff81, 0x12).unwrap();
    assert_eq!(exec_opcode(&mut state), Ok(16));
    assert!(state.mem.ime);
    assert_eq!(state.cpu.pc, 0x1234);
    assert_eq!(state.cpu.sp, 0xff82);
}

#[test]
fn loads_between_registers_and_memory() {
    let mut state = machine(&[0x70, 0x7e, 0x36, 0x99]); // LD (HL),B; LD A,(HL); LD (HL),n
    state.cpu.w16(reg::HL, 0xd000);
    state.cpu.r[reg::B as usize] = 0x21;
    assert_eq!(exec_opcode(&mut state), Ok(8));
    assert_eq!(state.mem.r(0xd000), Ok(0x21));
    assert_eq!(exec_opcode(&mut state), Ok(8));
    assert_eq!(state.cpu.r[reg::A as usize], 0x21);
    assert_eq!(exec_opcode(&mut state), Ok(8));
    assert_eq!(state.mem.r(0xd000), Ok(0x99));
}

#[test]
fn program_counter_wraps_at_the_end_of_memory() {
    let mut state = machine(&[]);
    state.cpu.pc = 0xffff;
    state.mem.interrupts_register = 0x00; // the byte at 0xffff: NOP
    assert_eq!(exec_opcode(&mut state), Ok(4));
    assert_eq!(state.cpu.pc, 0x0000);
}

#[test]
fn check_flag_reads_condition_codes() {
    let mut state = machine(&[]);
    state.cpu.r[reg::F as usize] = flag::ZF;
    assert!(state.cpu.check_flag(flag::Z));
    assert!(!state.cpu.check_flag(flag::NZ));
    assert!(state.cpu.check_flag(flag::NC));
    assert!(!state.cpu.check_flag(flag::C));
    state.cpu.r[reg::F as usize] = flag::CY;
    assert!(state.cpu.check_flag(flag::C));
    assert!(state.cpu.check_flag(flag::NZ));
}
