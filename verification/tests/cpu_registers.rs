use emulator::state::reg;
use emulator::state::CPU;

#[test]
fn pair_write_then_read() {
    let mut cpu = CPU::new();
    cpu.w16(reg::HL, 0x1234);
    assert_eq!(cpu.r16(reg::HL), 0x1234);
    assert_eq!(cpu.r[reg::H as usize], 0x12);
    assert_eq!(cpu.r[reg::L as usize], 0x34);
}
