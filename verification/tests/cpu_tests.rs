use covnes::nes::cpu::{CpuHostAccess, Flag, Flags, Interrupt, Line, State, CPU, S};
use covnes::nes::io::DummyIO;
use covnes::nes::mappers;
use covnes::nes::{Fault, Nes};
use covnes::romfiles::RomFile;

/// A console whose cartridge holds `code` at `$C000`, with every vector
/// pointing there, after its reset sequence.
fn console(code: &[u8]) -> Nes<DummyIO> {
    let mut nes = console_at_power_on(code);
    assert_eq!(nes.step_cpu_instruction(), Ok(7));
    nes
}

fn console_at_power_on(code: &[u8]) -> Nes<DummyIO> {
    let mut image = vec![0x4E, 0x45, 0x53, 0x1A, 1, 1, 0x02, 0, 0, 0, 0, 0, 0, 0, 0, 0];
    let mut prg = vec![0xEAu8; 16384];
    prg[..code.len()].copy_from_slice(code);
    // NMI to $C100, reset to $C000, IRQ and BRK to $C200
    prg[0x3FFA] = 0x00;
    prg[0x3FFB] = 0xC1;
    prg[0x3FFC] = 0x00;
    prg[0x3FFD] = 0xC0;
    prg[0x3FFE] = 0x00;
    prg[0x3FFF] = 0xC2;
    image.extend_from_slice(&prg);
    image.extend_from_slice(&vec![0u8; 8192]);
    let rom = RomFile::from_read(&image).unwrap();
    let cart = mappers::from_rom(rom).unwrap();
    let mut nes = Nes::new(DummyIO);
    nes.insert_cartridge(cart);
    nes
}

fn steps(nes: &mut Nes<DummyIO>, n: usize) {
    for _ in 0..n {
        nes.step_cpu_instruction().unwrap();
    }
}

#[test]
fn power_on_state() {
    let cpu = CPU::new();
    assert_eq!(cpu.pc, 0);
    assert_eq!(cpu.s, 0);
    assert_eq!(cpu.a, 0);
    assert_eq!(cpu.x, 0);
    assert_eq!(cpu.y, 0);
    assert_eq!(cpu.get_p(), 0);
    assert_eq!(cpu.state, State(S::Reset));
    assert_eq!(cpu.nmi, Line::Idle);
    assert_eq!(cpu.irq, Line::Idle);
    assert!(!cpu.is_at_instruction());
}

#[test]
fn reset_takes_seven_cycles_and_loads_the_vector() {
    let mut nes = console_at_power_on(&[0xEA]);
    assert_eq!(nes.step_cpu_instruction(), Ok(7));
    assert_eq!(nes.cpu.pc, 0xC000);
    assert!(nes.cpu.is_at_instruction());
    assert!(nes.cpu.get_flag(Flag::I));
    // The three pushes of a reset only move the stack pointer
    assert_eq!(nes.cpu.s, 0xFD);
    assert_eq!(nes.ram()[0x100], 0);
    assert_eq!(nes.ram()[0x1FF], 0);
}

#[test]
fn reset_during_run_restarts_at_the_vector() {
    let mut nes = console(&[0xA9, 0x12, 0x4C, 0x02, 0xC0]);
    steps(&mut nes, 3);
    nes.reset();
    assert_eq!(nes.step_cpu_instruction(), Ok(7));
    assert_eq!(nes.cpu.pc, 0xC000);
    assert_eq!(nes.cpu.a, 0x12);
}

#[test]
fn each_flag_has_its_bit() {
    let mut cpu = CPU::new();
    cpu.set_p(0x00);
    cpu.set_c(true);
    assert_eq!(cpu.get_p(), 0x01);
    assert!(cpu.get_c());
    cpu.set_z(true);
    assert_eq!(cpu.get_p(), 0x03);
    assert!(cpu.get_z());
    cpu.set_i(true);
    assert_eq!(cpu.get_p(), 0x07);
    assert!(cpu.get_i());
    cpu.set_d(true);
    assert_eq!(cpu.get_p(), 0x0F);
    assert!(cpu.get_d());
    cpu.set_v(true);
    assert_eq!(cpu.get_p(), 0x4F);
    assert!(cpu.get_v());
    cpu.set_n(true);
    assert_eq!(cpu.get_p(), 0xCF);
    assert!(cpu.get_n());
    cpu.set_z(false);
    cpu.set_v(false);
    assert_eq!(cpu.get_p(), 0x8D);
    assert!(!cpu.get_z());
    assert!(!cpu.get_v());
    assert!(cpu.get_flag(Flag::N));
}

#[test]
fn status_byte_round_trip() {
    let mut cpu = CPU::new();
    cpu.set_p(0xFF);
    // Bits 4 and 5 have no storage
    assert_eq!(cpu.get_p(), 0xCF);
    cpu.set_p(0x00);
    assert_eq!(cpu.get_p(), 0x00);
    cpu.set_flag(Flag::C, true);
    cpu.set_flag(Flag::N, true);
    assert_eq!(cpu.get_p(), 0x81);
    assert!(cpu.get_flag(Flag::C));
    assert!(!cpu.get_flag(Flag::Z));
    cpu.set_zn(0);
    assert_eq!(cpu.get_p(), 0x03);
    cpu.set_zn(0x80);
    assert_eq!(cpu.get_p(), 0x81);
    assert_eq!(Flags::from_bits_truncate(0x42).bits(), 0x42);
    assert_eq!(Flags::empty().bits(), 0);
    assert_eq!(Flags::from_bits_truncate(0xCF).pushed_bits(true), 0xFF);
    assert_eq!(Flags::from_bits_truncate(0x00).pushed_bits(false), 0x20);
}

#[test]
fn jump_to_pc_starts_an_instruction() {
    let mut nes = console_at_power_on(&[0xEA, 0xEA, 0xA9, 0x77]);
    nes.cpu.jump_to_pc(0xC002);
    assert!(nes.cpu.is_at_instruction());
    assert_eq!(nes.step_cpu_instruction(), Ok(2));
    assert_eq!(nes.cpu.a, 0x77);
    assert_eq!(nes.cpu.pc, 0xC004);
}

/// Runs `LDA #a; ADC #m` after `SEC` or `CLC` and gives A and the status
/// byte.
fn add(a: u8, m: u8, carry: bool) -> (u8, u8) {
    let mut nes = console(&[if carry { 0x38 } else { 0x18 }, 0xA9, a, 0x69, m]);
    steps(&mut nes, 3);
    (nes.cpu.a, nes.cpu.get_p() & 0xC3)
}

fn subtract(a: u8, m: u8, carry: bool) -> (u8, u8) {
    let mut nes = console(&[if carry { 0x38 } else { 0x18 }, 0xA9, a, 0xE9, m]);
    steps(&mut nes, 3);
    (nes.cpu.a, nes.cpu.get_p() & 0xC3)
}

const N: u8 = 0x80;
const V: u8 = 0x40;
const Z: u8 = 0x02;
const C: u8 = 0x01;

#[test]
fn adc_flags() {
    assert_eq!(add(0x50, 0x10, false), (0x60, 0));
    assert_eq!(add(0x50, 0x50, false), (0xA0, N | V));
    assert_eq!(add(0x50, 0x90, false), (0xE0, N));
    assert_eq!(add(0x50, 0xD0, false), (0x20, C));
    assert_eq!(add(0xD0, 0x10, false), (0xE0, N));
    assert_eq!(add(0xD0, 0x50, false), (0x20, C));
    assert_eq!(add(0xD0, 0x90, false), (0x60, V | C));
    assert_eq!(add(0xD0, 0xD0, false), (0xA0, N | C));
    assert_eq!(add(0xFF, 0x00, true), (0x00, Z | C));
    assert_eq!(add(0x7F, 0x00, true), (0x80, N | V));
    assert_eq!(add(0x00, 0x00, false), (0x00, Z));
    assert_eq!(add(0xFF, 0xFF, true), (0xFF, N | C));
}

#[test]
fn adc_flags_for_all_operands() {
    // C is the ninth bit of the sum, Z and N come from the low eight bits,
    // and V says that the signed sum left the range of a signed byte.
    let mut cpu = CPU::new();
    for a in 0..=255u8 {
        for m in [0x00u8, 0x01, 0x3F, 0x40, 0x7F, 0x80, 0x81, 0xC0, 0xFE, 0xFF] {
            for c in [false, true] {
                cpu.a = a;
                cpu.set_p(if c { 1 } else { 0 });
                covnes::nes::cpu::ReadOp::ADC.execute(&mut cpu, m);
                let sum = a as u16 + m as u16 + c as u16;
                let signed = a as i8 as i16 + m as i8 as i16 + c as i16;
                assert_eq!(cpu.a, sum as u8);
                assert_eq!(cpu.get_flag(Flag::C), sum >= 256);
                assert_eq!(cpu.get_flag(Flag::Z), sum as u8 == 0);
                assert_eq!(cpu.get_flag(Flag::N), sum as u8 >= 128);
                assert_eq!(cpu.get_flag(Flag::V), signed > 127 || signed < -128);

                cpu.a = a;
                cpu.set_p(if c { 1 } else { 0 });
                covnes::nes::cpu::ReadOp::SBC.execute(&mut cpu, m);
                let diff = a as i16 - m as i16 - (!c) as i16;
                let signed = a as i8 as i16 - m as i8 as i16 - (!c) as i16;
                assert_eq!(cpu.a, diff as u8);
                assert_eq!(cpu.get_flag(Flag::C), diff >= 0);
                assert_eq!(cpu.get_flag(Flag::Z), diff as u8 == 0);
                assert_eq!(cpu.get_flag(Flag::N), diff as u8 >= 128);
                assert_eq!(cpu.get_flag(Flag::V), signed > 127 || signed < -128);
            }
        }
    }
}

#[test]
fn sbc_flags() {
    assert_eq!(subtract(0x50, 0xF0, true), (0x60, 0));
    assert_eq!(subtract(0x50, 0xB0, true), (0xA0, N | V));
    assert_eq!(subtract(0x50, 0x70, true), (0xE0, N));
    assert_eq!(subtract(0x50, 0x30, true), (0x20, C));
    assert_eq!(subtract(0xD0, 0x70, true), (0x60, V | C));
    assert_eq!(subtract(0x00, 0x00, true), (0x00, Z | C));
    assert_eq!(subtract(0x00, 0x00, false), (0xFF, N));
    assert_eq!(subtract(0x80, 0x01, true), (0x7F, V | C));
}

#[test]
fn decimal_flag_has_no_effect_on_addition() {
    // SED; CLC; LDA #$09; ADC #$01
    let mut nes = console(&[0xF8, 0x18, 0xA9, 0x09, 0x69, 0x01]);
    steps(&mut nes, 4);
    assert_eq!(nes.cpu.a, 0x0A);
    assert!(nes.cpu.get_flag(Flag::D));
}

#[test]
fn compares_set_carry_when_no_borrow() {
    // LDA #$40; CMP #$40; CMP #$41; CMP #$3F
    let mut nes = console(&[0xA9, 0x40, 0xC9, 0x40, 0xC9, 0x41, 0xC9, 0x3F]);
    steps(&mut nes, 2);
    assert_eq!(nes.cpu.get_p() & 0x83, Z | C);
    steps(&mut nes, 1);
    assert_eq!(nes.cpu.get_p() & 0x83, N);
    steps(&mut nes, 1);
    assert_eq!(nes.cpu.get_p() & 0x83, C);
    assert_eq!(nes.cpu.a, 0x40);

    // LDX #$10; CPX #$10; LDY #$01; CPY #$02
    let mut nes = console(&[0xA2, 0x10, 0xE0, 0x10, 0xA0, 0x01, 0xC0, 0x02]);
    steps(&mut nes, 2);
    assert_eq!(nes.cpu.get_p() & 0x83, Z | C);
    steps(&mut nes, 2);
    assert_eq!(nes.cpu.get_p() & 0x83, N);
}

#[test]
fn bit_takes_n_and_v_from_the_operand() {
    // LDA #$C0; STA $10; LDA #$01; BIT $10
    let mut nes = console(&[0xA9, 0xC0, 0x85, 0x10, 0xA9, 0x01, 0x24, 0x10]);
    steps(&mut nes, 4);
    assert_eq!(nes.cpu.get_p() & 0xC2, N | V | Z);
    assert_eq!(nes.cpu.a, 0x01);
}

#[test]
fn logic_operations() {
    // LDA #$F0; AND #$3C; ORA #$03; EOR #$FF
    let mut nes = console(&[0xA9, 0xF0, 0x29, 0x3C, 0x09, 0x03, 0x49, 0xFF]);
    steps(&mut nes, 2);
    assert_eq!(nes.cpu.a, 0x30);
    steps(&mut nes, 1);
    assert_eq!(nes.cpu.a, 0x33);
    steps(&mut nes, 1);
    assert_eq!(nes.cpu.a, 0xCC);
    assert!(nes.cpu.get_flag(Flag::N));
}

#[test]
fn shifts_and_rotates_on_the_accumulator() {
    // LDA #$81; ASL A; ROL A; LSR A; ROR A
    let mut nes = console(&[0xA9, 0x81, 0x0A, 0x2A, 0x4A, 0x6A]);
    steps(&mut nes, 2);
    assert_eq!((nes.cpu.a, nes.cpu.get_flag(Flag::C)), (0x02, true));
    steps(&mut nes, 1);
    assert_eq!((nes.cpu.a, nes.cpu.get_flag(Flag::C)), (0x05, false));
    steps(&mut nes, 1);
    assert_eq!((nes.cpu.a, nes.cpu.get_flag(Flag::C)), (0x02, true));
    steps(&mut nes, 1);
    assert_eq!((nes.cpu.a, nes.cpu.get_flag(Flag::C)), (0x81, false));
    assert!(nes.cpu.get_flag(Flag::N));
}

#[test]
fn read_modify_write_in_memory() {
    // LDA #$7F; STA $20; INC $20; INC $20; DEC $20; ASL $20
    let mut nes = console(&[0xA9, 0x7F, 0x85, 0x20, 0xE6, 0x20, 0xE6, 0x20, 0xC6, 0x20, 0x06, 0x20]);
    steps(&mut nes, 3);
    assert_eq!(nes.ram()[0x20], 0x80);
    assert!(nes.cpu.get_flag(Flag::N));
    steps(&mut nes, 1);
    assert_eq!(nes.ram()[0x20], 0x81);
    steps(&mut nes, 1);
    assert_eq!(nes.ram()[0x20], 0x80);
    steps(&mut nes, 1);
    assert_eq!(nes.ram()[0x20], 0x00);
    assert!(nes.cpu.get_flag(Flag::C));
    assert!(nes.cpu.get_flag(Flag::Z));
    // The accumulator is not touched
    assert_eq!(nes.cpu.a, 0x7F);
}

#[test]
fn transfers_and_counters() {
    // LDA #$80; TAX; TAY; INX; DEY; TXA; LDX #$FF; TXS; LDX #0; TSX; TYA
    let mut nes = console(&[
        0xA9, 0x80, 0xAA, 0xA8, 0xE8, 0x88, 0x8A, 0xA2, 0xFF, 0x9A, 0xA2, 0x00, 0xBA, 0x98,
    ]);
    steps(&mut nes, 3);
    assert_eq!((nes.cpu.x, nes.cpu.y), (0x80, 0x80));
    steps(&mut nes, 2);
    assert_eq!((nes.cpu.x, nes.cpu.y), (0x81, 0x7F));
    assert!(!nes.cpu.get_flag(Flag::N));
    steps(&mut nes, 1);
    assert_eq!(nes.cpu.a, 0x81);
    steps(&mut nes, 2);
    assert_eq!(nes.cpu.s, 0xFF);
    // TXS leaves the flags alone: N is still that of LDX #$FF
    assert!(nes.cpu.get_flag(Flag::N));
    steps(&mut nes, 2);
    assert_eq!(nes.cpu.x, 0xFF);
    steps(&mut nes, 1);
    assert_eq!(nes.cpu.a, 0x7F);
}

#[test]
fn flag_instructions() {
    // SEC; SED; SEI; CLC; CLD; CLI; then overflow and CLV
    let mut nes = console(&[0x38, 0xF8, 0x78, 0x18, 0xD8, 0x58, 0xA9, 0x7F, 0x69, 0x01, 0xB8]);
    steps(&mut nes, 3);
    assert_eq!(nes.cpu.get_p() & 0x0D, 0x0D);
    steps(&mut nes, 3);
    assert_eq!(nes.cpu.get_p() & 0x0D, 0x00);
    steps(&mut nes, 2);
    assert!(nes.cpu.get_flag(Flag::V));
    steps(&mut nes, 1);
    assert!(!nes.cpu.get_flag(Flag::V));
}

#[test]
fn undocumented_loads_and_stores() {
    // LDA #$F0; LDX #$3C; SAX $10 ; LAX $10
    let mut nes = console(&[0xA9, 0xF0, 0xA2, 0x3C, 0x87, 0x10, 0xA9, 0x00, 0xA7, 0x10]);
    steps(&mut nes, 3);
    assert_eq!(nes.ram()[0x10], 0x30);
    steps(&mut nes, 2);
    assert_eq!((nes.cpu.a, nes.cpu.x), (0x30, 0x30));
}

#[test]
fn undocumented_read_modify_write() {
    // DCP: LDA #$10; LDX #$11; STX $10; DCP $10 -> memory $10, compare equal
    let mut nes = console(&[0xA9, 0x10, 0xA2, 0x11, 0x86, 0x10, 0xC7, 0x10]);
    steps(&mut nes, 4);
    assert_eq!(nes.ram()[0x10], 0x10);
    assert_eq!(nes.cpu.get_p() & 0x83, Z | C);

    // ISC: SEC; LDA #$10; LDX #$0F; STX $10; ISC $10 -> memory $10, A = 0
    let mut nes = console(&[0x38, 0xA9, 0x10, 0xA2, 0x0F, 0x86, 0x10, 0xE7, 0x10]);
    steps(&mut nes, 5);
    assert_eq!(nes.ram()[0x10], 0x10);
    assert_eq!(nes.cpu.a, 0x00);
    assert_eq!(nes.cpu.get_p() & 0x83, Z | C);

    // SLO: LDA #$01; LDX #$81; STX $10; SLO $10 -> memory $02, A = $03, C
    let mut nes = console(&[0xA9, 0x01, 0xA2, 0x81, 0x86, 0x10, 0x07, 0x10]);
    steps(&mut nes, 4);
    assert_eq!(nes.ram()[0x10], 0x02);
    assert_eq!(nes.cpu.a, 0x03);
    assert!(nes.cpu.get_flag(Flag::C));

    // RLA: SEC; LDA #$FF; LDX #$40; STX $10; RLA $10 -> memory $81, A = $81
    let mut nes = console(&[0x38, 0xA9, 0xFF, 0xA2, 0x40, 0x86, 0x10, 0x27, 0x10]);
    steps(&mut nes, 5);
    assert_eq!(nes.ram()[0x10], 0x81);
    assert_eq!(nes.cpu.a, 0x81);
    assert!(!nes.cpu.get_flag(Flag::C));

    // SRE: LDA #$FF; LDX #$03; STX $10; SRE $10 -> memory $01, A = $FE, C
    let mut nes = console(&[0xA9, 0xFF, 0xA2, 0x03, 0x86, 0x10, 0x47, 0x10]);
    steps(&mut nes, 4);
    assert_eq!(nes.ram()[0x10], 0x01);
    assert_eq!(nes.cpu.a, 0xFE);
    assert!(nes.cpu.get_flag(Flag::C));

    // RRA: CLC; LDA #$01; LDX #$03; STX $10; RRA $10 -> memory $01, carry
    // out of the rotate goes into the addition: A = 1 + 1 + 1
    let mut nes = console(&[0x18, 0xA9, 0x01, 0xA2, 0x03, 0x86, 0x10, 0x67, 0x10]);
    steps(&mut nes, 5);
    assert_eq!(nes.ram()[0x10], 0x01);
    assert_eq!(nes.cpu.a, 0x03);
    assert!(!nes.cpu.get_flag(Flag::C));
}

#[test]
fn undocumented_immediates() {
    // ANC: LDA #$F0; ANC #$80 -> A = $80, C = N
    let mut nes = console(&[0xA9, 0xF0, 0x0B, 0x80]);
    steps(&mut nes, 2);
    assert_eq!(nes.cpu.a, 0x80);
    assert_eq!(nes.cpu.get_p() & 0x83, N | C);

    // ALR: LDA #$FF; ALR #$03 -> A = $01, C
    let mut nes = console(&[0xA9, 0xFF, 0x4B, 0x03]);
    steps(&mut nes, 2);
    assert_eq!(nes.cpu.a, 0x01);
    assert_eq!(nes.cpu.get_p() & 0x83, C);

    // ARR: SEC; LDA #$FF; ARR #$C0 -> A = $E0, C from bit 6, V from bit 6
    // xor bit 5
    let mut nes = console(&[0x38, 0xA9, 0xFF, 0x6B, 0xC0]);
    steps(&mut nes, 3);
    assert_eq!(nes.cpu.a, 0xE0);
    assert_eq!(nes.cpu.get_p() & 0xC3, N | C);

    let mut nes = console(&[0x18, 0xA9, 0xFF, 0x6B, 0x80]);
    steps(&mut nes, 3);
    assert_eq!(nes.cpu.a, 0x40);
    assert_eq!(nes.cpu.get_p() & 0xC3, V | C);

    // AXS: LDA #$F0; LDX #$3C; AXS #$10 -> X = ($F0 & $3C) - $10 = $20, C
    let mut nes = console(&[0xA9, 0xF0, 0xA2, 0x3C, 0xCB, 0x10]);
    steps(&mut nes, 3);
    assert_eq!(nes.cpu.x, 0x20);
    assert_eq!(nes.cpu.get_p() & 0x83, C);

    // LAX #imm and the second SBC opcode
    let mut nes = console(&[0xAB, 0x55, 0x38, 0xEB, 0x05]);
    steps(&mut nes, 1);
    assert_eq!((nes.cpu.a, nes.cpu.x), (0x55, 0x55));
    steps(&mut nes, 2);
    assert_eq!(nes.cpu.a, 0x50);
}

#[test]
fn high_byte_stores() {
    // SHY $0210,X with X = 0: stores Y & ($02 + 1) at $0210
    let mut nes = console(&[0xA0, 0xFF, 0xA2, 0x00, 0x9C, 0x10, 0x02]);
    steps(&mut nes, 3);
    assert_eq!(nes.ram()[0x210], 0x03);

    // SHX $02F0,Y with Y = $20 crosses the page: the value is X & 3, and it
    // becomes the high byte of the address too
    let mut nes = console(&[0xA2, 0x05, 0xA0, 0x20, 0x9E, 0xF0, 0x02]);
    steps(&mut nes, 3);
    assert_eq!(nes.ram()[0x110], 0x01);
    assert_eq!(nes.ram()[0x310], 0x00);
}

/// The number of cycles that the last instruction of `code` takes, with
/// `setup` instructions before it.
fn cycles(code: &[u8], setup: usize) -> usize {
    let mut nes = console(code);
    steps(&mut nes, setup);
    nes.step_cpu_instruction().unwrap()
}

#[test]
fn instruction_timing() {
    // Immediate and implied
    assert_eq!(cycles(&[0xA9, 0x00], 0), 2);
    assert_eq!(cycles(&[0xEA], 0), 2);
    assert_eq!(cycles(&[0x0A], 0), 2);
    // Zero page
    assert_eq!(cycles(&[0xA5, 0x10], 0), 3);
    assert_eq!(cycles(&[0x85, 0x10], 0), 3);
    assert_eq!(cycles(&[0xE6, 0x10], 0), 5);
    // Zero page indexed
    assert_eq!(cycles(&[0xB5, 0x10], 0), 4);
    assert_eq!(cycles(&[0xB6, 0x10], 0), 4);
    assert_eq!(cycles(&[0x95, 0x10], 0), 4);
    assert_eq!(cycles(&[0xF6, 0x10], 0), 6);
    // Absolute
    assert_eq!(cycles(&[0xAD, 0x10, 0x02], 0), 4);
    assert_eq!(cycles(&[0x8D, 0x10, 0x02], 0), 4);
    assert_eq!(cycles(&[0xEE, 0x10, 0x02], 0), 6);
    // Absolute indexed: a read pays for a page cross, a write always
    assert_eq!(cycles(&[0xA2, 0x01, 0xBD, 0x10, 0x02], 1), 4);
    assert_eq!(cycles(&[0xA2, 0x01, 0xBD, 0xFF, 0x02], 1), 5);
    assert_eq!(cycles(&[0xA0, 0x01, 0xB9, 0xFF, 0x02], 1), 5);
    assert_eq!(cycles(&[0xA2, 0x01, 0x9D, 0x10, 0x02], 1), 5);
    assert_eq!(cycles(&[0xA2, 0x01, 0x9D, 0xFF, 0x02], 1), 5);
    assert_eq!(cycles(&[0xA2, 0x01, 0xFE, 0x10, 0x02], 1), 7);
    assert_eq!(cycles(&[0xA2, 0x01, 0xFE, 0xFF, 0x02], 1), 7);
    // Indexed indirect and indirect indexed
    assert_eq!(cycles(&[0xA1, 0x10], 0), 6);
    assert_eq!(cycles(&[0x81, 0x10], 0), 6);
    assert_eq!(cycles(&[0xB1, 0x10], 0), 5);
    assert_eq!(cycles(&[0xA9, 0xFF, 0x85, 0x10, 0xA0, 0x01, 0xB1, 0x10], 3), 6);
    assert_eq!(cycles(&[0x91, 0x10], 0), 6);
    assert_eq!(cycles(&[0xC3, 0x10], 0), 8);
    assert_eq!(cycles(&[0xD3, 0x10], 0), 8);
    // Jumps, calls and returns
    assert_eq!(cycles(&[0x4C, 0x00, 0xC0], 0), 3);
    assert_eq!(cycles(&[0x6C, 0x00, 0x02], 0), 5);
    assert_eq!(cycles(&[0x20, 0x03, 0xC0, 0x60], 0), 6);
    assert_eq!(cycles(&[0x20, 0x03, 0xC0, 0x60], 1), 6);
    // The stack
    assert_eq!(cycles(&[0x48], 0), 3);
    assert_eq!(cycles(&[0x08], 0), 3);
    assert_eq!(cycles(&[0x68], 0), 4);
    assert_eq!(cycles(&[0x28], 0), 4);
    // Interrupts
    assert_eq!(cycles(&[0x00], 0), 7);
    assert_eq!(cycles(&[0x40], 0), 6);
}

#[test]
fn branch_timing() {
    // CLC; BCS +2: not taken
    assert_eq!(cycles(&[0x18, 0xB0, 0x02], 1), 2);
    // CLC; BCC +2: taken inside the page
    assert_eq!(cycles(&[0x18, 0x90, 0x02], 1), 3);
    // CLC; BCC -128: taken across the page
    assert_eq!(cycles(&[0x18, 0x90, 0x80], 1), 4);
}

#[test]
fn branches_follow_their_flags() {
    for (opcode, status, taken) in [
        (0x90u8, 0x00u8, true),
        (0x90, 0x01, false),
        (0xB0, 0x01, true),
        (0xB0, 0x00, false),
        (0xF0, 0x02, true),
        (0xF0, 0x00, false),
        (0xD0, 0x00, true),
        (0xD0, 0x02, false),
        (0x30, 0x80, true),
        (0x30, 0x00, false),
        (0x10, 0x00, true),
        (0x10, 0x80, false),
        (0x70, 0x40, true),
        (0x70, 0x00, false),
        (0x50, 0x00, true),
        (0x50, 0x40, false),
    ] {
        let mut nes = console(&[opcode, 0x10]);
        nes.cpu.set_p(status);
        nes.step_cpu_instruction().unwrap();
        assert_eq!(nes.cpu.pc, if taken { 0xC012 } else { 0xC002 }, "{:02X}", opcode);
    }
}

#[test]
fn backward_branch() {
    // LDX #3; DEX; BNE -3
    let mut nes = console(&[0xA2, 0x03, 0xCA, 0xD0, 0xFD, 0xEA]);
    steps(&mut nes, 3);
    assert_eq!(nes.cpu.pc, 0xC002);
    steps(&mut nes, 4);
    assert_eq!(nes.cpu.pc, 0xC005);
    assert_eq!(nes.cpu.x, 0);
}

#[test]
fn indirect_jump_wraps_inside_the_page() {
    // The pointer at $02FF takes its high byte from $0200
    let mut nes = console(&[0x6C, 0xFF, 0x02]);
    nes.write(0x02FF, 0x34);
    nes.write(0x0200, 0x12);
    nes.write(0x0300, 0x56);
    nes.step_cpu_instruction().unwrap();
    assert_eq!(nes.cpu.pc, 0x1234);
}

#[test]
fn zero_page_indexing_wraps() {
    // LDX #$10; LDA $F8,X reads $08
    let mut nes = console(&[0xA2, 0x10, 0xB5, 0xF8]);
    nes.write(0x0008, 0x42);
    nes.write(0x0108, 0x24);
    steps(&mut nes, 2);
    assert_eq!(nes.cpu.a, 0x42);

    // LDX #$01; LDA ($FF,X) takes its pointer from $00 and $01
    let mut nes = console(&[0xA2, 0x01, 0xA1, 0xFF]);
    nes.write(0x0000, 0x10);
    nes.write(0x0001, 0x02);
    nes.write(0x0210, 0x99);
    steps(&mut nes, 2);
    assert_eq!(nes.cpu.a, 0x99);

    // LDA ($FF),Y takes its pointer from $FF and $00
    let mut nes = console(&[0xA0, 0x02, 0xB1, 0xFF]);
    nes.write(0x00FF, 0x0E);
    nes.write(0x0000, 0x02);
    nes.write(0x0210, 0x77);
    steps(&mut nes, 2);
    assert_eq!(nes.cpu.a, 0x77);
}

#[test]
fn subroutine_call_and_return() {
    // JSR $C005; LDA #$01; ...; at $C005: LDX #$22; RTS
    let mut nes = console(&[0x20, 0x05, 0xC0, 0xA9, 0x01, 0xA2, 0x22, 0x60]);
    nes.step_cpu_instruction().unwrap();
    assert_eq!(nes.cpu.pc, 0xC005);
    // The address of the last byte of the JSR is on the stack
    assert_eq!(nes.ram()[0x1FD], 0xC0);
    assert_eq!(nes.ram()[0x1FC], 0x02);
    assert_eq!(nes.cpu.s, 0xFB);
    steps(&mut nes, 2);
    assert_eq!(nes.cpu.pc, 0xC003);
    assert_eq!(nes.cpu.s, 0xFD);
    steps(&mut nes, 1);
    assert_eq!((nes.cpu.a, nes.cpu.x), (0x01, 0x22));
}

#[test]
fn stack_pushes_and_pulls() {
    // LDA #$80; PHA; LDA #$00; PLA
    let mut nes = console(&[0xA9, 0x80, 0x48, 0xA9, 0x00, 0x68]);
    steps(&mut nes, 2);
    assert_eq!(nes.ram()[0x1FD], 0x80);
    assert_eq!(nes.cpu.s, 0xFC);
    steps(&mut nes, 2);
    assert_eq!(nes.cpu.a, 0x80);
    assert!(nes.cpu.get_flag(Flag::N));
    assert_eq!(nes.cpu.s, 0xFD);

    // SEC; PHP pushes the flags with bits 4 and 5 set; CLC; PLP
    let mut nes = console(&[0x38, 0x08, 0x18, 0x28]);
    steps(&mut nes, 2);
    assert_eq!(nes.ram()[0x1FD], 0x35);
    steps(&mut nes, 2);
    assert_eq!(nes.cpu.get_p(), 0x05);
}

#[test]
fn break_pushes_the_return_address_and_the_flags() {
    // BRK at $C000; the handler at $C200 is RTI
    let mut code = vec![0xEAu8; 0x201];
    code[0] = 0x00;
    code[0x200] = 0x40;
    let mut nes = console(&code);
    nes.cpu.set_p(0x01);
    assert_eq!(nes.step_cpu_instruction(), Ok(7));
    assert_eq!(nes.cpu.pc, 0xC200);
    assert!(nes.cpu.get_flag(Flag::I));
    // The return address skips the byte after the BRK
    assert_eq!(nes.ram()[0x1FD], 0xC0);
    assert_eq!(nes.ram()[0x1FC], 0x02);
    // B and bit 5 are set in the pushed flags
    assert_eq!(nes.ram()[0x1FB], 0x31);
    assert_eq!(nes.step_cpu_instruction(), Ok(6));
    assert_eq!(nes.cpu.pc, 0xC002);
    assert_eq!(nes.cpu.get_p(), 0x01);
    assert_eq!(nes.cpu.s, 0xFD);
}

#[test]
fn nmi_is_taken_once_per_edge() {
    let mut code = vec![0xEAu8; 0x101];
    // The handler at $C100 is RTI
    code[0x100] = 0x40;
    let mut nes = console(&code);
    nes.cpu.set_p(0x00);
    // Two signals before the poll are one edge
    nes.cpu.set_nmi();
    nes.cpu.set_nmi();
    assert_eq!(nes.cpu.nmi, Line::Pending);
    // The NOP that runs while the edge is polled is not interrupted
    assert_eq!(nes.step_cpu_instruction(), Ok(2));
    assert_eq!(nes.cpu.nmi, Line::Armed);
    assert_eq!(nes.cpu.pc, 0xC001);
    // A signal on an armed latch changes nothing
    nes.cpu.set_nmi();
    assert_eq!(nes.cpu.nmi, Line::Armed);
    assert_eq!(nes.step_cpu_instruction(), Ok(7));
    assert_eq!(nes.cpu.pc, 0xC100);
    assert_eq!(nes.cpu.nmi, Line::Idle);
    assert!(nes.cpu.get_flag(Flag::I));
    // The flags are pushed without B
    assert_eq!(nes.ram()[0x1FD], 0xC0);
    assert_eq!(nes.ram()[0x1FC], 0x01);
    assert_eq!(nes.ram()[0x1FB], 0x20);
    // No second entry: the handler returns and the program goes on
    assert_eq!(nes.step_cpu_instruction(), Ok(6));
    assert_eq!(nes.cpu.pc, 0xC001);
    assert_eq!(nes.step_cpu_instruction(), Ok(2));
    assert_eq!(nes.cpu.pc, 0xC002);
}

#[test]
fn nmi_can_be_taken_back_before_the_poll() {
    let mut nes = console(&[0xEA, 0xEA]);
    nes.cpu.set_nmi();
    nes.cpu.clear_nmi();
    assert_eq!(nes.cpu.nmi, Line::Idle);
    steps(&mut nes, 2);
    assert_eq!(nes.cpu.pc, 0xC002);
}

#[test]
fn nmi_hijacks_a_break() {
    let mut code = vec![0xEAu8; 0x201];
    code[0] = 0x00;
    let mut nes = console(&code);
    nes.cpu.set_p(0x00);
    // Run the BRK up to the push of PCH, then let the NMI arrive
    nes.tick_cpu().unwrap();
    nes.tick_cpu().unwrap();
    assert_eq!(nes.cpu.state, State(S::Int2(Interrupt::BRK)));
    nes.cpu.set_nmi();
    while !nes.cpu.is_at_instruction() {
        nes.tick_cpu().unwrap();
    }
    // The NMI vector is taken, B stays set in the pushed flags
    assert_eq!(nes.cpu.pc, 0xC100);
    assert_eq!(nes.ram()[0x1FB], 0x30);
    assert_eq!(nes.cpu.nmi, Line::Idle);
}

#[test]
fn nmi_hijacks_before_it_is_polled() {
    // A BRK that has just pushed PCL is taken over by an NMI that no poll
    // has seen yet
    let mut code = vec![0xEAu8; 0x201];
    code[0] = 0x00;
    let mut nes = console(&code);
    nes.cpu.set_p(0x00);
    nes.tick_cpu().unwrap();
    nes.tick_cpu().unwrap();
    nes.tick_cpu().unwrap();
    assert_eq!(nes.cpu.state, State(S::Int3(Interrupt::BRK)));
    nes.cpu.set_nmi();
    assert_eq!(nes.cpu.nmi, Line::Pending);
    let mut cpu = nes.cpu;
    assert_eq!(cpu.complete(0), Ok(()));
    assert_eq!(cpu.state, State(S::Int4(Interrupt::NMI, true)));
    assert_eq!(cpu.nmi, Line::Idle);
    while !nes.cpu.is_at_instruction() {
        nes.tick_cpu().unwrap();
    }
    assert_eq!(nes.cpu.pc, 0xC100);
    assert_eq!(nes.ram()[0x1FB], 0x30);
    assert_eq!(nes.cpu.nmi, Line::Idle);
    assert!(nes.cpu.get_flag(Flag::I));

    // So is an IRQ, with B clear in the pushed flags
    let mut cpu = CPU::new();
    cpu.state = State(S::Int3(Interrupt::IRQ));
    cpu.set_nmi();
    assert_eq!(cpu.complete(0), Ok(()));
    assert_eq!(cpu.state, State(S::Int4(Interrupt::NMI, false)));
    assert_eq!(cpu.nmi, Line::Idle);
    // Without a signal the sequence keeps its vector, and a reset is
    // never taken over
    let mut cpu = CPU::new();
    cpu.state = State(S::Int3(Interrupt::IRQ));
    assert_eq!(cpu.complete(0), Ok(()));
    assert_eq!(cpu.state, State(S::Int4(Interrupt::IRQ, false)));
    let mut cpu = CPU::new();
    cpu.state = State(S::Int3(Interrupt::Reset));
    cpu.set_nmi();
    assert_eq!(cpu.complete(0), Ok(()));
    assert_eq!(cpu.state, State(S::Int4(Interrupt::Reset, false)));
    assert_eq!(cpu.nmi, Line::Pending);
}

#[test]
fn irq_waits_for_the_interrupt_flag() {
    // SEI; NOP; CLI; NOP; NOP
    let mut code = vec![0xEAu8; 0x201];
    code[0] = 0x78;
    code[2] = 0x58;
    let mut nes = console(&code);
    nes.cpu.set_irq();
    assert_eq!(nes.cpu.irq, Line::Pending);
    // While I is set the request is dropped at the opcode fetch
    steps(&mut nes, 1);
    assert_eq!(nes.cpu.irq, Line::Idle);
    steps(&mut nes, 1);
    assert_eq!(nes.cpu.pc, 0xC002);
    steps(&mut nes, 1);
    assert!(!nes.cpu.get_flag(Flag::I));
    nes.cpu.set_irq();
    steps(&mut nes, 1);
    assert_eq!(nes.cpu.pc, 0xC004);
    assert_eq!(nes.step_cpu_instruction(), Ok(7));
    assert_eq!(nes.cpu.pc, 0xC200);
    // B is clear in the pushed flags
    assert_eq!(nes.ram()[0x1FB], 0x20);
}

#[test]
fn illegal_opcode_stops_the_machine() {
    let mut nes = console(&[0xEA, 0x02, 0xEA]);
    steps(&mut nes, 1);
    assert_eq!(nes.step_cpu_instruction(), Err(Fault::IllegalOpcode(0x02)));
    // The CPU stays before the byte
    assert_eq!(nes.cpu.pc, 0xC001);
    assert!(nes.cpu.is_at_instruction());
    assert_eq!(nes.fault, Some(Fault::IllegalOpcode(0x02)));
    // A stopped machine does not move
    let dot = nes.ppu.dot;
    assert_eq!(nes.tick(), Err(Fault::IllegalOpcode(0x02)));
    assert_eq!(nes.tick_cpu(), Err(Fault::IllegalOpcode(0x02)));
    assert_eq!(nes.step_frame(), Err(Fault::IllegalOpcode(0x02)));
    assert_eq!(nes.ppu.dot, dot);
    // Until it is reset
    nes.reset();
    assert_eq!(nes.fault, None);
    nes.step_cpu_instruction().unwrap();
    assert_eq!(nes.cpu.pc, 0xC000);
}

#[test]
fn test_mode_registers_stop_the_machine() {
    // LDA $4018
    let mut nes = console(&[0xAD, 0x18, 0x40]);
    assert_eq!(nes.step_cpu_instruction(), Err(Fault::UnmappedRead(0x4018)));
    // STA $401F
    let mut nes = console(&[0x8D, 0x1F, 0x40]);
    assert_eq!(nes.step_cpu_instruction(), Err(Fault::UnmappedWrite(0x401F)));
}

#[test]
fn every_instruction_ends_within_eight_cycles() {
    let illegal = [
        0x02u8, 0x12, 0x22, 0x32, 0x42, 0x52, 0x62, 0x72, 0x8B, 0x92, 0x93, 0x9B, 0x9F, 0xB2,
        0xBB, 0xD2, 0xF2,
    ];
    for opcode in 0..=255u8 {
        for index in [0x00u8, 0xFF] {
            // JMP $0200, where the instruction under test stands, with
            // operands that keep every access in RAM
            let mut nes = console(&[0x4C, 0x00, 0x02]);
            steps(&mut nes, 1);
            nes.write(0x0200, opcode);
            nes.write(0x0201, 0x80);
            nes.write(0x0202, 0x02);
            nes.write(0x0080, 0x90);
            nes.write(0x0081, 0x02);
            nes.cpu.x = index;
            nes.cpu.y = index;
            nes.cpu.s = 0x80;
            let result = nes.step_cpu_instruction();
            if illegal.contains(&opcode) {
                assert_eq!(result, Err(Fault::IllegalOpcode(opcode)));
            } else {
                let ticks = result.unwrap();
                assert!((2..=8).contains(&ticks), "{:02X} took {}", opcode, ticks);
                assert!(nes.cpu.is_at_instruction());
            }
        }
    }
}

#[test]
fn one_bus_access_per_cycle() {
    // Count the accesses of a read-modify-write through what it does to the
    // PPU's data port: INC $2007 reads once and writes twice.
    let mut nes = console(&[0xEE, 0x07, 0x20]);
    nes.write(0x2006, 0x20);
    nes.write(0x2006, 0x00);
    assert_eq!(nes.step_cpu_instruction(), Ok(6));
    // Three accesses moved the address on by three
    assert_eq!(nes.ppu.addr_v, 0x2003);
}

#[test]
fn instruction_trace() {
    // A program that starts like a well-known CPU test: a jump, stores to
    // the zero page, a call, and branches on the carry.
    let mut code = vec![0xEAu8; 0x800];
    code[0x000..0x003].copy_from_slice(&[0x4C, 0xF5, 0xC5]);
    code[0x5F5..0x600].copy_from_slice(&[
        0xA2, 0x00, 0x86, 0x00, 0x86, 0x10, 0x86, 0x11, 0x20, 0x2D, 0xC7,
    ]);
    code[0x72D..0x731].copy_from_slice(&[0xEA, 0x38, 0xB0, 0x04]);
    code[0x735..0x73C].copy_from_slice(&[0xEA, 0x18, 0xB0, 0x03, 0x4C, 0x40, 0xC7]);
    code[0x740..0x746].copy_from_slice(&[0xEA, 0x38, 0x90, 0x03, 0x4C, 0x4B]);
    let mut nes = console_at_power_on(&code);
    nes.step_cpu_instruction().unwrap();
    nes.cpu.jump_to_pc(0xC000);
    nes.cpu.s = 0xFD;
    nes.cpu.set_p(0x24);
    nes.ppu.dot = 0;

    // PC, A, X, Y, P with bit 5 set, S, and the cycles so far
    let log: [(u16, u8, u8, u8, u8, u8, usize); 16] = [
        (0xC000, 0x00, 0x00, 0x00, 0x24, 0xFD, 7),
        (0xC5F5, 0x00, 0x00, 0x00, 0x24, 0xFD, 10),
        (0xC5F7, 0x00, 0x00, 0x00, 0x26, 0xFD, 12),
        (0xC5F9, 0x00, 0x00, 0x00, 0x26, 0xFD, 15),
        (0xC5FB, 0x00, 0x00, 0x00, 0x26, 0xFD, 18),
        (0xC5FD, 0x00, 0x00, 0x00, 0x26, 0xFD, 21),
        (0xC72D, 0x00, 0x00, 0x00, 0x26, 0xFB, 27),
        (0xC72E, 0x00, 0x00, 0x00, 0x26, 0xFB, 29),
        (0xC72F, 0x00, 0x00, 0x00, 0x27, 0xFB, 31),
        (0xC735, 0x00, 0x00, 0x00, 0x27, 0xFB, 34),
        (0xC736, 0x00, 0x00, 0x00, 0x27, 0xFB, 36),
        (0xC737, 0x00, 0x00, 0x00, 0x26, 0xFB, 38),
        (0xC739, 0x00, 0x00, 0x00, 0x26, 0xFB, 40),
        (0xC740, 0x00, 0x00, 0x00, 0x26, 0xFB, 43),
        (0xC741, 0x00, 0x00, 0x00, 0x26, 0xFB, 45),
        (0xC742, 0x00, 0x00, 0x00, 0x27, 0xFB, 47),
    ];
    let mut cycles = 7;
    for (pc, a, x, y, p, s, expected_cycles) in log {
        let actual = (nes.cpu.pc, nes.cpu.a, nes.cpu.x, nes.cpu.y, nes.cpu.get_p() | 0x20, nes.cpu.s);
        assert_eq!(actual, (pc, a, x, y, p, s), "at {:04X}", pc);
        assert_eq!(cycles, expected_cycles, "at {:04X}", pc);
        // Three dots to a cycle
        let dots = (cycles - 7) * 3;
        assert_eq!((nes.ppu.scanline as usize, nes.ppu.dot as usize), (dots / 341, dots % 341));
        cycles += nes.step_cpu_instruction().unwrap();
    }
}
