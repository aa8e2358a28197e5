//! The opcode table: the micro-state in which each instruction starts.

use vstd::prelude::*;
use super::ops::{BranchOp, ImpliedOp, Op, ReadOp, ReadWriteOp, SHOp, WriteOp};
use super::state::{Interrupt, S};

verus! {

/// The micro-state that follows the fetch of `opcode`, or `None` for a byte
/// that is no instruction of this processor.
pub open spec fn decode(opcode: u8) -> Option<S> {
    match opcode {
        0x69 => Some(S::ImmediateR(ReadOp::ADC)),
        0x65 => Some(S::ZeroPage(Op::Read(ReadOp::ADC))),
        0x75 => Some(S::ZeroPageX(Op::Read(ReadOp::ADC))),
        0x6D => Some(S::Absolute(Op::Read(ReadOp::ADC))),
        0x7D => Some(S::AbsoluteX(Op::Read(ReadOp::ADC))),
        0x79 => Some(S::AbsoluteY(Op::Read(ReadOp::ADC))),
        0x61 => Some(S::IndexedIndirect(Op::Read(ReadOp::ADC))),
        0x71 => Some(S::IndirectIndexed(Op::Read(ReadOp::ADC))),
        0x29 => Some(S::ImmediateR(ReadOp::AND)),
        0x25 => Some(S::ZeroPage(Op::Read(ReadOp::AND))),
        0x35 => Some(S::ZeroPageX(Op::Read(ReadOp::AND))),
        0x2D => Some(S::Absolute(Op::Read(ReadOp::AND))),
        0x3D => Some(S::AbsoluteX(Op::Read(ReadOp::AND))),
        0x39 => Some(S::AbsoluteY(Op::Read(ReadOp::AND))),
        0x21 => Some(S::IndexedIndirect(Op::Read(ReadOp::AND))),
        0x31 => Some(S::IndirectIndexed(Op::Read(ReadOp::AND))),
        0x0A => Some(S::AccRW(ReadWriteOp::ASL)),
        0x06 => Some(S::ZeroPage(Op::ReadWrite(ReadWriteOp::ASL))),
        0x16 => Some(S::ZeroPageX(Op::ReadWrite(ReadWriteOp::ASL))),
        0x0E => Some(S::Absolute(Op::ReadWrite(ReadWriteOp::ASL))),
        0x1E => Some(S::AbsoluteX(Op::ReadWrite(ReadWriteOp::ASL))),
        0x90 => Some(S::Relative(BranchOp::BCC)),
        0xB0 => Some(S::Relative(BranchOp::BCS)),
        0xF0 => Some(S::Relative(BranchOp::BEQ)),
        0x24 => Some(S::ZeroPage(Op::Read(ReadOp::BIT))),
        0x2C => Some(S::Absolute(Op::Read(ReadOp::BIT))),
        0x30 => Some(S::Relative(BranchOp::BMI)),
        0xD0 => Some(S::Relative(BranchOp::BNE)),
        0x10 => Some(S::Relative(BranchOp::BPL)),
        0x00 => Some(S::Int(Interrupt::BRK)),
        0x50 => Some(S::Relative(BranchOp::BVC)),
        0x70 => Some(S::Relative(BranchOp::BVS)),
        0x18 => Some(S::Implied(ImpliedOp::CLC)),
        0xD8 => Some(S::Implied(ImpliedOp::CLD)),
        0x58 => Some(S::Implied(ImpliedOp::CLI)),
        0xB8 => Some(S::Implied(ImpliedOp::CLV)),
        0xC9 => Some(S::ImmediateR(ReadOp::CMP)),
        0xC5 => Some(S::ZeroPage(Op::Read(ReadOp::CMP))),
        0xD5 => Some(S::ZeroPageX(Op::Read(ReadOp::CMP))),
        0xCD => Some(S::Absolute(Op::Read(ReadOp::CMP))),
        0xDD => Some(S::AbsoluteX(Op::Read(ReadOp::CMP))),
        0xD9 => Some(S::AbsoluteY(Op::Read(ReadOp::CMP))),
        0xC1 => Some(S::IndexedIndirect(Op::Read(ReadOp::CMP))),
        0xD1 => Some(S::IndirectIndexed(Op::Read(ReadOp::CMP))),
        0xE0 => Some(S::ImmediateR(ReadOp::CPX)),
        0xE4 => Some(S::ZeroPage(Op::Read(ReadOp::CPX))),
        0xEC => Some(S::Absolute(Op::Read(ReadOp::CPX))),
        0xC0 => Some(S::ImmediateR(ReadOp::CPY)),
        0xC4 => Some(S::ZeroPage(Op::Read(ReadOp::CPY))),
        0xCC => Some(S::Absolute(Op::Read(ReadOp::CPY))),
        0xC6 => Some(S::ZeroPage(Op::ReadWrite(ReadWriteOp::DEC))),
        0xD6 => Some(S::ZeroPageX(Op::ReadWrite(ReadWriteOp::DEC))),
        0xCE => Some(S::Absolute(Op::ReadWrite(ReadWriteOp::DEC))),
        0xDE => Some(S::AbsoluteX(Op::ReadWrite(ReadWriteOp::DEC))),
        0xCA => Some(S::Implied(ImpliedOp::DEX)),
        0x88 => Some(S::Implied(ImpliedOp::DEY)),
        0x49 => Some(S::ImmediateR(ReadOp::EOR)),
        0x45 => Some(S::ZeroPage(Op::Read(ReadOp::EOR))),
        0x55 => Some(S::ZeroPageX(Op::Read(ReadOp::EOR))),
        0x4D => Some(S::Absolute(Op::Read(ReadOp::EOR))),
        0x5D => Some(S::AbsoluteX(Op::Read(ReadOp::EOR))),
        0x59 => Some(S::AbsoluteY(Op::Read(ReadOp::EOR))),
        0x41 => Some(S::IndexedIndirect(Op::Read(ReadOp::EOR))),
        0x51 => Some(S::IndirectIndexed(Op::Read(ReadOp::EOR))),
        0xE6 => Some(S::ZeroPage(Op::ReadWrite(ReadWriteOp::INC))),
        0xF6 => Some(S::ZeroPageX(Op::ReadWrite(ReadWriteOp::INC))),
        0xEE => Some(S::Absolute(Op::ReadWrite(ReadWriteOp::INC))),
        0xFE => Some(S::AbsoluteX(Op::ReadWrite(ReadWriteOp::INC))),
        0xE8 => Some(S::Implied(ImpliedOp::INX)),
        0xC8 => Some(S::Implied(ImpliedOp::INY)),
        0x4C => Some(S::JMPAbsolute),
        0x6C => Some(S::JMPIndirect),
        0x20 => Some(S::JSR),
        0xA9 => Some(S::ImmediateR(ReadOp::LDA)),
        0xA5 => Some(S::ZeroPage(Op::Read(ReadOp::LDA))),
        0xB5 => Some(S::ZeroPageX(Op::Read(ReadOp::LDA))),
        0xAD => Some(S::Absolute(Op::Read(ReadOp::LDA))),
        0xBD => Some(S::AbsoluteX(Op::Read(ReadOp::LDA))),
        0xB9 => Some(S::AbsoluteY(Op::Read(ReadOp::LDA))),
        0xA1 => Some(S::IndexedIndirect(Op::Read(ReadOp::LDA))),
        0xB1 => Some(S::IndirectIndexed(Op::Read(ReadOp::LDA))),
        0xA2 => Some(S::ImmediateR(ReadOp::LDX)),
        0xA6 => Some(S::ZeroPage(Op::Read(ReadOp::LDX))),
        0xB6 => Some(S::ZeroPageY(Op::Read(ReadOp::LDX))),
        0xAE => Some(S::Absolute(Op::Read(ReadOp::LDX))),
        0xBE => Some(S::AbsoluteY(Op::Read(ReadOp::LDX))),
        0xA0 => Some(S::ImmediateR(ReadOp::LDY)),
        0xA4 => Some(S::ZeroPage(Op::Read(ReadOp::LDY))),
        0xB4 => Some(S::ZeroPageX(Op::Read(ReadOp::LDY))),
        0xAC => Some(S::Absolute(Op::Read(ReadOp::LDY))),
        0xBC => Some(S::AbsoluteX(Op::Read(ReadOp::LDY))),
        0x4A => Some(S::AccRW(ReadWriteOp::LSR)),
        0x46 => Some(S::ZeroPage(Op::ReadWrite(ReadWriteOp::LSR))),
        0x56 => Some(S::ZeroPageX(Op::ReadWrite(ReadWriteOp::LSR))),
        0x4E => Some(S::Absolute(Op::ReadWrite(ReadWriteOp::LSR))),
        0x5E => Some(S::AbsoluteX(Op::ReadWrite(ReadWriteOp::LSR))),
        0xEA => Some(S::Implied(ImpliedOp::NOP)),
        0x09 => Some(S::ImmediateR(ReadOp::ORA)),
        0x05 => Some(S::ZeroPage(Op::Read(ReadOp::ORA))),
        0x15 => Some(S::ZeroPageX(Op::Read(ReadOp::ORA))),
        0x0D => Some(S::Absolute(Op::Read(ReadOp::ORA))),
        0x1D => Some(S::AbsoluteX(Op::Read(ReadOp::ORA))),
        0x19 => Some(S::AbsoluteY(Op::Read(ReadOp::ORA))),
        0x01 => Some(S::IndexedIndirect(Op::Read(ReadOp::ORA))),
        0x11 => Some(S::IndirectIndexed(Op::Read(ReadOp::ORA))),
        0x48 => Some(S::PHA),
        0x08 => Some(S::PHP),
        0x68 => Some(S::PLA),
        0x28 => Some(S::PLP),
        0x2A => Some(S::AccRW(ReadWriteOp::ROL)),
        0x26 => Some(S::ZeroPage(Op::ReadWrite(ReadWriteOp::ROL))),
        0x36 => Some(S::ZeroPageX(Op::ReadWrite(ReadWriteOp::ROL))),
        0x2E => Some(S::Absolute(Op::ReadWrite(ReadWriteOp::ROL))),
        0x3E => Some(S::AbsoluteX(Op::ReadWrite(ReadWriteOp::ROL))),
        0x6A => Some(S::AccRW(ReadWriteOp::ROR)),
        0x66 => Some(S::ZeroPage(Op::ReadWrite(ReadWriteOp::ROR))),
        0x76 => Some(S::ZeroPageX(Op::ReadWrite(ReadWriteOp::ROR))),
        0x6E => Some(S::Absolute(Op::ReadWrite(ReadWriteOp::ROR))),
        0x7E => Some(S::AbsoluteX(Op::ReadWrite(ReadWriteOp::ROR))),
        0x40 => Some(S::RTI),
        0x60 => Some(S::RTS),
        0xE9 => Some(S::ImmediateR(ReadOp::SBC)),
        0xE5 => Some(S::ZeroPage(Op::Read(ReadOp::SBC))),
        0xF5 => Some(S::ZeroPageX(Op::Read(ReadOp::SBC))),
        0xED => Some(S::Absolute(Op::Read(ReadOp::SBC))),
        0xFD => Some(S::AbsoluteX(Op::Read(ReadOp::SBC))),
        0xF9 => Some(S::AbsoluteY(Op::Read(ReadOp::SBC))),
        0xE1 => Some(S::IndexedIndirect(Op::Read(ReadOp::SBC))),
        0xF1 => Some(S::IndirectIndexed(Op::Read(ReadOp::SBC))),
        0x38 => Some(S::Implied(ImpliedOp::SEC)),
        0xF8 => Some(S::Implied(ImpliedOp::SED)),
        0x78 => Some(S::Implied(ImpliedOp::SEI)),
        0x85 => Some(S::ZeroPage(Op::Write(WriteOp::STA))),
        0x95 => Some(S::ZeroPageX(Op::Write(WriteOp::STA))),
        0x8D => Some(S::Absolute(Op::Write(WriteOp::STA))),
        0x9D => Some(S::AbsoluteX(Op::Write(WriteOp::STA))),
        0x99 => Some(S::AbsoluteY(Op::Write(WriteOp::STA))),
        0x81 => Some(S::IndexedIndirect(Op::Write(WriteOp::STA))),
        0x91 => Some(S::IndirectIndexed(Op::Write(WriteOp::STA))),
        0x86 => Some(S::ZeroPage(Op::Write(WriteOp::STX))),
        0x96 => Some(S::ZeroPageY(Op::Write(WriteOp::STX))),
        0x8E => Some(S::Absolute(Op::Write(WriteOp::STX))),
        0x84 => Some(S::ZeroPage(Op::Write(WriteOp::STY))),
        0x94 => Some(S::ZeroPageX(Op::Write(WriteOp::STY))),
        0x8C => Some(S::Absolute(Op::Write(WriteOp::STY))),
        0xAA => Some(S::Implied(ImpliedOp::TAX)),
        0xA8 => Some(S::Implied(ImpliedOp::TAY)),
        0xBA => Some(S::Implied(ImpliedOp::TSX)),
        0x8A => Some(S::Implied(ImpliedOp::TXA)),
        0x9A => Some(S::Implied(ImpliedOp::TXS)),
        0x98 => Some(S::Implied(ImpliedOp::TYA)),
        0x04 | 0x44 | 0x64 => Some(S::ZeroPage(Op::Read(ReadOp::NOP))),
        0x0C => Some(S::Absolute(Op::Read(ReadOp::NOP))),
        0x14 | 0x34 | 0x54 | 0x74 | 0xD4 | 0xF4 => Some(S::ZeroPageX(Op::Read(ReadOp::NOP))),
        0x1A | 0x3A | 0x5A | 0x7A | 0xDA | 0xFA => Some(S::Implied(ImpliedOp::NOP)),
        0x1C | 0x3C | 0x5C | 0x7C | 0xDC | 0xFC => Some(S::AbsoluteX(Op::Read(ReadOp::NOP))),
        0x80 | 0x82 | 0x89 | 0xC2 | 0xE2 => Some(S::ImmediateR(ReadOp::NOP)),
        0xA3 => Some(S::IndexedIndirect(Op::Read(ReadOp::LAX))),
        0xA7 => Some(S::ZeroPage(Op::Read(ReadOp::LAX))),
        0xAB => Some(S::ImmediateR(ReadOp::LAX)),
        0xAF => Some(S::Absolute(Op::Read(ReadOp::LAX))),
        0xB3 => Some(S::IndirectIndexed(Op::Read(ReadOp::LAX))),
        0xB7 => Some(S::ZeroPageY(Op::Read(ReadOp::LAX))),
        0xBF => Some(S::AbsoluteY(Op::Read(ReadOp::LAX))),
        0x83 => Some(S::IndexedIndirect(Op::Write(WriteOp::SAX))),
        0x87 => Some(S::ZeroPage(Op::Write(WriteOp::SAX))),
        0x8F => Some(S::Absolute(Op::Write(WriteOp::SAX))),
        0x97 => Some(S::ZeroPageY(Op::Write(WriteOp::SAX))),
        0xEB => Some(S::ImmediateR(ReadOp::SBC)),
        0xC3 => Some(S::IndexedIndirect(Op::ReadWrite(ReadWriteOp::DCP))),
        0xC7 => Some(S::ZeroPage(Op::ReadWrite(ReadWriteOp::DCP))),
        0xCF => Some(S::Absolute(Op::ReadWrite(ReadWriteOp::DCP))),
        0xD3 => Some(S::IndirectIndexed(Op::ReadWrite(ReadWriteOp::DCP))),
        0xD7 => Some(S::ZeroPageX(Op::ReadWrite(ReadWriteOp::DCP))),
        0xDB => Some(S::AbsoluteY(Op::ReadWrite(ReadWriteOp::DCP))),
        0xDF => Some(S::AbsoluteX(Op::ReadWrite(ReadWriteOp::DCP))),
        0xE3 => Some(S::IndexedIndirect(Op::ReadWrite(ReadWriteOp::ISC))),
        0xE7 => Some(S::ZeroPage(Op::ReadWrite(ReadWriteOp::ISC))),
        0xEF => Some(S::Absolute(Op::ReadWrite(ReadWriteOp::ISC))),
        0xF3 => Some(S::IndirectIndexed(Op::ReadWrite(ReadWriteOp::ISC))),
        0xF7 => Some(S::ZeroPageX(Op::ReadWrite(ReadWriteOp::ISC))),
        0xFB => Some(S::AbsoluteY(Op::ReadWrite(ReadWriteOp::ISC))),
        0xFF => Some(S::AbsoluteX(Op::ReadWrite(ReadWriteOp::ISC))),
        0x03 => Some(S::IndexedIndirect(Op::ReadWrite(ReadWriteOp::SLO))),
        0x07 => Some(S::ZeroPage(Op::ReadWrite(ReadWriteOp::SLO))),
        0x0F => Some(S::Absolute(Op::ReadWrite(ReadWriteOp::SLO))),
        0x13 => Some(S::IndirectIndexed(Op::ReadWrite(ReadWriteOp::SLO))),
        0x17 => Some(S::ZeroPageX(Op::ReadWrite(ReadWriteOp::SLO))),
        0x1B => Some(S::AbsoluteY(Op::ReadWrite(ReadWriteOp::SLO))),
        0x1F => Some(S::AbsoluteX(Op::ReadWrite(ReadWriteOp::SLO))),
        0x23 => Some(S::IndexedIndirect(Op::ReadWrite(ReadWriteOp::RLA))),
        0x27 => Some(S::ZeroPage(Op::ReadWrite(ReadWriteOp::RLA))),
        0x2F => Some(S::Absolute(Op::ReadWrite(ReadWriteOp::RLA))),
        0x33 => Some(S::IndirectIndexed(Op::ReadWrite(ReadWriteOp::RLA))),
        0x37 => Some(S::ZeroPageX(Op::ReadWrite(ReadWriteOp::RLA))),
        0x3B => Some(S::AbsoluteY(Op::ReadWrite(ReadWriteOp::RLA))),
        0x3F => Some(S::AbsoluteX(Op::ReadWrite(ReadWriteOp::RLA))),
        0x43 => Some(S::IndexedIndirect(Op::ReadWrite(ReadWriteOp::SRE))),
        0x47 => Some(S::ZeroPage(Op::ReadWrite(ReadWriteOp::SRE))),
        0x4F => Some(S::Absolute(Op::ReadWrite(ReadWriteOp::SRE))),
        0x53 => Some(S::IndirectIndexed(Op::ReadWrite(ReadWriteOp::SRE))),
        0x57 => Some(S::ZeroPageX(Op::ReadWrite(ReadWriteOp::SRE))),
        0x5B => Some(S::AbsoluteY(Op::ReadWrite(ReadWriteOp::SRE))),
        0x5F => Some(S::AbsoluteX(Op::ReadWrite(ReadWriteOp::SRE))),
        0x63 => Some(S::IndexedIndirect(Op::ReadWrite(ReadWriteOp::RRA))),
        0x67 => Some(S::ZeroPage(Op::ReadWrite(ReadWriteOp::RRA))),
        0x6F => Some(S::Absolute(Op::ReadWrite(ReadWriteOp::RRA))),
        0x73 => Some(S::IndirectIndexed(Op::ReadWrite(ReadWriteOp::RRA))),
        0x77 => Some(S::ZeroPageX(Op::ReadWrite(ReadWriteOp::RRA))),
        0x7B => Some(S::AbsoluteY(Op::ReadWrite(ReadWriteOp::RRA))),
        0x7F => Some(S::AbsoluteX(Op::ReadWrite(ReadWriteOp::RRA))),
        0x0B => Some(S::ImmediateR(ReadOp::ANC)),
        0x2B => Some(S::ImmediateR(ReadOp::ANC)),
        0x4B => Some(S::ImmediateR(ReadOp::ALR)),
        0x6B => Some(S::ImmediateR(ReadOp::ARR)),
        0xCB => Some(S::ImmediateR(ReadOp::AXS)),
        0x9C => Some(S::AbsoluteX(Op::SH(SHOp::SHY))),
        0x9E => Some(S::AbsoluteY(Op::SH(SHOp::SHX))),
        _ => None,
    }
}

/// The state that follows the fetch of `opcode`, or nothing for an opcode
/// that halts the processor.
pub fn decode_opcode(opcode: u8) -> (first: Option<S>)
    ensures
        first == decode(opcode),
{
    match opcode {
        0x69 => Some(S::ImmediateR(ReadOp::ADC)),
        0x65 => Some(S::ZeroPage(Op::Read(ReadOp::ADC))),
        0x75 => Some(S::ZeroPageX(Op::Read(ReadOp::ADC))),
        0x6D => Some(S::Absolute(Op::Read(ReadOp::ADC))),
        0x7D => Some(S::AbsoluteX(Op::Read(ReadOp::ADC))),
        0x79 => Some(S::AbsoluteY(Op::Read(ReadOp::ADC))),
        0x61 => Some(S::IndexedIndirect(Op::Read(ReadOp::ADC))),
        0x71 => Some(S::IndirectIndexed(Op::Read(ReadOp::ADC))),
        0x29 => Some(S::ImmediateR(ReadOp::AND)),
        0x25 => Some(S::ZeroPage(Op::Read(ReadOp::AND))),
        0x35 => Some(S::ZeroPageX(Op::Read(ReadOp::AND))),
        0x2D => Some(S::Absolute(Op::Read(ReadOp::AND))),
        0x3D => Some(S::AbsoluteX(Op::Read(ReadOp::AND))),
        0x39 => Some(S::AbsoluteY(Op::Read(ReadOp::AND))),
        0x21 => Some(S::IndexedIndirect(Op::Read(ReadOp::AND))),
        0x31 => Some(S::IndirectIndexed(Op::Read(ReadOp::AND))),
        0x0A => Some(S::AccRW(ReadWriteOp::ASL)),
        0x06 => Some(S::ZeroPage(Op::ReadWrite(ReadWriteOp::ASL))),
        0x16 => Some(S::ZeroPageX(Op::ReadWrite(ReadWriteOp::ASL))),
        0x0E => Some(S::Absolute(Op::ReadWrite(ReadWriteOp::ASL))),
        0x1E => Some(S::AbsoluteX(Op::ReadWrite(ReadWriteOp::ASL))),
        0x90 => Some(S::Relative(BranchOp::BCC)),
        0xB0 => Some(S::Relative(BranchOp::BCS)),
        0xF0 => Some(S::Relative(BranchOp::BEQ)),
        0x24 => Some(S::ZeroPage(Op::Read(ReadOp::BIT))),
        0x2C => Some(S::Absolute(Op::Read(ReadOp::BIT))),
        0x30 => Some(S::Relative(BranchOp::BMI)),
        0xD0 => Some(S::Relative(BranchOp::BNE)),
        0x10 => Some(S::Relative(BranchOp::BPL)),
        0x00 => Some(S::Int(Interrupt::BRK)),
        0x50 => Some(S::Relative(BranchOp::BVC)),
        0x70 => Some(S::Relative(BranchOp::BVS)),
        0x18 => Some(S::Implied(ImpliedOp::CLC)),
        0xD8 => Some(S::Implied(ImpliedOp::CLD)),
        0x58 => Some(S::Implied(ImpliedOp::CLI)),
        0xB8 => Some(S::Implied(ImpliedOp::CLV)),
        0xC9 => Some(S::ImmediateR(ReadOp::CMP)),
        0xC5 => Some(S::ZeroPage(Op::Read(ReadOp::CMP))),
        0xD5 => Some(S::ZeroPageX(Op::Read(ReadOp::CMP))),
        0xCD => Some(S::Absolute(Op::Read(ReadOp::CMP))),
        0xDD => Some(S::AbsoluteX(Op::Read(ReadOp::CMP))),
        0xD9 => Some(S::AbsoluteY(Op::Read(ReadOp::CMP))),
        0xC1 => Some(S::IndexedIndirect(Op::Read(ReadOp::CMP))),
        0xD1 => Some(S::IndirectIndexed(Op::Read(ReadOp::CMP))),
        0xE0 => Some(S::ImmediateR(ReadOp::CPX)),
        0xE4 => Some(S::ZeroPage(Op::Read(ReadOp::CPX))),
        0xEC => Some(S::Absolute(Op::Read(ReadOp::CPX))),
        0xC0 => Some(S::ImmediateR(ReadOp::CPY)),
        0xC4 => Some(S::ZeroPage(Op::Read(ReadOp::CPY))),
        0xCC => Some(S::Absolute(Op::Read(ReadOp::CPY))),
        0xC6 => Some(S::ZeroPage(Op::ReadWrite(ReadWriteOp::DEC))),
        0xD6 => Some(S::ZeroPageX(Op::ReadWrite(ReadWriteOp::DEC))),
        0xCE => Some(S::Absolute(Op::ReadWrite(ReadWriteOp::DEC))),
        0xDE => Some(S::AbsoluteX(Op::ReadWrite(ReadWriteOp::DEC))),
        0xCA => Some(S::Implied(ImpliedOp::DEX)),
        0x88 => Some(S::Implied(ImpliedOp::DEY)),
        0x49 => Some(S::ImmediateR(ReadOp::EOR)),
        0x45 => Some(S::ZeroPage(Op::Read(ReadOp::EOR))),
        0x55 => Some(S::ZeroPageX(Op::Read(ReadOp::EOR))),
        0x4D => Some(S::Absolute(Op::Read(ReadOp::EOR))),
        0x5D => Some(S::AbsoluteX(Op::Read(ReadOp::EOR))),
        0x59 => Some(S::AbsoluteY(Op::Read(ReadOp::EOR))),
        0x41 => Some(S::IndexedIndirect(Op::Read(ReadOp::EOR))),
        0x51 => Some(S::IndirectIndexed(Op::Read(ReadOp::EOR))),
        0xE6 => Some(S::ZeroPage(Op::ReadWrite(ReadWriteOp::INC))),
        0xF6 => Some(S::ZeroPageX(Op::ReadWrite(ReadWriteOp::INC))),
        0xEE => Some(S::Absolute(Op::ReadWrite(ReadWriteOp::INC))),
        0xFE => Some(S::AbsoluteX(Op::ReadWrite(ReadWriteOp::INC))),
        0xE8 => Some(S::Implied(ImpliedOp::INX)),
        0xC8 => Some(S::Implied(ImpliedOp::INY)),
        0x4C => Some(S::JMPAbsolute),
        0x6C => Some(S::JMPIndirect),
        0x20 => Some(S::JSR),
        0xA9 => Some(S::ImmediateR(ReadOp::LDA)),
        0xA5 => Some(S::ZeroPage(Op::Read(ReadOp::LDA))),
        0xB5 => Some(S::ZeroPageX(Op::Read(ReadOp::LDA))),
        0xAD => Some(S::Absolute(Op::Read(ReadOp::LDA))),
        0xBD => Some(S::AbsoluteX(Op::Read(ReadOp::LDA))),
        0xB9 => Some(S::AbsoluteY(Op::Read(ReadOp::LDA))),
        0xA1 => Some(S::IndexedIndirect(Op::Read(ReadOp::LDA))),
        0xB1 => Some(S::IndirectIndexed(Op::Read(ReadOp::LDA))),
        0xA2 => Some(S::ImmediateR(ReadOp::LDX)),
        0xA6 => Some(S::ZeroPage(Op::Read(ReadOp::LDX))),
        0xB6 => Some(S::ZeroPageY(Op::Read(ReadOp::LDX))),
        0xAE => Some(S::Absolute(Op::Read(ReadOp::LDX))),
        0xBE => Some(S::AbsoluteY(Op::Read(ReadOp::LDX))),
        0xA0 => Some(S::ImmediateR(ReadOp::LDY)),
        0xA4 => Some(S::ZeroPage(Op::Read(ReadOp::LDY))),
        0xB4 => Some(S::ZeroPageX(Op::Read(ReadOp::LDY))),
        0xAC => Some(S::Absolute(Op::Read(ReadOp::LDY))),
        0xBC => Some(S::AbsoluteX(Op::Read(ReadOp::LDY))),
        0x4A => Some(S::AccRW(ReadWriteOp::LSR)),
        0x46 => Some(S::ZeroPage(Op::ReadWrite(ReadWriteOp::LSR))),
        0x56 => Some(S::ZeroPageX(Op::ReadWrite(ReadWriteOp::LSR))),
        0x4E => Some(S::Absolute(Op::ReadWrite(ReadWriteOp::LSR))),
        0x5E => Some(S::AbsoluteX(Op::ReadWrite(ReadWriteOp::LSR))),
        0xEA => Some(S::Implied(ImpliedOp::NOP)),
        0x09 => Some(S::ImmediateR(ReadOp::ORA)),
        0x05 => Some(S::ZeroPage(Op::Read(ReadOp::ORA))),
        0x15 => Some(S::ZeroPageX(Op::Read(ReadOp::ORA))),
        0x0D => Some(S::Absolute(Op::Read(ReadOp::ORA))),
        0x1D => Some(S::AbsoluteX(Op::Read(ReadOp::ORA))),
        0x19 => Some(S::AbsoluteY(Op::Read(ReadOp::ORA))),
        0x01 => Some(S::IndexedIndirect(Op::Read(ReadOp::ORA))),
        0x11 => Some(S::IndirectIndexed(Op::Read(ReadOp::ORA))),
        0x48 => Some(S::PHA),
        0x08 => Some(S::PHP),
        0x68 => Some(S::PLA),
        0x28 => Some(S::PLP),
        0x2A => Some(S::AccRW(ReadWriteOp::ROL)),
        0x26 => Some(S::ZeroPage(Op::ReadWrite(ReadWriteOp::ROL))),
        0x36 => Some(S::ZeroPageX(Op::ReadWrite(ReadWriteOp::ROL))),
        0x2E => Some(S::Absolute(Op::ReadWrite(ReadWriteOp::ROL))),
        0x3E => Some(S::AbsoluteX(Op::ReadWrite(ReadWriteOp::ROL))),
        0x6A => Some(S::AccRW(ReadWriteOp::ROR)),
        0x66 => Some(S::ZeroPage(Op::ReadWrite(ReadWriteOp::ROR))),
        0x76 => Some(S::ZeroPageX(Op::ReadWrite(ReadWriteOp::ROR))),
        0x6E => Some(S::Absolute(Op::ReadWrite(ReadWriteOp::ROR))),
        0x7E => Some(S::AbsoluteX(Op::ReadWrite(ReadWriteOp::ROR))),
        0x40 => Some(S::RTI),
        0x60 => Some(S::RTS),
        0xE9 => Some(S::ImmediateR(ReadOp::SBC)),
        0xE5 => Some(S::ZeroPage(Op::Read(ReadOp::SBC))),
        0xF5 => Some(S::ZeroPageX(Op::Read(ReadOp::SBC))),
        0xED => Some(S::Absolute(Op::Read(ReadOp::SBC))),
        0xFD => Some(S::AbsoluteX(Op::Read(ReadOp::SBC))),
        0xF9 => Some(S::AbsoluteY(Op::Read(ReadOp::SBC))),
        0xE1 => Some(S::IndexedIndirect(Op::Read(ReadOp::SBC))),
        0xF1 => Some(S::IndirectIndexed(Op::Read(ReadOp::SBC))),
        0x38 => Some(S::Implied(ImpliedOp::SEC)),
        0xF8 => Some(S::Implied(ImpliedOp::SED)),
        0x78 => Some(S::Implied(ImpliedOp::SEI)),
        0x85 => Some(S::ZeroPage(Op::Write(WriteOp::STA))),
        0x95 => Some(S::ZeroPageX(Op::Write(WriteOp::STA))),
        0x8D => Some(S::Absolute(Op::Write(WriteOp::STA))),
        0x9D => Some(S::AbsoluteX(Op::Write(WriteOp::STA))),
        0x99 => Some(S::AbsoluteY(Op::Write(WriteOp::STA))),
        0x81 => Some(S::IndexedIndirect(Op::Write(WriteOp::STA))),
        0x91 => Some(S::IndirectIndexed(Op::Write(WriteOp::STA))),
        0x86 => Some(S::ZeroPage(Op::Write(WriteOp::STX))),
        0x96 => Some(S::ZeroPageY(Op::Write(WriteOp::STX))),
        0x8E => Some(S::Absolute(Op::Write(WriteOp::STX))),
        0x84 => Some(S::ZeroPage(Op::Write(WriteOp::STY))),
        0x94 => Some(S::ZeroPageX(Op::Write(WriteOp::STY))),
        0x8C => Some(S::Absolute(Op::Write(WriteOp::STY))),
        0xAA => Some(S::Implied(ImpliedOp::TAX)),
        0xA8 => Some(S::Implied(ImpliedOp::TAY)),
        0xBA => Some(S::Implied(ImpliedOp::TSX)),
        0x8A => Some(S::Implied(ImpliedOp::TXA)),
        0x9A => Some(S::Implied(ImpliedOp::TXS)),
        0x98 => Some(S::Implied(ImpliedOp::TYA)),
        0x04 | 0x44 | 0x64 => Some(S::ZeroPage(Op::Read(ReadOp::NOP))),
        0x0C => Some(S::Absolute(Op::Read(ReadOp::NOP))),
        0x14 | 0x34 | 0x54 | 0x74 | 0xD4 | 0xF4 => Some(S::ZeroPageX(Op::Read(ReadOp::NOP))),
        0x1A | 0x3A | 0x5A | 0x7A | 0xDA | 0xFA => Some(S::Implied(ImpliedOp::NOP)),
        0x1C | 0x3C | 0x5C | 0x7C | 0xDC | 0xFC => Some(S::AbsoluteX(Op::Read(ReadOp::NOP))),
        0x80 | 0x82 | 0x89 | 0xC2 | 0xE2 => Some(S::ImmediateR(ReadOp::NOP)),
        0xA3 => Some(S::IndexedIndirect(Op::Read(ReadOp::LAX))),
        0xA7 => Some(S::ZeroPage(Op::Read(ReadOp::LAX))),
        0xAB => Some(S::ImmediateR(ReadOp::LAX)),
        0xAF => Some(S::Absolute(Op::Read(ReadOp::LAX))),
        0xB3 => Some(S::IndirectIndexed(Op::Read(ReadOp::LAX))),
        0xB7 => Some(S::ZeroPageY(Op::Read(ReadOp::LAX))),
        0xBF => Some(S::AbsoluteY(Op::Read(ReadOp::LAX))),
        0x83 => Some(S::IndexedIndirect(Op::Write(WriteOp::SAX))),
        0x87 => Some(S::ZeroPage(Op::Write(WriteOp::SAX))),
        0x8F => Some(S::Absolute(Op::Write(WriteOp::SAX))),
        0x97 => Some(S::ZeroPageY(Op::Write(WriteOp::SAX))),
        0xEB => Some(S::ImmediateR(ReadOp::SBC)),
        0xC3 => Some(S::IndexedIndirect(Op::ReadWrite(ReadWriteOp::DCP))),
        0xC7 => Some(S::ZeroPage(Op::ReadWrite(ReadWriteOp::DCP))),
        0xCF => Some(S::Absolute(Op::ReadWrite(ReadWriteOp::DCP))),
        0xD3 => Some(S::IndirectIndexed(Op::ReadWrite(ReadWriteOp::DCP))),
        0xD7 => Some(S::ZeroPageX(Op::ReadWrite(ReadWriteOp::DCP))),
        0xDB => Some(S::AbsoluteY(Op::ReadWrite(ReadWriteOp::DCP))),
        0xDF => Some(S::AbsoluteX(Op::ReadWrite(ReadWriteOp::DCP))),
        0xE3 => Some(S::IndexedIndirect(Op::ReadWrite(ReadWriteOp::ISC))),
        0xE7 => Some(S::ZeroPage(Op::ReadWrite(ReadWriteOp::ISC))),
        0xEF => Some(S::Absolute(Op::ReadWrite(ReadWriteOp::ISC))),
        0xF3 => Some(S::IndirectIndexed(Op::ReadWrite(ReadWriteOp::ISC))),
        0xF7 => Some(S::ZeroPageX(Op::ReadWrite(ReadWriteOp::ISC))),
        0xFB => Some(S::AbsoluteY(Op::ReadWrite(ReadWriteOp::ISC))),
        0xFF => Some(S::AbsoluteX(Op::ReadWrite(ReadWriteOp::ISC))),
        0x03 => Some(S::IndexedIndirect(Op::ReadWrite(ReadWriteOp::SLO))),
        0x07 => Some(S::ZeroPage(Op::ReadWrite(ReadWriteOp::SLO))),
        0x0F => Some(S::Absolute(Op::ReadWrite(ReadWriteOp::SLO))),
        0x13 => Some(S::IndirectIndexed(Op::ReadWrite(ReadWriteOp::SLO))),
        0x17 => Some(S::ZeroPageX(Op::ReadWrite(ReadWriteOp::SLO))),
        0x1B => Some(S::AbsoluteY(Op::ReadWrite(ReadWriteOp::SLO))),
        0x1F => Some(S::AbsoluteX(Op::ReadWrite(ReadWriteOp::SLO))),
        0x23 => Some(S::IndexedIndirect(Op::ReadWrite(ReadWriteOp::RLA))),
        0x27 => Some(S::ZeroPage(Op::ReadWrite(ReadWriteOp::RLA))),
        0x2F => Some(S::Absolute(Op::ReadWrite(ReadWriteOp::RLA))),
        0x33 => Some(S::IndirectIndexed(Op::ReadWrite(ReadWriteOp::RLA))),
        0x37 => Some(S::ZeroPageX(Op::ReadWrite(ReadWriteOp::RLA))),
        0x3B => Some(S::AbsoluteY(Op::ReadWrite(ReadWriteOp::RLA))),
        0x3F => Some(S::AbsoluteX(Op::ReadWrite(ReadWriteOp::RLA))),
        0x43 => Some(S::IndexedIndirect(Op::ReadWrite(ReadWriteOp::SRE))),
        0x47 => Some(S::ZeroPage(Op::ReadWrite(ReadWriteOp::SRE))),
        0x4F => Some(S::Absolute(Op::ReadWrite(ReadWriteOp::SRE))),
        0x53 => Some(S::IndirectIndexed(Op::ReadWrite(ReadWriteOp::SRE))),
        0x57 => Some(S::ZeroPageX(Op::ReadWrite(ReadWriteOp::SRE))),
        0x5B => Some(S::AbsoluteY(Op::ReadWrite(ReadWriteOp::SRE))),
        0x5F => Some(S::AbsoluteX(Op::ReadWrite(ReadWriteOp::SRE))),
        0x63 => Some(S::IndexedIndirect(Op::ReadWrite(ReadWriteOp::RRA))),
        0x67 => Some(S::ZeroPage(Op::ReadWrite(ReadWriteOp::RRA))),
        0x6F => Some(S::Absolute(Op::ReadWrite(ReadWriteOp::RRA))),
        0x73 => Some(S::IndirectIndexed(Op::ReadWrite(ReadWriteOp::RRA))),
        0x77 => Some(S::ZeroPageX(Op::ReadWrite(ReadWriteOp::RRA))),
        0x7B => Some(S::AbsoluteY(Op::ReadWrite(ReadWriteOp::RRA))),
        0x7F => Some(S::AbsoluteX(Op::ReadWrite(ReadWriteOp::RRA))),
        0x0B => Some(S::ImmediateR(ReadOp::ANC)),
        0x2B => Some(S::ImmediateR(ReadOp::ANC)),
        0x4B => Some(S::ImmediateR(ReadOp::ALR)),
        0x6B => Some(S::ImmediateR(ReadOp::ARR)),
        0xCB => Some(S::ImmediateR(ReadOp::AXS)),
        0x9C => Some(S::AbsoluteX(Op::SH(SHOp::SHY))),
        0x9E => Some(S::AbsoluteY(Op::SH(SHOp::SHX))),
        _ => None,
    }
}

/// No instruction starts in the opcode fetch itself, and none needs more than
/// seven cycles after it.
pub proof fn lemma_decode_bound(opcode: u8)
    ensures
        decode(opcode) matches Some(s) ==> s != S::FetchOpcode && s.remaining() <= 7,
{
}

/// The micro-state in which an operation starts under the addressing mode
/// that bits 2 to 4 of an opcode select in the regular part of the opcode
/// table: `(zp,X)`, `zp`, immediate, `abs`, `(zp),Y`, `zp,X`, `abs,Y`,
/// `abs,X`. Only an operation that reads has an immediate mode.
pub open spec fn addressed(mode: int, op: Op) -> S {
    if mode == 0 {
        S::IndexedIndirect(op)
    } else if mode == 1 {
        S::ZeroPage(op)
    } else if mode == 2 {
        match op {
            Op::Read(ro) => S::ImmediateR(ro),
            _ => S::FetchOpcode,
        }
    } else if mode == 3 {
        S::Absolute(op)
    } else if mode == 4 {
        S::IndirectIndexed(op)
    } else if mode == 5 {
        S::ZeroPageX(op)
    } else if mode == 6 {
        S::AbsoluteY(op)
    } else {
        S::AbsoluteX(op)
    }
}

/// The operation that bits 5 to 7 of an opcode select among the opcodes
/// that end in the bits 01: the arithmetic and logic on the accumulator.
pub open spec fn accumulator_operation(row: int) -> Op {
    if row == 0 {
        Op::Read(ReadOp::ORA)
    } else if row == 1 {
        Op::Read(ReadOp::AND)
    } else if row == 2 {
        Op::Read(ReadOp::EOR)
    } else if row == 3 {
        Op::Read(ReadOp::ADC)
    } else if row == 4 {
        Op::Write(WriteOp::STA)
    } else if row == 5 {
        Op::Read(ReadOp::LDA)
    } else if row == 6 {
        Op::Read(ReadOp::CMP)
    } else {
        Op::Read(ReadOp::SBC)
    }
}

/// The operation that bits 5 to 7 of an opcode select among the opcodes
/// that end in the bits 10, and the undocumented one among those that end
/// in 11, for the rows that hold a read-modify-write operation: rows 4 and 5
/// hold the stores and loads of X.
pub open spec fn shift_operation(row: int, undocumented: bool) -> ReadWriteOp {
    if row == 0 {
        if undocumented {
            ReadWriteOp::SLO
        } else {
            ReadWriteOp::ASL
        }
    } else if row == 1 {
        if undocumented {
            ReadWriteOp::RLA
        } else {
            ReadWriteOp::ROL
        }
    } else if row == 2 {
        if undocumented {
            ReadWriteOp::SRE
        } else {
            ReadWriteOp::LSR
        }
    } else if row == 3 {
        if undocumented {
            ReadWriteOp::RRA
        } else {
            ReadWriteOp::ROR
        }
    } else if row == 6 {
        if undocumented {
            ReadWriteOp::DCP
        } else {
            ReadWriteOp::DEC
        }
    } else {
        if undocumented {
            ReadWriteOp::ISC
        } else {
            ReadWriteOp::INC
        }
    }
}

/// The opcodes that end in the bits 01 are the arithmetic and logic on the
/// accumulator, one operation to a row of the table and one addressing mode
/// to a column; only a store of an immediate does not exist.
pub proof fn lemma_accumulator_group(opcode: u8)
    requires
        opcode % 4 == 1,
        opcode != 0x89,
    ensures
        decode(opcode) == Some(
            addressed(((opcode / 4) % 8) as int, accumulator_operation((opcode / 32) as int)),
        ),
{
}

/// The opcodes that end in the bits 10 hold the shifts, the rotates, the
/// decrement and the increment in their columns for `zp`, `abs`, `zp,X` and
/// `abs,X`, and for the first four of them the accumulator's in the column
/// between.
pub proof fn lemma_shift_group(opcode: u8)
    requires
        opcode % 4 == 2,
        (opcode / 4) % 2 == 1,
        opcode / 32 != 4 && opcode / 32 != 5,
    ensures
        decode(opcode) == Some(
            addressed(
                ((opcode / 4) % 8) as int,
                Op::ReadWrite(shift_operation((opcode / 32) as int, false)),
            ),
        ),
        opcode / 32 < 4 ==> decode((opcode - opcode % 32 + 10) as u8) == Some(
            S::AccRW(shift_operation((opcode / 32) as int, false)),
        ),
{
}

/// The opcodes that end in the bits 11 hold, in the rows of the shifts, the
/// undocumented operations that shift memory and then combine it with the
/// accumulator, under every addressing mode but the immediate one.
pub proof fn lemma_undocumented_shift_group(opcode: u8)
    requires
        opcode % 4 == 3,
        (opcode / 4) % 8 != 2,
        opcode / 32 != 4 && opcode / 32 != 5,
    ensures
        decode(opcode) == Some(
            addressed(
                ((opcode / 4) % 8) as int,
                Op::ReadWrite(shift_operation((opcode / 32) as int, true)),
            ),
        ),
{
}

} // verus!
