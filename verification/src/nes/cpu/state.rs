//! The micro-states of the CPU: one for each cycle of each addressing mode
//! and of each instruction with a timing of its own.

use vstd::prelude::*;
use super::ops::{BranchOp, ImpliedOp, Op, ReadOp, ReadWriteOp};

verus! {

/// The four sources of the seven-cycle interrupt sequence.
#[derive(Debug, Clone, Copy, PartialEq, Eq, Structural)]
pub enum Interrupt {
    BRK,
    NMI,
    IRQ,
    Reset,
}

/// Where the CPU stands inside the current instruction.
#[derive(Debug, Clone, Copy, PartialEq, Eq, Structural)]
pub struct State(pub S);

/// The micro-states: the opcode fetch, and every later cycle of every
/// addressing mode with the scalars that the cycle needs.
#[derive(Debug, Clone, Copy, PartialEq, Eq, Structural)]
pub enum S {
    // Core
    FetchOpcode,
    // Generic R/RMW/W
    ZeroPage(Op),
    ZeroPageX(Op),
    ZeroPageY(Op),
    AbsoluteX(Op),
    AbsoluteY(Op),
    Absolute(Op),
    IndexedIndirect(Op),
    IndexedIndirect2(Op, u8),
    IndexedIndirect3(Op, u8),
    IndirectIndexed(Op),
    IndirectIndexed2(Op, u8),
    // Steps shared by the generic modes
    AddLowHigh(Op, u16, u16),
    AddLowHighNoPen(Op, u16, u8),
    FakeThenActual(Op, u16, u16),
    ExecuteOnAddress(Op, u16, u8),
    WriteBackThenWrite(u16, u8, u8),
    Write(u16, u8),
    // Read only
    ImmediateR(ReadOp),
    // Read-modify-write on the accumulator
    AccRW(ReadWriteOp),
    // Relative (branches)
    Relative(BranchOp),
    Relative2(u8),
    Relative3(u16),
    // Implied
    Implied(ImpliedOp),
    // Instructions with a timing of their own
    Reset,
    Int(Interrupt),
    Int2(Interrupt),
    Int3(Interrupt),
    Int4(Interrupt, bool),
    Int5(Interrupt),
    Int6(Interrupt, u8),
    RTI,
    RTI2,
    RTI3,
    RTI4,
    RTI5(u8),
    RTS,
    RTS2,
    RTS3,
    RTS4(u8),
    RTS5,
    PHA,
    PHP,
    PHPA(u8),
    PLA,
    PLA2,
    PLA3,
    PLP,
    PLP2,
    PLP3,
    JSR,
    JSR2(u8),
    JSR3(u8),
    JSR4(u8),
    JSR5(u8),
    JMPAbsolute,
    JMPAbsolute2(u8),
    JMPIndirect,
    JMPIndirect2(u8),
    JMPIndirect3(u16),
    JMPIndirect4(u16, u8),
}

impl Interrupt {
    /// The address of the low byte of the vector that the sequence loads.
    pub open spec fn vector(self) -> u16 {
        match self {
            Interrupt::BRK => 0xFFFE,
            Interrupt::NMI => 0xFFFA,
            Interrupt::IRQ => 0xFFFE,
            Interrupt::Reset => 0xFFFC,
        }
    }

    /// Where the low byte of the interrupt's vector stands.
    pub fn vector_address(&self) -> (addr: u16)
        ensures
            addr == self.vector(),
    {
        match self {
            Interrupt::BRK => 0xFFFE,
            Interrupt::NMI => 0xFFFA,
            Interrupt::IRQ => 0xFFFE,
            Interrupt::Reset => 0xFFFC,
        }
    }
}

impl Op {
    /// The number of cycles an operation spends on its operand once the
    /// address is known: one, or three for a read-modify-write.
    pub open spec fn operand_cycles(self) -> nat {
        match self {
            Op::ReadWrite(_) => 3,
            _ => 1,
        }
    }
}

impl S {
    /// An upper bound on the number of cycles after which the CPU is back at
    /// an opcode fetch.
    pub open spec fn remaining(self) -> nat {
        match self {
            S::FetchOpcode => 0,
            S::ZeroPage(op) => 1 + op.operand_cycles(),
            S::ZeroPageX(op) => 2 + op.operand_cycles(),
            S::ZeroPageY(op) => 2 + op.operand_cycles(),
            S::AbsoluteX(op) => 3 + op.operand_cycles(),
            S::AbsoluteY(op) => 3 + op.operand_cycles(),
            S::Absolute(op) => 2 + op.operand_cycles(),
            S::IndexedIndirect(op) => 4 + op.operand_cycles(),
            S::IndexedIndirect2(op, _) => 3 + op.operand_cycles(),
            S::IndexedIndirect3(op, _) => 2 + op.operand_cycles(),
            S::IndirectIndexed(op) => 4 + op.operand_cycles(),
            S::IndirectIndexed2(op, _) => 3 + op.operand_cycles(),
            S::AddLowHigh(op, _, _) => 2 + op.operand_cycles(),
            S::AddLowHighNoPen(op, _, _) => 1 + op.operand_cycles(),
            S::FakeThenActual(op, _, _) => 1 + op.operand_cycles(),
            S::ExecuteOnAddress(op, _, _) => op.operand_cycles(),
            S::WriteBackThenWrite(_, _, _) => 2,
            S::Write(_, _) => 1,
            S::ImmediateR(_) => 1,
            S::AccRW(_) => 1,
            S::Relative(_) => 3,
            S::Relative2(_) => 2,
            S::Relative3(_) => 1,
            S::Implied(_) => 1,
            S::Reset => 7,
            S::Int(_) => 6,
            S::Int2(_) => 5,
            S::Int3(_) => 4,
            S::Int4(_, _) => 3,
            S::Int5(_) => 2,
            S::Int6(_, _) => 1,
            S::RTI => 5,
            S::RTI2 => 4,
            S::RTI3 => 3,
            S::RTI4 => 2,
            S::RTI5(_) => 1,
            S::RTS => 5,
            S::RTS2 => 4,
            S::RTS3 => 3,
            S::RTS4(_) => 2,
            S::RTS5 => 1,
            S::PHA => 2,
            S::PHP => 2,
            S::PHPA(_) => 1,
            S::PLA => 3,
            S::PLA2 => 2,
            S::PLA3 => 1,
            S::PLP => 3,
            S::PLP2 => 2,
            S::PLP3 => 1,
            S::JSR => 5,
            S::JSR2(_) => 4,
            S::JSR3(_) => 3,
            S::JSR4(_) => 2,
            S::JSR5(_) => 1,
            S::JMPAbsolute => 2,
            S::JMPAbsolute2(_) => 1,
            S::JMPIndirect => 4,
            S::JMPIndirect2(_) => 3,
            S::JMPIndirect3(_) => 2,
            S::JMPIndirect4(_, _) => 1,
        }
    }
}

impl Default for S {
    fn default() -> (s: S)
        ensures
            s == S::FetchOpcode,
    {
        S::FetchOpcode
    }
}

impl Default for State {
    fn default() -> (s: State)
        ensures
            s == State(S::FetchOpcode),
    {
        State(S::FetchOpcode)
    }
}

} // verus!
