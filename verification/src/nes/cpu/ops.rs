//! The operations of the instruction set, grouped by how they use the bus,
//! and what each does to the registers.

use vstd::prelude::*;
use super::flags::{Flag, Flags};
use super::CPU;

verus! {

/// Operations that read one operand.
#[derive(Debug, Clone, Copy, PartialEq, Eq, Structural)]
pub enum ReadOp {
    ADC,
    AND,
    BIT,
    CMP,
    CPX,
    CPY,
    EOR,
    LDA,
    LDX,
    LDY,
    ORA,
    SBC,
    // Undocumented
    NOP,
    LAX,
    ANC,
    ALR,
    ARR,
    AXS,
}

/// Operations without an operand.
#[derive(Debug, Clone, Copy, PartialEq, Eq, Structural)]
pub enum ImpliedOp {
    CLC,
    CLD,
    CLI,
    CLV,
    DEX,
    DEY,
    INX,
    INY,
    NOP,
    SEC,
    SED,
    SEI,
    TAX,
    TAY,
    TSX,
    TXA,
    TXS,
    TYA,
}

/// Operations that store a register.
#[derive(Debug, Clone, Copy, PartialEq, Eq, Structural)]
pub enum WriteOp {
    STA,
    STX,
    STY,
    SAX,
}

/// Operations that read an operand, change it and write it back.
#[derive(Debug, Clone, Copy, PartialEq, Eq, Structural)]
pub enum ReadWriteOp {
    ASL,
    DEC,
    INC,
    LSR,
    ROL,
    ROR,
    // Undocumented
    DCP,
    ISC,
    SLO,
    RLA,
    SRE,
    RRA,
}

/// The conditional branches.
#[derive(Debug, Clone, Copy, PartialEq, Eq, Structural)]
pub enum BranchOp {
    BCC,
    BCS,
    BEQ,
    BMI,
    BNE,
    BPL,
    BVC,
    BVS,
}

/// The undocumented stores that mix the address's high byte into the value.
#[derive(Debug, Clone, Copy, PartialEq, Eq, Structural)]
pub enum SHOp {
    SHY,
    SHX,
}

/// An operation of one of the classes that share the generic addressing
/// modes.
#[derive(Debug, Clone, Copy, PartialEq, Eq, Structural)]
pub enum Op {
    Read(ReadOp),
    ReadWrite(ReadWriteOp),
    Write(WriteOp),
    SH(SHOp),
}

/// The carry as a number.
pub open spec fn carry_in(c: bool) -> int {
    if c {
        1
    } else {
        0
    }
}

/// A byte read as a signed number.
pub open spec fn signed(v: u8) -> int {
    if v >= 128 {
        v - 256
    } else {
        v as int
    }
}

/// The nine-bit sum that an addition with carry forms.
pub open spec fn adc_sum(a: u8, m: u8, c: bool) -> int {
    a + m + carry_in(c)
}

/// Whether the signed sum of an addition with carry leaves the range of a
/// signed byte.
pub open spec fn adc_overflows(a: u8, m: u8, c: bool) -> bool {
    let sum = signed(a) + signed(m) + carry_in(c);
    sum < -128 || sum > 127
}

/// A byte minus another, modulo 256.
pub open spec fn difference(reg: u8, m: u8) -> u8 {
    ((reg - m) % 256) as u8
}

/// The registers after `reg` has been compared with `m`: Z and N from the
/// difference, C when there is no borrow.
pub open spec fn compared(cpu: CPU, reg: u8, m: u8) -> CPU {
    CPU { flags: Flags { c: reg >= m, ..cpu.flags.with_zn(difference(reg, m)) }, ..cpu }
}

/// The registers after `value` has been loaded into the accumulator.
pub open spec fn loaded_a(cpu: CPU, value: u8) -> CPU {
    CPU { a: value, ..cpu.with_zn(value) }
}


/// The registers after `m` and the carry have been added to the accumulator:
/// C is the ninth bit of the sum, V says that the signed sum overflowed, Z and
/// N come from the low eight bits.
pub open spec fn added(cpu: CPU, m: u8) -> CPU {
    let sum = adc_sum(cpu.a, m, cpu.flags.c);
    let result = (sum % 256) as u8;
    CPU {
        a: result,
        flags: Flags {
            c: sum >= 256,
            v: adc_overflows(cpu.a, m, cpu.flags.c),
            ..cpu.flags.with_zn(result)
        },
        ..cpu
    }
}

/// A shift to the left: bit 7 goes to C and `low` comes in at bit 0.
pub open spec fn shifted_left(cpu: CPU, m: u8, low: bool) -> (CPU, u8) {
    let result = ((m * 2) % 256 + carry_in(low)) as u8;
    (cpu.with_flag(Flag::C, m >= 128).with_zn(result), result)
}

/// A shift to the right: bit 0 goes to C and `high` comes in at bit 7.
pub open spec fn shifted_right(cpu: CPU, m: u8, high: bool) -> (CPU, u8) {
    let result = (m / 2 + 128 * carry_in(high)) as u8;
    (cpu.with_flag(Flag::C, m % 2 == 1).with_zn(result), result)
}

/// A step up or down by one, modulo 256.
pub open spec fn stepped(cpu: CPU, m: u8, up: bool) -> (CPU, u8) {
    let result = if up {
        ((m + 1) % 256) as u8
    } else {
        difference(m, 1)
    };
    (cpu.with_zn(result), result)
}

/// Bit 7 of the exclusive-or test that the adder makes is set exactly when
/// both operands have the same sign and the result has the other.
proof fn lemma_overflow_bit(a: u8, m: u8, r: u8)
    by (bit_vector)
    ensures
        ((!(a ^ m) & (a ^ r) & 0x80u8) == 0x80u8) == ((a >= 128) == (m >= 128) && (a >= 128) != (r
            >= 128)),
{
}

fn add_with_carry(cpu: &mut CPU, m: u8)
    ensures
        *final(cpu) == added(*old(cpu), m),
{
    let a = cpu.a;
    let sum: u16 = a as u16 + m as u16 + if cpu.flags.c {
        1
    } else {
        0
    };
    let result = (sum % 256) as u8;
    proof {
        lemma_overflow_bit(a, m, result);
    }
    cpu.flags.c = sum > 0xff;
    cpu.flags.v = (!(a ^ m) & (a ^ result) & 0x80) == 0x80;
    cpu.a = result;
    cpu.set_zn(result);
}

fn compare(cpu: &mut CPU, reg: u8, m: u8) -> (result: u8)
    ensures
        *final(cpu) == compared(*old(cpu), reg, m),
        result == difference(reg, m),
{
    let result = reg.wrapping_sub(m);
    cpu.set_zn(result);
    cpu.flags.c = reg >= m;
    result
}

fn load_a(cpu: &mut CPU, value: u8)
    ensures
        *final(cpu) == loaded_a(*old(cpu), value),
{
    cpu.a = value;
    cpu.set_zn(value);
}

fn and_carry(cpu: &mut CPU, m: u8)
    ensures
        *final(cpu) == ReadOp::ANC.apply(*old(cpu), m),
{
    reveal(ReadOp::apply);
    let result = cpu.a & m;
    load_a(cpu, result);
    cpu.flags.c = result >= 128;
}

fn and_rotate(cpu: &mut CPU, m: u8)
    ensures
        *final(cpu) == ReadOp::ARR.apply(*old(cpu), m),
{
    reveal(ReadOp::apply);
    let result = shift_right(cpu, cpu.a & m, cpu.flags.c);
    cpu.flags.c = result & 0x40 != 0;
    cpu.flags.v = (result & 0x40 != 0) != (result & 0x20 != 0);
    cpu.a = result;
}

fn shift_left(cpu: &mut CPU, m: u8, low: bool) -> (result: u8)
    ensures
        (*final(cpu), result) == shifted_left(*old(cpu), m, low),
{
    let result = (m % 128) * 2 + if low {
        1
    } else {
        0
    };
    cpu.flags.c = m >= 128;
    cpu.set_zn(result);
    result
}

fn shift_right(cpu: &mut CPU, m: u8, high: bool) -> (result: u8)
    ensures
        (*final(cpu), result) == shifted_right(*old(cpu), m, high),
{
    let result = m / 2 + if high {
        128
    } else {
        0
    };
    cpu.flags.c = m % 2 == 1;
    cpu.set_zn(result);
    result
}

fn step(cpu: &mut CPU, m: u8, up: bool) -> (result: u8)
    ensures
        (*final(cpu), result) == stepped(*old(cpu), m, up),
{
    let result = if up {
        m.wrapping_add(1)
    } else {
        m.wrapping_sub(1)
    };
    cpu.set_zn(result);
    result
}

impl Op {
    /// Whether the operation reads its operand from memory.
    pub open spec fn reads(self) -> bool {
        self is Read
    }

    /// Whether the operation reads its operand from memory.
    pub fn is_read(&self) -> (b: bool)
        ensures
            b == self.reads(),
    {
        match self {
            Op::Read(_) => true,
            _ => false,
        }
    }
}

impl ReadOp {
    /// The registers after the operation has been given its operand `m`.
    #[verifier::opaque]
    pub open spec fn apply(self, cpu: CPU, m: u8) -> CPU {
        match self {
            ReadOp::ADC => added(cpu, m),
            ReadOp::AND => loaded_a(cpu, cpu.a & m),
            ReadOp::BIT => CPU {
                flags: Flags { z: cpu.a & m == 0, n: m & 0x80 != 0, v: m & 0x40 != 0, ..cpu.flags },
                ..cpu
            },
            ReadOp::CMP => compared(cpu, cpu.a, m),
            ReadOp::CPX => compared(cpu, cpu.x, m),
            ReadOp::CPY => compared(cpu, cpu.y, m),
            ReadOp::EOR => loaded_a(cpu, cpu.a ^ m),
            ReadOp::LDA => loaded_a(cpu, m),
            ReadOp::LDX => CPU { x: m, ..cpu.with_zn(m) },
            ReadOp::LDY => CPU { y: m, ..cpu.with_zn(m) },
            ReadOp::ORA => loaded_a(cpu, cpu.a | m),
            ReadOp::SBC => added(cpu, (255 - m) as u8),
            ReadOp::NOP => cpu,
            ReadOp::LAX => CPU { a: m, x: m, ..cpu.with_zn(m) },
            ReadOp::ANC => {
                let result = cpu.a & m;
                loaded_a(cpu, result).with_flag(Flag::C, result >= 128)
            },
            ReadOp::ALR => {
                let (after, result) = shifted_right(cpu, cpu.a & m, false);
                CPU { a: result, ..after }
            },
            ReadOp::ARR => {
                let (after, result) = shifted_right(cpu, cpu.a & m, cpu.flags.c);
                CPU {
                    a: result,
                    flags: Flags {
                        c: result & 0x40 != 0,
                        v: (result & 0x40 != 0) != (result & 0x20 != 0),
                        ..after.flags
                    },
                    ..after
                }
            },
            ReadOp::AXS => {
                let result = difference(cpu.a & cpu.x, m);
                CPU { x: result, ..compared(cpu, cpu.a & cpu.x, m) }
            },
        }
    }

    pub fn execute(&self, cpu: &mut CPU, operand: u8)
        ensures
            *final(cpu) == self.apply(*old(cpu), operand),
    {
        reveal(ReadOp::apply);
        match self {
            ReadOp::ADC => add_with_carry(cpu, operand),
            ReadOp::AND => load_a(cpu, cpu.a & operand),
            ReadOp::BIT => {
                cpu.flags = Flags {
                    z: cpu.a & operand == 0,
                    n: operand & 0x80 != 0,
                    v: operand & 0x40 != 0,
                    d: cpu.flags.d,
                    i: cpu.flags.i,
                    c: cpu.flags.c,
                };
            },
            ReadOp::CMP => {
                compare(cpu, cpu.a, operand);
            },
            ReadOp::CPX => {
                compare(cpu, cpu.x, operand);
            },
            ReadOp::CPY => {
                compare(cpu, cpu.y, operand);
            },
            ReadOp::EOR => load_a(cpu, cpu.a ^ operand),
            ReadOp::LDA => load_a(cpu, operand),
            ReadOp::LDX => {
                cpu.x = operand;
                cpu.set_zn(operand);
            },
            ReadOp::LDY => {
                cpu.y = operand;
                cpu.set_zn(operand);
            },
            ReadOp::ORA => load_a(cpu, cpu.a | operand),
            ReadOp::SBC => add_with_carry(cpu, 255 - operand),
            ReadOp::NOP => {},
            ReadOp::LAX => {
                cpu.a = operand;
                cpu.x = operand;
                cpu.set_zn(operand);
            },
            ReadOp::ANC => and_carry(cpu, operand),
            ReadOp::ALR => {
                cpu.a = shift_right(cpu, cpu.a & operand, false);
            },
            ReadOp::ARR => and_rotate(cpu, operand),
            ReadOp::AXS => {
                cpu.x = compare(cpu, cpu.a & cpu.x, operand);
            },
        }
    }
}

impl ReadWriteOp {
    /// The registers after the operation has been given its operand `m`, and
    /// the byte that it writes back.
    #[verifier::opaque]
    pub open spec fn apply(self, cpu: CPU, m: u8) -> (CPU, u8) {
        match self {
            ReadWriteOp::ASL => shifted_left(cpu, m, false),
            ReadWriteOp::DEC => stepped(cpu, m, false),
            ReadWriteOp::INC => stepped(cpu, m, true),
            ReadWriteOp::LSR => shifted_right(cpu, m, false),
            ReadWriteOp::ROL => shifted_left(cpu, m, cpu.flags.c),
            ReadWriteOp::ROR => shifted_right(cpu, m, cpu.flags.c),
            ReadWriteOp::DCP => {
                let (after, result) = stepped(cpu, m, false);
                (compared(after, after.a, result), result)
            },
            ReadWriteOp::ISC => {
                let (after, result) = stepped(cpu, m, true);
                (added(after, (255 - result) as u8), result)
            },
            ReadWriteOp::SLO => {
                let (after, result) = shifted_left(cpu, m, false);
                (loaded_a(after, after.a | result), result)
            },
            ReadWriteOp::RLA => {
                let (after, result) = shifted_left(cpu, m, cpu.flags.c);
                (loaded_a(after, after.a & result), result)
            },
            ReadWriteOp::SRE => {
                let (after, result) = shifted_right(cpu, m, false);
                (loaded_a(after, after.a ^ result), result)
            },
            ReadWriteOp::RRA => {
                let (after, result) = shifted_right(cpu, m, cpu.flags.c);
                (added(after, result), result)
            },
        }
    }

    pub fn execute(&self, cpu: &mut CPU, operand: u8) -> (result: u8)
        ensures
            (*final(cpu), result) == self.apply(*old(cpu), operand),
    {
        reveal(ReadWriteOp::apply);
        match self {
            ReadWriteOp::ASL => shift_left(cpu, operand, false),
            ReadWriteOp::DEC => step(cpu, operand, false),
            ReadWriteOp::INC => step(cpu, operand, true),
            ReadWriteOp::LSR => shift_right(cpu, operand, false),
            ReadWriteOp::ROL => shift_left(cpu, operand, cpu.flags.c),
            ReadWriteOp::ROR => shift_right(cpu, operand, cpu.flags.c),
            ReadWriteOp::DCP => {
                let result = step(cpu, operand, false);
                compare(cpu, cpu.a, result);
                result
            },
            ReadWriteOp::ISC => {
                let result = step(cpu, operand, true);
                add_with_carry(cpu, 255 - result);
                result
            },
            ReadWriteOp::SLO => {
                let result = shift_left(cpu, operand, false);
                load_a(cpu, cpu.a | result);
                result
            },
            ReadWriteOp::RLA => {
                let result = shift_left(cpu, operand, cpu.flags.c);
                load_a(cpu, cpu.a & result);
                result
            },
            ReadWriteOp::SRE => {
                let result = shift_right(cpu, operand, false);
                load_a(cpu, cpu.a ^ result);
                result
            },
            ReadWriteOp::RRA => {
                let result = shift_right(cpu, operand, cpu.flags.c);
                add_with_carry(cpu, result);
                result
            },
        }
    }
}

impl WriteOp {
    /// The byte that the operation stores.
    pub open spec fn value(self, cpu: CPU) -> u8 {
        match self {
            WriteOp::STA => cpu.a,
            WriteOp::STX => cpu.x,
            WriteOp::STY => cpu.y,
            WriteOp::SAX => cpu.a & cpu.x,
        }
    }

    pub fn execute(&self, cpu: &CPU) -> (value: u8)
        ensures
            value == self.value(*cpu),
    {
        match self {
            WriteOp::STA => cpu.a,
            WriteOp::STX => cpu.x,
            WriteOp::STY => cpu.y,
            WriteOp::SAX => cpu.a & cpu.x,
        }
    }
}

impl BranchOp {
    /// Whether the branch is taken.
    pub open spec fn taken(self, cpu: CPU) -> bool {
        match self {
            BranchOp::BCC => !cpu.flags.c,
            BranchOp::BCS => cpu.flags.c,
            BranchOp::BEQ => cpu.flags.z,
            BranchOp::BMI => cpu.flags.n,
            BranchOp::BNE => !cpu.flags.z,
            BranchOp::BPL => !cpu.flags.n,
            BranchOp::BVC => !cpu.flags.v,
            BranchOp::BVS => cpu.flags.v,
        }
    }

    pub fn execute(&self, cpu: &CPU) -> (taken: bool)
        ensures
            taken == self.taken(*cpu),
    {
        match self {
            BranchOp::BCC => !cpu.flags.c,
            BranchOp::BCS => cpu.flags.c,
            BranchOp::BEQ => cpu.flags.z,
            BranchOp::BMI => cpu.flags.n,
            BranchOp::BNE => !cpu.flags.z,
            BranchOp::BPL => !cpu.flags.n,
            BranchOp::BVC => !cpu.flags.v,
            BranchOp::BVS => cpu.flags.v,
        }
    }
}

impl ImpliedOp {
    /// The registers after the operation.
    #[verifier::opaque]
    pub open spec fn apply(self, cpu: CPU) -> CPU {
        match self {
            ImpliedOp::CLC => cpu.with_flag(Flag::C, false),
            ImpliedOp::CLD => cpu.with_flag(Flag::D, false),
            ImpliedOp::CLI => cpu.with_flag(Flag::I, false),
            ImpliedOp::CLV => cpu.with_flag(Flag::V, false),
            ImpliedOp::DEX => CPU { x: stepped(cpu, cpu.x, false).1, ..stepped(cpu, cpu.x, false).0 },
            ImpliedOp::DEY => CPU { y: stepped(cpu, cpu.y, false).1, ..stepped(cpu, cpu.y, false).0 },
            ImpliedOp::INX => CPU { x: stepped(cpu, cpu.x, true).1, ..stepped(cpu, cpu.x, true).0 },
            ImpliedOp::INY => CPU { y: stepped(cpu, cpu.y, true).1, ..stepped(cpu, cpu.y, true).0 },
            ImpliedOp::NOP => cpu,
            ImpliedOp::SEC => cpu.with_flag(Flag::C, true),
            ImpliedOp::SED => cpu.with_flag(Flag::D, true),
            ImpliedOp::SEI => cpu.with_flag(Flag::I, true),
            ImpliedOp::TAX => CPU { x: cpu.a, ..cpu.with_zn(cpu.a) },
            ImpliedOp::TAY => CPU { y: cpu.a, ..cpu.with_zn(cpu.a) },
            ImpliedOp::TSX => CPU { x: cpu.s, ..cpu.with_zn(cpu.s) },
            ImpliedOp::TXA => CPU { a: cpu.x, ..cpu.with_zn(cpu.x) },
            ImpliedOp::TXS => CPU { s: cpu.x, ..cpu },
            ImpliedOp::TYA => CPU { a: cpu.y, ..cpu.with_zn(cpu.y) },
        }
    }

    pub fn execute(&self, cpu: &mut CPU)
        ensures
            *final(cpu) == self.apply(*old(cpu)),
    {
        reveal(ImpliedOp::apply);
        match self {
            ImpliedOp::CLC => cpu.set_flag(Flag::C, false),
            ImpliedOp::CLD => cpu.set_flag(Flag::D, false),
            ImpliedOp::CLI => cpu.set_flag(Flag::I, false),
            ImpliedOp::CLV => cpu.set_flag(Flag::V, false),
            ImpliedOp::DEX => {
                cpu.x = step(cpu, cpu.x, false);
            },
            ImpliedOp::DEY => {
                cpu.y = step(cpu, cpu.y, false);
            },
            ImpliedOp::INX => {
                cpu.x = step(cpu, cpu.x, true);
            },
            ImpliedOp::INY => {
                cpu.y = step(cpu, cpu.y, true);
            },
            ImpliedOp::NOP => {},
            ImpliedOp::SEC => cpu.set_flag(Flag::C, true),
            ImpliedOp::SED => cpu.set_flag(Flag::D, true),
            ImpliedOp::SEI => cpu.set_flag(Flag::I, true),
            ImpliedOp::TAX => {
                cpu.set_zn(cpu.a);
                cpu.x = cpu.a;
            },
            ImpliedOp::TAY => {
                cpu.set_zn(cpu.a);
                cpu.y = cpu.a;
            },
            ImpliedOp::TSX => {
                cpu.set_zn(cpu.s);
                cpu.x = cpu.s;
            },
            ImpliedOp::TXA => {
                cpu.set_zn(cpu.x);
                cpu.a = cpu.x;
            },
            ImpliedOp::TXS => {
                cpu.s = cpu.x;
            },
            ImpliedOp::TYA => {
                cpu.set_zn(cpu.y);
                cpu.a = cpu.y;
            },
        }
    }
}

impl SHOp {
    /// The byte that the operation stores when the high byte of the base
    /// address is `h`: the register and-ed with `h + 1`.
    pub open spec fn value(self, cpu: CPU, h: u8) -> u8 {
        match self {
            SHOp::SHY => cpu.y & (((h + 1) % 256) as u8),
            SHOp::SHX => cpu.x & (((h + 1) % 256) as u8),
        }
    }

    pub fn execute(&self, cpu: &CPU, h: u8) -> (value: u8)
        ensures
            value == self.value(*cpu, h),
    {
        match self {
            SHOp::SHY => cpu.y & h.wrapping_add(1),
            SHOp::SHX => cpu.x & h.wrapping_add(1),
        }
    }
}

/// An operation on an operand leaves the program counter, the stack pointer,
/// the micro-state and the interrupt latches alone.
pub proof fn lemma_read_op_frame(op: ReadOp, cpu: CPU, m: u8)
    ensures
        ({
            let after = op.apply(cpu, m);
            after.pc == cpu.pc && after.s == cpu.s && after.state == cpu.state && after.nmi == cpu.nmi
                && after.irq == cpu.irq && after.flags.i == cpu.flags.i && after.flags.d
                == cpu.flags.d
        }),
{
    reveal(ReadOp::apply);
}

/// A read-modify-write operation leaves the program counter, the stack
/// pointer, the micro-state and the interrupt latches alone.
pub proof fn lemma_read_write_op_frame(op: ReadWriteOp, cpu: CPU, m: u8)
    ensures
        ({
            let after = op.apply(cpu, m).0;
            after.pc == cpu.pc && after.s == cpu.s && after.state == cpu.state && after.nmi == cpu.nmi
                && after.irq == cpu.irq && after.flags.i == cpu.flags.i && after.flags.d
                == cpu.flags.d
        }),
{
    reveal(ReadWriteOp::apply);
}

/// An implied operation leaves the program counter, the micro-state and the
/// interrupt latches alone.
pub proof fn lemma_implied_op_frame(op: ImpliedOp, cpu: CPU)
    ensures
        ({
            let after = op.apply(cpu);
            after.pc == cpu.pc && after.state == cpu.state && after.nmi == cpu.nmi && after.irq
                == cpu.irq
        }),
{
    reveal(ImpliedOp::apply);
}

} // verus!
