//! One cycle of the CPU: which bus access it makes, and how the byte that
//! comes back moves the registers and the micro-state on.

use vstd::prelude::*;
use super::decode::{decode, decode_opcode};
use super::flags::Flags;
use super::ops::Op;
use super::state::{Interrupt, State, S};
use super::{Line, CPU};

verus! {

/// What the CPU asks of the bus in one cycle.
#[derive(Debug, Clone, Copy, PartialEq, Eq, Structural)]
pub enum BusRequest {
    Idle,
    Read(u16),
    Write(u16, u8),
}

/// The address of the stack byte that `s` points at.
pub open spec fn stack_address(s: u8) -> u16 {
    (0x100 + s) as u16
}

/// The sixteen-bit word with the given high and low byte.
pub open spec fn word(high: u8, low: u8) -> u16 {
    (high * 256 + low) as u16
}

/// An address moved forward by `n`, wrapping at the end of the address space.
pub open spec fn advanced(addr: u16, n: int) -> u16 {
    ((addr + n) % 0x10000) as u16
}

/// A zero-page pointer moved forward by `n`, wrapping inside the page.
pub open spec fn advanced_byte(v: u8, n: int) -> u8 {
    ((v + n) % 256) as u8
}

/// The target of a taken branch: the offset is a signed byte.
pub open spec fn branch_target(pc: u16, offset: u8) -> u16 {
    if offset < 128 {
        advanced(pc, offset as int)
    } else {
        advanced(pc, offset - 256)
    }
}

/// The address that a branch across a page reads before it is done: the old
/// page, with the offset added once more to the low byte of the target.
pub open spec fn branch_wrong_page(pc: u16, offset: u8) -> u16 {
    ((pc / 256) * 256 + (branch_target(pc, offset) % 256 + offset) % 256) as u16
}

/// The address after `pointer` inside the same page.
pub open spec fn next_in_page(pointer: u16) -> u16 {
    ((pointer / 256) * 256 + (pointer % 256 + 1) % 256) as u16
}

/// After the low byte of the target has been read from `base`: the micro-state
/// that follows when the high byte `high` arrives and the index added to the
/// low byte gave `low_word`.
pub open spec fn after_high_byte(cpu: CPU, oc: Op, high: u8, low_word: u16) -> S {
    let base = word(high, (low_word % 256) as u8);
    match oc {
        Op::SH(sh) => S::FakeThenActual(
            oc,
            base,
            if low_word > 0xFF {
                word(sh.value(cpu, high), (low_word % 256) as u8)
            } else {
                base
            },
        ),
        _ => if low_word > 0xFF {
            S::FakeThenActual(oc, base, advanced(base, 0x100))
        } else if oc.reads() {
            S::ExecuteOnAddress(oc, base, high)
        } else {
            S::FakeThenActual(oc, base, base)
        },
    }
}

impl Flags {
    /// The status byte as it is pushed to the stack: bit 5 is always set, and
    /// bit 4 says whether an instruction (`BRK`, `PHP`) made the push.
    pub open spec fn pushed(self, b: bool) -> u8 {
        (self.to_bits() + 0x20 + if b {
            0x10int
        } else {
            0
        }) as u8
    }
}

impl CPU {
    /// The CPU in another micro-state.
    pub open spec fn at(self, s: S) -> CPU {
        CPU { state: State(s), ..self }
    }

    /// The interrupt that an opcode fetch turns into, if any. NMI comes
    /// first; IRQ is held off while I is set.
    pub open spec fn interrupt_due(self) -> Option<Interrupt> {
        if self.nmi is Armed {
            Some(Interrupt::NMI)
        } else if self.irq is Armed && !self.flags.i {
            Some(Interrupt::IRQ)
        } else {
            None
        }
    }

    /// The bus access of the cycle that the CPU is about to make.
    pub open spec fn request(self) -> BusRequest {
        match self.state.0 {
            S::FetchOpcode => BusRequest::Read(self.pc),
            S::ZeroPage(_) | S::ZeroPageX(_) | S::ZeroPageY(_) | S::Absolute(_) | S::AbsoluteX(_)
            | S::AbsoluteY(_) | S::IndexedIndirect(_) | S::IndirectIndexed(_) | S::ImmediateR(_)
            | S::AccRW(_) | S::Relative(_) | S::Implied(_) | S::Reset | S::RTS5 | S::JSR | S::JSR5(_)
            | S::JMPAbsolute | S::JMPAbsolute2(_) | S::JMPIndirect | S::JMPIndirect2(_)
            => BusRequest::Read(self.pc),
            S::IndexedIndirect2(_, base) => BusRequest::Read(base as u16),
            S::IndexedIndirect3(_, base) => BusRequest::Read(advanced_byte(base, self.x as int) as u16),
            S::IndirectIndexed2(_, base) => BusRequest::Read(base as u16),
            S::AddLowHigh(_, addr, _) => BusRequest::Read(addr),
            S::AddLowHighNoPen(_, addr, _) => BusRequest::Read(addr),
            S::FakeThenActual(_, base, _) => BusRequest::Read(base),
            S::ExecuteOnAddress(oc, addr, high) => match oc {
                Op::Read(_) => BusRequest::Read(addr),
                Op::ReadWrite(_) => BusRequest::Read(addr),
                Op::Write(wo) => BusRequest::Write(addr, wo.value(self)),
                Op::SH(sh) => BusRequest::Write(addr, sh.value(self, high)),
            },
            S::WriteBackThenWrite(addr, val, _) => BusRequest::Write(addr, val),
            S::Write(addr, val) => BusRequest::Write(addr, val),
            S::Relative2(_) => BusRequest::Idle,
            S::Relative3(addr) => BusRequest::Read(addr),
            S::Int(interrupt) => BusRequest::Read(
                if interrupt is BRK {
                    advanced(self.pc, 1)
                } else {
                    self.pc
                },
            ),
            S::Int2(interrupt) => if interrupt is Reset {
                BusRequest::Read(stack_address(self.s))
            } else {
                BusRequest::Write(stack_address(self.s), (self.pc / 256) as u8)
            },
            S::Int3(interrupt) => if interrupt is Reset {
                BusRequest::Read(stack_address(self.s))
            } else {
                BusRequest::Write(stack_address(self.s), (self.pc % 256) as u8)
            },
            S::Int4(interrupt, b) => if interrupt is Reset {
                BusRequest::Read(stack_address(self.s))
            } else {
                BusRequest::Write(stack_address(self.s), self.flags.pushed(b))
            },
            S::Int5(interrupt) => BusRequest::Read(interrupt.vector()),
            S::Int6(interrupt, _) => BusRequest::Read(advanced(interrupt.vector(), 1)),
            S::RTI | S::RTS | S::PHA | S::PHP | S::PLA | S::PLP => BusRequest::Idle,
            S::RTI2 | S::RTI3 | S::RTI4 | S::RTI5(_) | S::RTS2 | S::RTS3 | S::RTS4(_) | S::PLA2
            | S::PLP2 | S::JSR2(_) => BusRequest::Read(stack_address(self.s)),
            S::PLA3 | S::PLP3 => BusRequest::Read(stack_address(advanced_byte(self.s, 1))),
            S::PHPA(val) => BusRequest::Write(stack_address(self.s), val),
            S::JSR3(_) => BusRequest::Write(stack_address(self.s), (self.pc / 256) as u8),
            S::JSR4(_) => BusRequest::Write(stack_address(self.s), (self.pc % 256) as u8),
            S::JMPIndirect3(pointer) => BusRequest::Read(pointer),
            S::JMPIndirect4(pointer, _) => BusRequest::Read(next_in_page(pointer)),
        }
    }

    /// Whether the cycle that the CPU is about to make stops on a byte that
    /// is no instruction: an opcode fetch, with no interrupt due, of a byte
    /// that the opcode table does not hold.
    pub open spec fn rejects(self, data: u8) -> bool {
        self.state.0 is FetchOpcode && self.interrupt_due() is None && decode(data) is None
    }

    /// The CPU after an opcode fetch that read `data`. With an interrupt due
    /// the byte is dropped and the interrupt sequence starts; an NMI leaves
    /// its latch idle. While I is set a latched IRQ is dropped.
    #[verifier::opaque]
    pub open spec fn after_fetch(self, data: u8) -> CPU {
        let irq = if self.flags.i {
            Line::Idle
        } else {
            self.irq
        };
        match self.interrupt_due() {
            Some(Interrupt::NMI) => CPU { nmi: Line::Idle, irq, ..self.at(S::Int(Interrupt::NMI)) },
            Some(interrupt) => CPU { irq, ..self.at(S::Int(interrupt)) },
            None => match decode(data) {
                Some(s) => CPU { pc: advanced(self.pc, 1), irq, ..self.at(s) },
                None => self,
            },
        }
    }

    /// The CPU after the cycle in which the operation `oc` meets its operand
    /// at `addr`: a read is done, a read-modify-write goes on to write the
    /// old byte back and then the new one, a store is done.
    pub open spec fn after_operand(self, oc: Op, addr: u16, data: u8) -> CPU {
        match oc {
            Op::Read(ro) => ro.apply(self, data).at(S::FetchOpcode),
            Op::ReadWrite(rw) => rw.apply(self, data).0.at(
                S::WriteBackThenWrite(addr, data, rw.apply(self, data).1),
            ),
            Op::Write(_) => self.at(S::FetchOpcode),
            Op::SH(_) => self.at(S::FetchOpcode),
        }
    }

    /// The CPU after the cycle in which a taken branch adds its offset.
    pub open spec fn after_branch(self, offset: u8) -> CPU {
        CPU { pc: branch_target(self.pc, offset), ..self }.at(
            if self.pc / 256 != branch_target(self.pc, offset) / 256 {
                S::Relative3(branch_wrong_page(self.pc, offset))
            } else {
                S::FetchOpcode
            },
        )
    }

    /// The CPU after a cycle of one of the addressing modes that the
    /// operations share, when the bus returned `data`.
    #[verifier::opaque]
    pub open spec fn after_addressing(self, data: u8) -> CPU {
        match self.state.0 {
            S::ImmediateR(oc) => CPU { pc: advanced(self.pc, 1), ..oc.apply(self, data) }.at(
                S::FetchOpcode,
            ),
            S::ZeroPage(oc) => CPU { pc: advanced(self.pc, 1), ..self }.at(
                S::ExecuteOnAddress(oc, data as u16, 0),
            ),
            S::ZeroPageX(oc) => CPU { pc: advanced(self.pc, 1), ..self }.at(
                S::FakeThenActual(oc, data as u16, advanced_byte(data, self.x as int) as u16),
            ),
            S::ZeroPageY(oc) => CPU { pc: advanced(self.pc, 1), ..self }.at(
                S::FakeThenActual(oc, data as u16, advanced_byte(data, self.y as int) as u16),
            ),
            S::FakeThenActual(oc, base, addr) => self.at(
                S::ExecuteOnAddress(oc, addr, (base / 256) as u8),
            ),
            S::ExecuteOnAddress(oc, addr, _) => self.after_operand(oc, addr, data),
            S::WriteBackThenWrite(addr, _, next_val) => self.at(S::Write(addr, next_val)),
            S::Write(_, _) => self.at(S::FetchOpcode),
            S::Absolute(oc) => CPU { pc: advanced(self.pc, 2), ..self }.at(
                S::AddLowHighNoPen(oc, advanced(self.pc, 1), data),
            ),
            S::AbsoluteX(oc) => CPU { pc: advanced(self.pc, 2), ..self }.at(
                S::AddLowHigh(oc, advanced(self.pc, 1), (data + self.x) as u16),
            ),
            S::AbsoluteY(oc) => CPU { pc: advanced(self.pc, 2), ..self }.at(
                S::AddLowHigh(oc, advanced(self.pc, 1), (data + self.y) as u16),
            ),
            S::AddLowHighNoPen(oc, _, low) => self.at(S::ExecuteOnAddress(oc, word(data, low), data)),
            S::AddLowHigh(oc, _, low_word) => self.at(after_high_byte(self, oc, data, low_word)),
            S::IndexedIndirect(oc) => CPU { pc: advanced(self.pc, 1), ..self }.at(
                S::IndexedIndirect2(oc, data),
            ),
            S::IndexedIndirect2(oc, base) => self.at(S::IndexedIndirect3(oc, base)),
            S::IndexedIndirect3(oc, base) => self.at(
                S::AddLowHighNoPen(
                    oc,
                    advanced_byte(advanced_byte(base, self.x as int), 1) as u16,
                    data,
                ),
            ),
            S::IndirectIndexed(oc) => CPU { pc: advanced(self.pc, 1), ..self }.at(
                S::IndirectIndexed2(oc, data),
            ),
            S::IndirectIndexed2(oc, base) => self.at(
                S::AddLowHigh(oc, advanced_byte(base, 1) as u16, (data + self.y) as u16),
            ),
            S::AccRW(oc) => CPU { a: oc.apply(self, self.a).1, ..oc.apply(self, self.a).0 }.at(
                S::FetchOpcode,
            ),
            _ => self,
        }
    }

    /// The CPU after a cycle of a branch, an implied operation, a jump, a
    /// return or a stack instruction, when the bus returned `data`.
    #[verifier::opaque]
    pub open spec fn after_flow(self, data: u8) -> CPU {
        match self.state.0 {
            S::Relative(oc) => CPU { pc: advanced(self.pc, 1), ..self }.at(
                if oc.taken(self) {
                    S::Relative2(data)
                } else {
                    S::FetchOpcode
                },
            ),
            S::Relative2(offset) => self.after_branch(offset),
            S::Relative3(_) => self.at(S::FetchOpcode),
            S::Implied(oc) => oc.apply(self).at(S::FetchOpcode),
            S::RTI => self.at(S::RTI2),
            S::RTI2 => CPU { s: advanced_byte(self.s, 1), ..self }.at(S::RTI3),
            S::RTI3 => CPU { s: advanced_byte(self.s, 1), flags: Flags::of_bits(data), ..self }.at(
                S::RTI4,
            ),
            S::RTI4 => CPU { s: advanced_byte(self.s, 1), ..self }.at(S::RTI5(data)),
            S::RTI5(pcl) => CPU { pc: word(data, pcl), ..self }.at(S::FetchOpcode),
            S::RTS => self.at(S::RTS2),
            S::RTS2 => CPU { s: advanced_byte(self.s, 1), ..self }.at(S::RTS3),
            S::RTS3 => CPU { s: advanced_byte(self.s, 1), ..self }.at(S::RTS4(data)),
            S::RTS4(pcl) => CPU { pc: word(data, pcl), ..self }.at(S::RTS5),
            S::RTS5 => CPU { pc: advanced(self.pc, 1), ..self }.at(S::FetchOpcode),
            S::PHP => self.at(S::PHPA(self.flags.pushed(true))),
            S::PHA => self.at(S::PHPA(self.a)),
            S::PHPA(_) => CPU { s: advanced_byte(self.s, -1), ..self }.at(S::FetchOpcode),
            S::PLP => self.at(S::PLP2),
            S::PLP2 => self.at(S::PLP3),
            S::PLP3 => CPU { s: advanced_byte(self.s, 1), flags: Flags::of_bits(data), ..self }.at(
                S::FetchOpcode,
            ),
            S::PLA => self.at(S::PLA2),
            S::PLA2 => self.at(S::PLA3),
            S::PLA3 => CPU { s: advanced_byte(self.s, 1), a: data, ..self.with_zn(data) }.at(
                S::FetchOpcode,
            ),
            S::JSR => CPU { pc: advanced(self.pc, 1), ..self }.at(S::JSR2(data)),
            S::JSR2(pcl) => self.at(S::JSR3(pcl)),
            S::JSR3(pcl) => CPU { s: advanced_byte(self.s, -1), ..self }.at(S::JSR4(pcl)),
            S::JSR4(pcl) => CPU { s: advanced_byte(self.s, -1), ..self }.at(S::JSR5(pcl)),
            S::JSR5(pcl) => CPU { pc: word(data, pcl), ..self }.at(S::FetchOpcode),
            S::JMPAbsolute => CPU { pc: advanced(self.pc, 1), ..self }.at(S::JMPAbsolute2(data)),
            S::JMPAbsolute2(pcl) => CPU { pc: word(data, pcl), ..self }.at(S::FetchOpcode),
            S::JMPIndirect => CPU { pc: advanced(self.pc, 1), ..self }.at(S::JMPIndirect2(data)),
            S::JMPIndirect2(low) => self.at(S::JMPIndirect3(word(data, low))),
            S::JMPIndirect3(pointer) => self.at(S::JMPIndirect4(pointer, data)),
            S::JMPIndirect4(_, pcl) => CPU { pc: word(data, pcl), ..self }.at(S::FetchOpcode),
            _ => self,
        }
    }

    /// The CPU after a cycle of the interrupt sequence, when the bus returned
    /// `data`. After the low byte of the return address has gone to the
    /// stack, an NMI that has been signalled, polled or not, takes over a
    /// `BRK` or an IRQ, and its latch goes idle. I is set once the status
    /// byte has been pushed, before the vector is fetched.
    #[verifier::opaque]
    pub open spec fn after_interrupt(self, data: u8) -> CPU {
        match self.state.0 {
            S::Reset => self.at(S::Int(Interrupt::Reset)),
            S::Int(interrupt) => CPU {
                pc: if interrupt is BRK {
                    advanced(self.pc, 1)
                } else {
                    self.pc
                },
                ..self
            }.at(S::Int2(interrupt)),
            S::Int2(interrupt) => CPU { s: advanced_byte(self.s, -1), ..self }.at(S::Int3(interrupt)),
            S::Int3(interrupt) => {
                let hijacked = (interrupt is BRK || interrupt is IRQ) && !(self.nmi is Idle);
                CPU {
                    s: advanced_byte(self.s, -1),
                    nmi: if hijacked {
                        Line::Idle
                    } else {
                        self.nmi
                    },
                    ..self
                }.at(
                    S::Int4(
                        if hijacked {
                            Interrupt::NMI
                        } else {
                            interrupt
                        },
                        interrupt is BRK,
                    ),
                )
            },
            S::Int4(interrupt, _) => CPU {
                s: advanced_byte(self.s, -1),
                flags: Flags { i: true, ..self.flags },
                ..self
            }.at(S::Int5(interrupt)),
            S::Int5(interrupt) => self.at(S::Int6(interrupt, data)),
            S::Int6(_, pcl) => CPU { pc: word(data, pcl), ..self }.at(S::FetchOpcode),
            _ => self,
        }
    }

    /// The CPU after the cycle that it is about to make, when the bus
    /// returned `data` (for a cycle that reads; a cycle that writes or leaves
    /// the bus idle does not depend on it).
    #[verifier::opaque]
    pub open spec fn after_cycle(self, data: u8) -> CPU {
        match self.state.0 {
            S::FetchOpcode => self.after_fetch(data),
            S::Reset | S::Int(_) | S::Int2(_) | S::Int3(_) | S::Int4(_, _) | S::Int5(_) | S::Int6(
                _,
                _,
            ) => self.after_interrupt(data),
            S::ZeroPage(_) | S::ZeroPageX(_) | S::ZeroPageY(_) | S::AbsoluteX(_) | S::AbsoluteY(_)
            | S::Absolute(_) | S::IndexedIndirect(_) | S::IndexedIndirect2(_, _)
            | S::IndexedIndirect3(_, _) | S::IndirectIndexed(_) | S::IndirectIndexed2(_, _)
            | S::AddLowHigh(_, _, _) | S::AddLowHighNoPen(_, _, _) | S::FakeThenActual(_, _, _)
            | S::ExecuteOnAddress(_, _, _) | S::WriteBackThenWrite(_, _, _) | S::Write(_, _)
            | S::ImmediateR(_) | S::AccRW(_) => self.after_addressing(data),
            _ => self.after_flow(data),
        }
    }
}

} // verus!

verus! {

fn stack_addr(s: u8) -> (addr: u16)
    ensures
        addr == stack_address(s),
{
    0x100 + s as u16
}

fn make_word(high: u8, low: u8) -> (w: u16)
    ensures
        w == word(high, low),
{
    high as u16 * 256 + low as u16
}

fn high_byte(w: u16) -> (b: u8)
    ensures
        b == w / 256,
{
    (w / 256) as u8
}

fn low_byte(w: u16) -> (b: u8)
    ensures
        b == w % 256,
{
    (w % 256) as u8
}

fn forward(addr: u16, n: u16) -> (next: u16)
    ensures
        next == advanced(addr, n as int),
{
    addr.wrapping_add(n)
}

fn up(v: u8) -> (next: u8)
    ensures
        next == advanced_byte(v, 1),
{
    v.wrapping_add(1)
}

fn down(v: u8) -> (next: u8)
    ensures
        next == advanced_byte(v, -1),
{
    v.wrapping_sub(1)
}

fn indexed(v: u8, index: u8) -> (next: u8)
    ensures
        next == advanced_byte(v, index as int),
{
    v.wrapping_add(index)
}

fn branch_to(pc: u16, offset: u8) -> (target: u16)
    ensures
        target == branch_target(pc, offset),
{
    if offset < 128 {
        pc.wrapping_add(offset as u16)
    } else {
        pc.wrapping_sub(256 - offset as u16)
    }
}

fn next_after_high_byte(cpu: &CPU, oc: Op, high: u8, low_word: u16) -> (s: S)
    ensures
        s == after_high_byte(*cpu, oc, high, low_word),
{
    let low = low_byte(low_word);
    let base = make_word(high, low);
    match oc {
        Op::SH(sh) => {
            let real_addr = if low_word > 0xFF {
                make_word(sh.execute(cpu, high), low)
            } else {
                base
            };
            S::FakeThenActual(oc, base, real_addr)
        },
        _ => {
            if low_word > 0xFF {
                S::FakeThenActual(oc, base, base.wrapping_add(0x100))
            } else if oc.is_read() {
                S::ExecuteOnAddress(oc, base, high)
            } else {
                S::FakeThenActual(oc, base, base)
            }
        },
    }
}

impl Flags {
    /// The status byte as it is pushed to the stack.
    pub fn pushed_bits(&self, b: bool) -> (value: u8)
        ensures
            value == self.pushed(b),
    {
        self.bits() + 0x20 + if b {
            0x10
        } else {
            0
        }
    }
}

impl State {
    /// Whether the cycle that starts in this micro-state writes to the bus.
    pub open spec fn writes(self) -> bool {
        match self.0 {
            S::ExecuteOnAddress(oc, _, _) => oc is Write || oc is SH,
            S::WriteBackThenWrite(_, _, _) | S::Write(_, _) | S::PHPA(_) | S::JSR3(_) | S::JSR4(_) => true,
            S::Int2(interrupt) | S::Int3(interrupt) | S::Int4(interrupt, _) => !(interrupt is Reset),
            _ => false,
        }
    }

    /// Whether the cycle that starts in this state writes to the bus.
    pub fn is_write_cycle(&self) -> (b: bool)
        ensures
            b == self.writes(),
    {
        match self.0 {
            S::ExecuteOnAddress(oc, _, _) => match oc {
                Op::Write(_) => true,
                Op::SH(_) => true,
                _ => false,
            },
            S::WriteBackThenWrite(_, _, _) | S::Write(_, _) | S::PHPA(_) | S::JSR3(_) | S::JSR4(_) => true,
            S::Int2(interrupt) | S::Int3(interrupt) | S::Int4(interrupt, _) => match interrupt {
                Interrupt::Reset => false,
                _ => true,
            },
            _ => false,
        }
    }
}

impl CPU {
    fn moved(&self, s: S) -> (next: CPU)
        ensures
            next == self.at(s),
    {
        CPU { state: State(s), ..*self }
    }

    /// A push: a write of `value` to the stack, or for a reset a read of the
    /// same address.
    fn push_request(&self, interrupt: Interrupt, value: u8) -> (r: BusRequest)
        ensures
            r == if interrupt is Reset {
                BusRequest::Read(stack_address(self.s))
            } else {
                BusRequest::Write(stack_address(self.s), value)
            },
    {
        match interrupt {
            Interrupt::Reset => BusRequest::Read(stack_addr(self.s)),
            _ => BusRequest::Write(stack_addr(self.s), value),
        }
    }

    /// The one bus access of the cycle that starts in this state.
    pub fn bus_request(&self) -> (r: BusRequest)
        ensures
            r == self.request(),
    {
        match self.state.0 {
            S::FetchOpcode => BusRequest::Read(self.pc),
            S::ZeroPage(_) | S::ZeroPageX(_) | S::ZeroPageY(_) | S::Absolute(_) | S::AbsoluteX(_)
            | S::AbsoluteY(_) | S::IndexedIndirect(_) | S::IndirectIndexed(_) | S::ImmediateR(_)
            | S::AccRW(_) | S::Relative(_) | S::Implied(_) | S::Reset | S::RTS5 | S::JSR | S::JSR5(_)
            | S::JMPAbsolute | S::JMPAbsolute2(_) | S::JMPIndirect | S::JMPIndirect2(_)
            => BusRequest::Read(self.pc),
            S::IndexedIndirect2(_, base) => BusRequest::Read(base as u16),
            S::IndexedIndirect3(_, base) => BusRequest::Read(indexed(base, self.x) as u16),
            S::IndirectIndexed2(_, base) => BusRequest::Read(base as u16),
            S::AddLowHigh(_, addr, _) => BusRequest::Read(addr),
            S::AddLowHighNoPen(_, addr, _) => BusRequest::Read(addr),
            S::FakeThenActual(_, base, _) => BusRequest::Read(base),
            S::ExecuteOnAddress(oc, addr, high) => match oc {
                Op::Read(_) => BusRequest::Read(addr),
                Op::ReadWrite(_) => BusRequest::Read(addr),
                Op::Write(wo) => BusRequest::Write(addr, wo.execute(self)),
                Op::SH(sh) => BusRequest::Write(addr, sh.execute(self, high)),
            },
            S::WriteBackThenWrite(addr, val, _) => BusRequest::Write(addr, val),
            S::Write(addr, val) => BusRequest::Write(addr, val),
            S::Relative2(_) => BusRequest::Idle,
            S::Relative3(addr) => BusRequest::Read(addr),
            S::Int(interrupt) => match interrupt {
                Interrupt::BRK => BusRequest::Read(forward(self.pc, 1)),
                _ => BusRequest::Read(self.pc),
            },
            S::Int2(interrupt) => self.push_request(interrupt, high_byte(self.pc)),
            S::Int3(interrupt) => self.push_request(interrupt, low_byte(self.pc)),
            S::Int4(interrupt, b) => self.push_request(interrupt, self.flags.pushed_bits(b)),
            S::Int5(interrupt) => BusRequest::Read(interrupt.vector_address()),
            S::Int6(interrupt, _) => BusRequest::Read(interrupt.vector_address() + 1),
            S::RTI | S::RTS | S::PHA | S::PHP | S::PLA | S::PLP => BusRequest::Idle,
            S::RTI2 | S::RTI3 | S::RTI4 | S::RTI5(_) | S::RTS2 | S::RTS3 | S::RTS4(_) | S::PLA2
            | S::PLP2 | S::JSR2(_) => BusRequest::Read(stack_addr(self.s)),
            S::PLA3 | S::PLP3 => BusRequest::Read(stack_addr(up(self.s))),
            S::PHPA(val) => BusRequest::Write(stack_addr(self.s), val),
            S::JSR3(_) => BusRequest::Write(stack_addr(self.s), high_byte(self.pc)),
            S::JSR4(_) => BusRequest::Write(stack_addr(self.s), low_byte(self.pc)),
            S::JMPIndirect3(pointer) => BusRequest::Read(pointer),
            S::JMPIndirect4(pointer, _) => BusRequest::Read(
                make_word(high_byte(pointer), low_byte(pointer).wrapping_add(1)),
            ),
        }
    }

    fn fetched(&self, data: u8) -> (next: CPU)
        ensures
            next == self.after_fetch(data),
    {
        reveal(CPU::after_fetch);
        let irq = if self.flags.i {
            Line::Idle
        } else {
            self.irq
        };
        let nmi_armed = match self.nmi {
            Line::Armed => true,
            _ => false,
        };
        let irq_armed = match irq {
            Line::Armed => true,
            _ => false,
        };
        if nmi_armed {
            CPU { nmi: Line::Idle, irq, state: State(S::Int(Interrupt::NMI)), ..*self }
        } else if irq_armed {
            CPU { irq, state: State(S::Int(Interrupt::IRQ)), ..*self }
        } else {
            match decode_opcode(data) {
                Some(s) => CPU { pc: forward(self.pc, 1), irq, state: State(s), ..*self },
                None => *self,
            }
        }
    }

    fn immediate(&self, oc: super::ops::ReadOp, data: u8) -> (next: CPU)
        ensures
            next == (CPU { pc: advanced(self.pc, 1), ..oc.apply(*self, data) }).at(S::FetchOpcode),
    {
        let mut next = *self;
        oc.execute(&mut next, data);
        next.pc = forward(self.pc, 1);
        next.moved(S::FetchOpcode)
    }

    fn operand_met(&self, oc: Op, addr: u16, data: u8) -> (next: CPU)
        ensures
            next == self.after_operand(oc, addr, data),
    {
        match oc {
            Op::Read(ro) => {
                let mut next = *self;
                ro.execute(&mut next, data);
                next.moved(S::FetchOpcode)
            },
            Op::ReadWrite(rw) => {
                let mut next = *self;
                let next_val = rw.execute(&mut next, data);
                next.moved(S::WriteBackThenWrite(addr, data, next_val))
            },
            Op::Write(_) => self.moved(S::FetchOpcode),
            Op::SH(_) => self.moved(S::FetchOpcode),
        }
    }

    fn accumulator(&self, oc: super::ops::ReadWriteOp) -> (next: CPU)
        ensures
            next == (CPU { a: oc.apply(*self, self.a).1, ..oc.apply(*self, self.a).0 }).at(
                S::FetchOpcode,
            ),
    {
        let mut next = *self;
        let result = oc.execute(&mut next, self.a);
        next.a = result;
        next.moved(S::FetchOpcode)
    }

    fn branched(&self, offset: u8) -> (next: CPU)
        ensures
            next == self.after_branch(offset),
    {
        let old_pc = self.pc;
        let next_pc = branch_to(old_pc, offset);
        let crossed = old_pc / 256 != next_pc / 256;
        if crossed {
            let wrong = make_word(high_byte(old_pc), low_byte(next_pc).wrapping_add(offset));
            CPU { pc: next_pc, ..*self }.moved(S::Relative3(wrong))
        } else {
            CPU { pc: next_pc, ..*self }.moved(S::FetchOpcode)
        }
    }

    fn implied(&self, oc: super::ops::ImpliedOp) -> (next: CPU)
        ensures
            next == oc.apply(*self).at(S::FetchOpcode),
    {
        let mut next = *self;
        oc.execute(&mut next);
        next.moved(S::FetchOpcode)
    }

    fn pulled_a(&self, data: u8) -> (next: CPU)
        ensures
            next == (CPU { s: advanced_byte(self.s, 1), a: data, ..self.with_zn(data) }).at(
                S::FetchOpcode,
            ),
    {
        let mut next = *self;
        next.set_zn(data);
        next.s = up(self.s);
        next.a = data;
        next.moved(S::FetchOpcode)
    }

    fn addressed(&self, data: u8) -> (next: CPU)
        ensures
            next == self.after_addressing(data),
    {
        reveal(CPU::after_addressing);
        match self.state.0 {
            S::ImmediateR(oc) => self.immediate(oc, data),
            S::ZeroPage(oc) => CPU { pc: forward(self.pc, 1), ..*self }.moved(
                S::ExecuteOnAddress(oc, data as u16, 0),
            ),
            S::ZeroPageX(oc) => CPU { pc: forward(self.pc, 1), ..*self }.moved(
                S::FakeThenActual(oc, data as u16, indexed(data, self.x) as u16),
            ),
            S::ZeroPageY(oc) => CPU { pc: forward(self.pc, 1), ..*self }.moved(
                S::FakeThenActual(oc, data as u16, indexed(data, self.y) as u16),
            ),
            S::FakeThenActual(oc, base, addr) => self.moved(
                S::ExecuteOnAddress(oc, addr, high_byte(base)),
            ),
            S::ExecuteOnAddress(oc, addr, _) => self.operand_met(oc, addr, data),
            S::WriteBackThenWrite(addr, _, next_val) => self.moved(S::Write(addr, next_val)),
            S::Write(_, _) => self.moved(S::FetchOpcode),
            S::Absolute(oc) => CPU { pc: forward(self.pc, 2), ..*self }.moved(
                S::AddLowHighNoPen(oc, forward(self.pc, 1), data),
            ),
            S::AbsoluteX(oc) => CPU { pc: forward(self.pc, 2), ..*self }.moved(
                S::AddLowHigh(oc, forward(self.pc, 1), data as u16 + self.x as u16),
            ),
            S::AbsoluteY(oc) => CPU { pc: forward(self.pc, 2), ..*self }.moved(
                S::AddLowHigh(oc, forward(self.pc, 1), data as u16 + self.y as u16),
            ),
            S::AddLowHighNoPen(oc, _, low) => self.moved(
                S::ExecuteOnAddress(oc, make_word(data, low), data),
            ),
            S::AddLowHigh(oc, _, low_word) => self.moved(
                next_after_high_byte(self, oc, data, low_word),
            ),
            S::IndexedIndirect(oc) => CPU { pc: forward(self.pc, 1), ..*self }.moved(
                S::IndexedIndirect2(oc, data),
            ),
            S::IndexedIndirect2(oc, base) => self.moved(S::IndexedIndirect3(oc, base)),
            S::IndexedIndirect3(oc, base) => self.moved(
                S::AddLowHighNoPen(oc, up(indexed(base, self.x)) as u16, data),
            ),
            S::IndirectIndexed(oc) => CPU { pc: forward(self.pc, 1), ..*self }.moved(
                S::IndirectIndexed2(oc, data),
            ),
            S::IndirectIndexed2(oc, base) => self.moved(
                S::AddLowHigh(oc, up(base) as u16, data as u16 + self.y as u16),
            ),
            S::AccRW(oc) => self.accumulator(oc),
            _ => *self,
        }
    }

    fn flowed(&self, data: u8) -> (next: CPU)
        ensures
            next == self.after_flow(data),
    {
        reveal(CPU::after_flow);
        match self.state.0 {
            S::Relative(oc) => {
                let taken = oc.execute(self);
                CPU { pc: forward(self.pc, 1), ..*self }.moved(
                    if taken {
                        S::Relative2(data)
                    } else {
                        S::FetchOpcode
                    },
                )
            },
            S::Relative2(offset) => self.branched(offset),
            S::Relative3(_) => self.moved(S::FetchOpcode),
            S::Implied(oc) => self.implied(oc),
            S::RTI => self.moved(S::RTI2),
            S::RTI2 => CPU { s: up(self.s), ..*self }.moved(S::RTI3),
            S::RTI3 => CPU {
                s: up(self.s),
                flags: Flags::from_bits_truncate(data),
                ..*self
            }.moved(S::RTI4),
            S::RTI4 => CPU { s: up(self.s), ..*self }.moved(S::RTI5(data)),
            S::RTI5(pcl) => CPU { pc: make_word(data, pcl), ..*self }.moved(S::FetchOpcode),
            S::RTS => self.moved(S::RTS2),
            S::RTS2 => CPU { s: up(self.s), ..*self }.moved(S::RTS3),
            S::RTS3 => CPU { s: up(self.s), ..*self }.moved(S::RTS4(data)),
            S::RTS4(pcl) => CPU { pc: make_word(data, pcl), ..*self }.moved(S::RTS5),
            S::RTS5 => CPU { pc: forward(self.pc, 1), ..*self }.moved(S::FetchOpcode),
            S::PHP => self.moved(S::PHPA(self.flags.pushed_bits(true))),
            S::PHA => self.moved(S::PHPA(self.a)),
            S::PHPA(_) => CPU { s: down(self.s), ..*self }.moved(S::FetchOpcode),
            S::PLP => self.moved(S::PLP2),
            S::PLP2 => self.moved(S::PLP3),
            S::PLP3 => CPU {
                s: up(self.s),
                flags: Flags::from_bits_truncate(data),
                ..*self
            }.moved(S::FetchOpcode),
            S::PLA => self.moved(S::PLA2),
            S::PLA2 => self.moved(S::PLA3),
            S::PLA3 => self.pulled_a(data),
            S::JSR => CPU { pc: forward(self.pc, 1), ..*self }.moved(S::JSR2(data)),
            S::JSR2(pcl) => self.moved(S::JSR3(pcl)),
            S::JSR3(pcl) => CPU { s: down(self.s), ..*self }.moved(S::JSR4(pcl)),
            S::JSR4(pcl) => CPU { s: down(self.s), ..*self }.moved(S::JSR5(pcl)),
            S::JSR5(pcl) => CPU { pc: make_word(data, pcl), ..*self }.moved(S::FetchOpcode),
            S::JMPAbsolute => CPU { pc: forward(self.pc, 1), ..*self }.moved(
                S::JMPAbsolute2(data),
            ),
            S::JMPAbsolute2(pcl) => CPU { pc: make_word(data, pcl), ..*self }.moved(S::FetchOpcode),
            S::JMPIndirect => CPU { pc: forward(self.pc, 1), ..*self }.moved(
                S::JMPIndirect2(data),
            ),
            S::JMPIndirect2(low) => self.moved(S::JMPIndirect3(make_word(data, low))),
            S::JMPIndirect3(pointer) => self.moved(S::JMPIndirect4(pointer, data)),
            S::JMPIndirect4(_, pcl) => CPU { pc: make_word(data, pcl), ..*self }.moved(
                S::FetchOpcode,
            ),
            _ => *self,
        }
    }

    fn interrupted(&self, data: u8) -> (next: CPU)
        ensures
            next == self.after_interrupt(data),
    {
        reveal(CPU::after_interrupt);
        match self.state.0 {
            S::Reset => self.moved(S::Int(Interrupt::Reset)),
            S::Int(interrupt) => {
                let pc = match interrupt {
                    Interrupt::BRK => forward(self.pc, 1),
                    _ => self.pc,
                };
                CPU { pc, ..*self }.moved(S::Int2(interrupt))
            },
            S::Int2(interrupt) => CPU { s: down(self.s), ..*self }.moved(
                S::Int3(interrupt),
            ),
            S::Int3(interrupt) => {
                let nmi_latched = match self.nmi {
                    Line::Idle => false,
                    _ => true,
                };
                let s = down(self.s);
                match interrupt {
                    Interrupt::BRK => {
                        if nmi_latched {
                            CPU { s, nmi: Line::Idle, ..*self }.moved(S::Int4(Interrupt::NMI, true))
                        } else {
                            CPU { s, ..*self }.moved(S::Int4(Interrupt::BRK, true))
                        }
                    },
                    Interrupt::IRQ => {
                        if nmi_latched {
                            CPU { s, nmi: Line::Idle, ..*self }.moved(S::Int4(Interrupt::NMI, false))
                        } else {
                            CPU { s, ..*self }.moved(S::Int4(Interrupt::IRQ, false))
                        }
                    },
                    _ => CPU { s, ..*self }.moved(S::Int4(interrupt, false)),
                }
            },
            S::Int4(interrupt, _) => {
                let mut next = CPU { s: down(self.s), ..*self };
                next.flags.i = true;
                next.moved(S::Int5(interrupt))
            },
            S::Int5(interrupt) => self.moved(S::Int6(interrupt, data)),
            S::Int6(_, pcl) => CPU { pc: make_word(data, pcl), ..*self }.moved(S::FetchOpcode),
            _ => *self,
        }
    }

    /// The CPU after the cycle that it is about to make, computed.
    pub(crate) fn cycled(&self, data: u8) -> (next: CPU)
        ensures
            next == self.after_cycle(data),
    {
        reveal(CPU::after_cycle);
        match self.state.0 {
            S::FetchOpcode => self.fetched(data),
            S::Reset | S::Int(_) | S::Int2(_) | S::Int3(_) | S::Int4(_, _) | S::Int5(_) | S::Int6(
                _,
                _,
            ) => self.interrupted(data),
            S::ZeroPage(_) | S::ZeroPageX(_) | S::ZeroPageY(_) | S::AbsoluteX(_) | S::AbsoluteY(_)
            | S::Absolute(_) | S::IndexedIndirect(_) | S::IndexedIndirect2(_, _)
            | S::IndexedIndirect3(_, _) | S::IndirectIndexed(_) | S::IndirectIndexed2(_, _)
            | S::AddLowHigh(_, _, _) | S::AddLowHighNoPen(_, _, _) | S::FakeThenActual(_, _, _)
            | S::ExecuteOnAddress(_, _, _) | S::WriteBackThenWrite(_, _, _) | S::Write(_, _)
            | S::ImmediateR(_) | S::AccRW(_) => self.addressed(data),
            _ => self.flowed(data),
        }
    }
}

} // verus!
