//! What holds of the CPU over more than one cycle.

use vstd::prelude::*;
use super::cycle::BusRequest;
use super::decode::{decode, lemma_decode_bound};
use super::ops::{
    lemma_implied_op_frame, lemma_read_op_frame, lemma_read_write_op_frame, signed, Op, ReadOp,
};
use super::state::{Interrupt, S};
use super::{Line, CPU};

verus! {

impl CPU {
    /// The CPU after as many cycles as `data` has bytes, the bus having
    /// returned those bytes in turn.
    pub open spec fn run(self, data: Seq<u8>) -> CPU
        decreases data.len(),
    {
        if data.len() == 0 {
            self
        } else {
            self.after_cycle(data[0]).run(data.skip(1))
        }
    }
}

/// The flags of an addition with carry: C says that the unsigned sum does not
/// fit in a byte, Z that the low eight bits are zero, N that bit 7 of them is
/// set, V that the signed sum does not fit in a signed byte.
pub proof fn lemma_adc_flags(cpu: CPU, m: u8)
    ensures
        ({
            let after = ReadOp::ADC.apply(cpu, m);
            let carry = if cpu.flags.c { 1int } else { 0 };
            &&& after.a == (cpu.a + m + carry) % 256
            &&& after.flags.c == (cpu.a + m + carry >= 256)
            &&& after.flags.z == (after.a == 0)
            &&& after.flags.n == (after.a >= 128)
            &&& after.flags.v == (signed(cpu.a) + signed(m) + carry > 127 || signed(cpu.a) + signed(m)
                + carry < -128)
        }),
{
    reveal(ReadOp::apply);
}

/// A subtraction with borrow is the addition of the operand's complement: C
/// says that there was no borrow, Z and N come from the low eight bits of
/// the difference, V says that the signed difference does not fit in a
/// signed byte.
pub proof fn lemma_sbc_flags(cpu: CPU, m: u8)
    ensures
        ReadOp::SBC.apply(cpu, m) == ReadOp::ADC.apply(cpu, (255 - m) as u8),
        ({
            let after = ReadOp::SBC.apply(cpu, m);
            let borrow = if cpu.flags.c { 0int } else { 1 };
            &&& after.a == (cpu.a - m - borrow) % 256
            &&& after.flags.c == (cpu.a - m - borrow >= 0)
            &&& after.flags.z == (after.a == 0)
            &&& after.flags.n == (after.a >= 128)
            &&& after.flags.v == (signed(cpu.a) - signed(m) - borrow > 127 || signed(cpu.a) - signed(m)
                - borrow < -128)
        }),
{
    let n = (255 - m) as u8;
    let carry = if cpu.flags.c { 1int } else { 0 };
    let diff = cpu.a - m - (1 - carry);
    assert(ReadOp::SBC.apply(cpu, m) == ReadOp::ADC.apply(cpu, n)) by {
        reveal(ReadOp::apply);
    }
    lemma_adc_flags(cpu, n);
    assert(cpu.a + n + carry == 256 + diff);
    assert(signed(n) == -signed(m) - 1);
    vstd::arithmetic::div_mod::lemma_mod_add_multiples_vanish(diff, 256);
}

/// What an opcode fetch leads to: an interrupt sequence when one is due,
/// else the micro-state that the opcode table gives, and the CPU as it was
/// for a byte that is no instruction.
pub proof fn lemma_fetch(cpu: CPU, data: u8)
    requires
        cpu.state.0 is FetchOpcode,
    ensures
        cpu.rejects(data) ==> cpu.after_cycle(data) == cpu,
        !cpu.rejects(data) ==> !(cpu.after_cycle(data).state.0 is FetchOpcode) && cpu.after_cycle(
            data,
        ).state.0.remaining() <= 7,
        cpu.interrupt_due() matches Some(interrupt) ==> cpu.after_cycle(data).state.0 == S::Int(
            interrupt,
        ),
        cpu.interrupt_due() is None ==> (decode(data) matches Some(s) ==> cpu.after_cycle(
            data,
        ).state.0 == s && cpu.after_cycle(data).pc == super::cycle::advanced(cpu.pc, 1)),
{
    reveal(CPU::after_cycle);
    reveal(CPU::after_fetch);
    lemma_decode_bound(data);
}

proof fn lemma_addressing_progress(cpu: CPU, data: u8)
    ensures
        cpu.after_addressing(data).state.0.remaining() < cpu.state.0.remaining()
            || cpu.after_addressing(data) == cpu,
{
    reveal(CPU::after_addressing);
    if cpu.state.0 is ZeroPage {
        assert(cpu.after_addressing(data).state.0.remaining() < cpu.state.0.remaining());
    }
    if cpu.state.0 is ZeroPageX {
        assert(cpu.after_addressing(data).state.0.remaining() < cpu.state.0.remaining());
    }
    if cpu.state.0 is ZeroPageY {
        assert(cpu.after_addressing(data).state.0.remaining() < cpu.state.0.remaining());
    }
    if cpu.state.0 is AbsoluteX {
        assert(cpu.after_addressing(data).state.0.remaining() < cpu.state.0.remaining());
    }
    if cpu.state.0 is AbsoluteY {
        assert(cpu.after_addressing(data).state.0.remaining() < cpu.state.0.remaining());
    }
    if cpu.state.0 is Absolute {
        assert(cpu.after_addressing(data).state.0.remaining() < cpu.state.0.remaining());
    }
    if cpu.state.0 is IndexedIndirect {
        assert(cpu.after_addressing(data).state.0.remaining() < cpu.state.0.remaining());
    }
    if cpu.state.0 is IndexedIndirect2 {
        assert(cpu.after_addressing(data).state.0.remaining() < cpu.state.0.remaining());
    }
    if cpu.state.0 is IndexedIndirect3 {
        assert(cpu.after_addressing(data).state.0.remaining() < cpu.state.0.remaining());
    }
    if cpu.state.0 is IndirectIndexed {
        assert(cpu.after_addressing(data).state.0.remaining() < cpu.state.0.remaining());
    }
    if cpu.state.0 is IndirectIndexed2 {
        assert(cpu.after_addressing(data).state.0.remaining() < cpu.state.0.remaining());
    }
    if cpu.state.0 is AddLowHigh {
        assert(cpu.after_addressing(data).state.0.remaining() < cpu.state.0.remaining());
    }
    if cpu.state.0 is AddLowHighNoPen {
        assert(cpu.after_addressing(data).state.0.remaining() < cpu.state.0.remaining());
    }
    if cpu.state.0 is FakeThenActual {
        assert(cpu.after_addressing(data).state.0.remaining() < cpu.state.0.remaining());
    }
    if cpu.state.0 is ExecuteOnAddress {
        assert(cpu.after_addressing(data).state.0.remaining() < cpu.state.0.remaining());
    }
    if cpu.state.0 is WriteBackThenWrite {
        assert(cpu.after_addressing(data).state.0.remaining() < cpu.state.0.remaining());
    }
    if cpu.state.0 is Write {
        assert(cpu.after_addressing(data).state.0.remaining() < cpu.state.0.remaining());
    }
    if cpu.state.0 is ImmediateR {
        assert(cpu.after_addressing(data).state.0.remaining() < cpu.state.0.remaining());
    }
    if cpu.state.0 is AccRW {
        assert(cpu.after_addressing(data).state.0.remaining() < cpu.state.0.remaining());
    }
}

proof fn lemma_flow_progress(cpu: CPU, data: u8)
    ensures
        cpu.after_flow(data).state.0.remaining() < cpu.state.0.remaining() || cpu.after_flow(data)
            == cpu,
{
    reveal(CPU::after_flow);
    if cpu.state.0 is Relative {
        assert(cpu.after_flow(data).state.0.remaining() < cpu.state.0.remaining());
    }
    if cpu.state.0 is Relative2 {
        assert(cpu.after_flow(data).state.0.remaining() < cpu.state.0.remaining());
    }
    if cpu.state.0 is Relative3 {
        assert(cpu.after_flow(data).state.0.remaining() < cpu.state.0.remaining());
    }
    if cpu.state.0 is Implied {
        assert(cpu.after_flow(data).state.0.remaining() < cpu.state.0.remaining());
    }
    if cpu.state.0 is RTI {
        assert(cpu.after_flow(data).state.0.remaining() < cpu.state.0.remaining());
    }
    if cpu.state.0 is RTI2 {
        assert(cpu.after_flow(data).state.0.remaining() < cpu.state.0.remaining());
    }
    if cpu.state.0 is RTI3 {
        assert(cpu.after_flow(data).state.0.remaining() < cpu.state.0.remaining());
    }
    if cpu.state.0 is RTI4 {
        assert(cpu.after_flow(data).state.0.remaining() < cpu.state.0.remaining());
    }
    if cpu.state.0 is RTI5 {
        assert(cpu.after_flow(data).state.0.remaining() < cpu.state.0.remaining());
    }
    if cpu.state.0 is RTS {
        assert(cpu.after_flow(data).state.0.remaining() < cpu.state.0.remaining());
    }
    if cpu.state.0 is RTS2 {
        assert(cpu.after_flow(data).state.0.remaining() < cpu.state.0.remaining());
    }
    if cpu.state.0 is RTS3 {
        assert(cpu.after_flow(data).state.0.remaining() < cpu.state.0.remaining());
    }
    if cpu.state.0 is RTS4 {
        assert(cpu.after_flow(data).state.0.remaining() < cpu.state.0.remaining());
    }
    if cpu.state.0 is RTS5 {
        assert(cpu.after_flow(data).state.0.remaining() < cpu.state.0.remaining());
    }
    if cpu.state.0 is PHA {
        assert(cpu.after_flow(data).state.0.remaining() < cpu.state.0.remaining());
    }
    if cpu.state.0 is PHP {
        assert(cpu.after_flow(data).state.0.remaining() < cpu.state.0.remaining());
    }
    if cpu.state.0 is PHPA {
        assert(cpu.after_flow(data).state.0.remaining() < cpu.state.0.remaining());
    }
    if cpu.state.0 is PLA {
        assert(cpu.after_flow(data).state.0.remaining() < cpu.state.0.remaining());
    }
    if cpu.state.0 is PLA2 {
        assert(cpu.after_flow(data).state.0.remaining() < cpu.state.0.remaining());
    }
    if cpu.state.0 is PLA3 {
        assert(cpu.after_flow(data).state.0.remaining() < cpu.state.0.remaining());
    }
    if cpu.state.0 is PLP {
        assert(cpu.after_flow(data).state.0.remaining() < cpu.state.0.remaining());
    }
    if cpu.state.0 is PLP2 {
        assert(cpu.after_flow(data).state.0.remaining() < cpu.state.0.remaining());
    }
    if cpu.state.0 is PLP3 {
        assert(cpu.after_flow(data).state.0.remaining() < cpu.state.0.remaining());
    }
    if cpu.state.0 is JSR {
        assert(cpu.after_flow(data).state.0.remaining() < cpu.state.0.remaining());
    }
    if cpu.state.0 is JSR2 {
        assert(cpu.after_flow(data).state.0.remaining() < cpu.state.0.remaining());
    }
    if cpu.state.0 is JSR3 {
        assert(cpu.after_flow(data).state.0.remaining() < cpu.state.0.remaining());
    }
    if cpu.state.0 is JSR4 {
        assert(cpu.after_flow(data).state.0.remaining() < cpu.state.0.remaining());
    }
    if cpu.state.0 is JSR5 {
        assert(cpu.after_flow(data).state.0.remaining() < cpu.state.0.remaining());
    }
    if cpu.state.0 is JMPAbsolute {
        assert(cpu.after_flow(data).state.0.remaining() < cpu.state.0.remaining());
    }
    if cpu.state.0 is JMPAbsolute2 {
        assert(cpu.after_flow(data).state.0.remaining() < cpu.state.0.remaining());
    }
    if cpu.state.0 is JMPIndirect {
        assert(cpu.after_flow(data).state.0.remaining() < cpu.state.0.remaining());
    }
    if cpu.state.0 is JMPIndirect2 {
        assert(cpu.after_flow(data).state.0.remaining() < cpu.state.0.remaining());
    }
    if cpu.state.0 is JMPIndirect3 {
        assert(cpu.after_flow(data).state.0.remaining() < cpu.state.0.remaining());
    }
    if cpu.state.0 is JMPIndirect4 {
        assert(cpu.after_flow(data).state.0.remaining() < cpu.state.0.remaining());
    }
}

proof fn lemma_interrupt_progress(cpu: CPU, data: u8)
    ensures
        cpu.after_interrupt(data).state.0.remaining() < cpu.state.0.remaining()
            || cpu.after_interrupt(data) == cpu,
{
    reveal(CPU::after_interrupt);
}

/// A cycle that does not start at an opcode fetch brings the CPU strictly
/// nearer to the next one.
pub proof fn lemma_cycle_progress(cpu: CPU, data: u8)
    requires
        !(cpu.state.0 is FetchOpcode),
    ensures
        cpu.after_cycle(data).state.0.remaining() < cpu.state.0.remaining(),
{
    reveal(CPU::after_cycle);
    lemma_addressing_progress(cpu, data);
    lemma_flow_progress(cpu, data);
    lemma_interrupt_progress(cpu, data);
    if cpu.after_cycle(data) == cpu {
        reveal(CPU::after_addressing);
        reveal(CPU::after_flow);
        reveal(CPU::after_interrupt);
    }
}

/// From a micro-state inside an instruction, the next opcode fetch is reached
/// after at most `remaining` cycles, whatever the bus returns.
pub proof fn lemma_returns_to_fetch(cpu: CPU, data: Seq<u8>) -> (n: int)
    requires
        !(cpu.state.0 is FetchOpcode),
        data.len() >= cpu.state.0.remaining(),
    ensures
        1 <= n <= cpu.state.0.remaining(),
        cpu.run(data.take(n)).state.0 is FetchOpcode,
        forall|k: int| 0 <= k < n ==> !(#[trigger] cpu.run(data.take(k)).state.0 is FetchOpcode),
    decreases cpu.state.0.remaining(),
{
    let next = cpu.after_cycle(data[0]);
    lemma_cycle_progress(cpu, data[0]);
    assert(cpu.run(data.take(0)) == cpu);
    if next.state.0 is FetchOpcode {
        assert(data.take(1).skip(1) =~= Seq::<u8>::empty());
        assert(cpu.run(data.take(1)) == next.run(data.take(1).skip(1)));
        assert forall|k: int| 0 <= k < 1 implies !(#[trigger] cpu.run(data.take(k)).state.0
            is FetchOpcode) by {
            assert(k == 0);
        }
        1
    } else {
        let rest = data.skip(1);
        let m = lemma_returns_to_fetch(next, rest);
        assert forall|k: int| 0 <= k <= m implies #[trigger] cpu.run(data.take(k + 1)) == next.run(
            rest.take(k),
        ) by {
            assert(data.take(k + 1).skip(1) =~= rest.take(k));
            assert(data.take(k + 1)[0] == data[0]);
        }
        assert forall|k: int| 0 <= k < m + 1 implies !(#[trigger] cpu.run(data.take(k)).state.0
            is FetchOpcode) by {
            if k > 0 {
                assert(cpu.run(data.take((k - 1) + 1)) == next.run(rest.take(k - 1)));
            }
        }
        assert(cpu.run(data.take(m + 1)) == next.run(rest.take(m)));
        m + 1
    }
}

/// An instruction takes at most eight cycles: from an opcode fetch that is
/// not refused, the CPU is back at an opcode fetch after between one and
/// eight cycles, whatever the bus returns, and at no cycle in between.
pub proof fn lemma_instruction_within_eight_cycles(cpu: CPU, data: Seq<u8>) -> (n: int)
    requires
        cpu.state.0 is FetchOpcode,
        data.len() >= 8,
        !cpu.rejects(data[0]),
    ensures
        2 <= n <= 8,
        cpu.run(data.take(n)).state.0 is FetchOpcode,
        forall|k: int| 0 < k < n ==> !(#[trigger] cpu.run(data.take(k)).state.0 is FetchOpcode),
{
    let next = cpu.after_cycle(data[0]);
    lemma_fetch(cpu, data[0]);
    let rest = data.skip(1);
    let m = lemma_returns_to_fetch(next, rest);
    assert forall|k: int| 0 <= k <= m implies #[trigger] cpu.run(data.take(k + 1)) == next.run(
        rest.take(k),
    ) by {
        assert(data.take(k + 1).skip(1) =~= rest.take(k));
        assert(data.take(k + 1)[0] == data[0]);
    }
    assert forall|k: int| 0 < k < m + 1 implies !(#[trigger] cpu.run(data.take(k)).state.0
        is FetchOpcode) by {
        assert(cpu.run(data.take((k - 1) + 1)) == next.run(rest.take(k - 1)));
    }
    assert(cpu.run(data.take(m + 1)) == next.run(rest.take(m)));
    m + 1
}

/// What can happen to the CPU: a signal on the NMI input, a poll of the
/// inputs, or a cycle in which the bus returns a byte.
pub enum CpuEvent {
    SetNmi,
    Poll,
    Cycle(u8),
}

/// One when the latch is armed, else zero.
pub open spec fn armed(line: Line) -> nat {
    if line is Armed {
        1
    } else {
        0
    }
}

impl CPU {
    /// Whether the cycle that the CPU is about to make takes a `BRK` or an
    /// IRQ over for an NMI: the sequence has just pushed the low byte of the
    /// return address, and an NMI has been signalled.
    pub open spec fn takes_over(self) -> bool {
        self.state.0 matches S::Int3(interrupt) && (interrupt is BRK || interrupt is IRQ) && !(
        self.nmi is Idle)
    }

    /// Whether the cycle that the CPU is about to make starts the NMI
    /// sequence: at an opcode fetch, for an NMI that a poll has seen, or by
    /// taking over a `BRK` or an IRQ.
    pub open spec fn enters_nmi(self) -> bool {
        ||| self.state.0 is FetchOpcode && self.nmi is Armed
        ||| self.takes_over()
    }

    /// The CPU after one event.
    pub open spec fn after_event(self, event: CpuEvent) -> CPU {
        match event {
            CpuEvent::SetNmi => CPU { nmi: self.nmi.raised(), ..self },
            CpuEvent::Poll => CPU { nmi: self.nmi.polled(), irq: self.irq.polled(), ..self },
            CpuEvent::Cycle(data) => self.after_cycle(data),
        }
    }

    /// The CPU after a sequence of events.
    pub open spec fn after_events(self, events: Seq<CpuEvent>) -> CPU
        decreases events.len(),
    {
        if events.len() == 0 {
            self
        } else {
            self.after_event(events[0]).after_events(events.skip(1))
        }
    }

    /// Whether the event sees an edge on the NMI input for the first time:
    /// a poll that finds a signalled NMI, or a cycle that takes a sequence
    /// over for an NMI that no poll has seen yet.
    pub open spec fn sees_edge(self, event: CpuEvent) -> bool {
        ||| event is Poll && self.nmi is Pending
        ||| event is Cycle && self.takes_over() && self.nmi is Pending
    }

    /// The number of edges on the NMI input that the events in `events` have
    /// seen.
    pub open spec fn nmi_edges_seen(self, events: Seq<CpuEvent>) -> nat
        decreases events.len(),
    {
        if events.len() == 0 {
            0
        } else {
            (if self.sees_edge(events[0]) {
                1nat
            } else {
                0
            }) + self.after_event(events[0]).nmi_edges_seen(events.skip(1))
        }
    }

    /// The number of cycles in `events` that started the NMI sequence.
    pub open spec fn nmi_entries(self, events: Seq<CpuEvent>) -> nat
        decreases events.len(),
    {
        if events.len() == 0 {
            0
        } else {
            (if events[0] is Cycle && self.enters_nmi() {
                1nat
            } else {
                0
            }) + self.after_event(events[0]).nmi_entries(events.skip(1))
        }
    }
}

proof fn lemma_addressing_keeps_nmi(cpu: CPU, data: u8)
    ensures
        cpu.after_addressing(data).nmi == cpu.nmi,
{
    reveal(CPU::after_addressing);
    match cpu.state.0 {
        S::ImmediateR(oc) => lemma_read_op_frame(oc, cpu, data),
        S::AccRW(oc) => lemma_read_write_op_frame(oc, cpu, cpu.a),
        S::ExecuteOnAddress(Op::Read(ro), _, _) => lemma_read_op_frame(ro, cpu, data),
        S::ExecuteOnAddress(Op::ReadWrite(rw), _, _) => lemma_read_write_op_frame(rw, cpu, data),
        _ => {},
    }
    if cpu.state.0 is ZeroPage {
        assert(cpu.after_addressing(data).nmi == cpu.nmi);
    }
    if cpu.state.0 is ZeroPageX {
        assert(cpu.after_addressing(data).nmi == cpu.nmi);
    }
    if cpu.state.0 is ZeroPageY {
        assert(cpu.after_addressing(data).nmi == cpu.nmi);
    }
    if cpu.state.0 is AbsoluteX {
        assert(cpu.after_addressing(data).nmi == cpu.nmi);
    }
    if cpu.state.0 is AbsoluteY {
        assert(cpu.after_addressing(data).nmi == cpu.nmi);
    }
    if cpu.state.0 is Absolute {
        assert(cpu.after_addressing(data).nmi == cpu.nmi);
    }
    if cpu.state.0 is IndexedIndirect {
        assert(cpu.after_addressing(data).nmi == cpu.nmi);
    }
    if cpu.state.0 is IndexedIndirect2 {
        assert(cpu.after_addressing(data).nmi == cpu.nmi);
    }
    if cpu.state.0 is IndexedIndirect3 {
        assert(cpu.after_addressing(data).nmi == cpu.nmi);
    }
    if cpu.state.0 is IndirectIndexed {
        assert(cpu.after_addressing(data).nmi == cpu.nmi);
    }
    if cpu.state.0 is IndirectIndexed2 {
        assert(cpu.after_addressing(data).nmi == cpu.nmi);
    }
    if cpu.state.0 is AddLowHigh {
        assert(cpu.after_addressing(data).nmi == cpu.nmi);
    }
    if cpu.state.0 is AddLowHighNoPen {
        assert(cpu.after_addressing(data).nmi == cpu.nmi);
    }
    if cpu.state.0 is FakeThenActual {
        assert(cpu.after_addressing(data).nmi == cpu.nmi);
    }
    if cpu.state.0 is WriteBackThenWrite {
        assert(cpu.after_addressing(data).nmi == cpu.nmi);
    }
    if cpu.state.0 is Write {
        assert(cpu.after_addressing(data).nmi == cpu.nmi);
    }
}

proof fn lemma_flow_keeps_nmi(cpu: CPU, data: u8)
    ensures
        cpu.after_flow(data).nmi == cpu.nmi,
{
    reveal(CPU::after_flow);
    match cpu.state.0 {
        S::Implied(oc) => lemma_implied_op_frame(oc, cpu),
        _ => {},
    }
    if cpu.state.0 is Relative {
        assert(cpu.after_flow(data).nmi == cpu.nmi);
    }
    if cpu.state.0 is Relative2 {
        assert(cpu.after_flow(data).nmi == cpu.nmi);
    }
    if cpu.state.0 is Relative3 {
        assert(cpu.after_flow(data).nmi == cpu.nmi);
    }
    if cpu.state.0 is RTI {
        assert(cpu.after_flow(data).nmi == cpu.nmi);
    }
    if cpu.state.0 is RTI2 {
        assert(cpu.after_flow(data).nmi == cpu.nmi);
    }
    if cpu.state.0 is RTI3 {
        assert(cpu.after_flow(data).nmi == cpu.nmi);
    }
    if cpu.state.0 is RTI4 {
        assert(cpu.after_flow(data).nmi == cpu.nmi);
    }
    if cpu.state.0 is RTI5 {
        assert(cpu.after_flow(data).nmi == cpu.nmi);
    }
    if cpu.state.0 is RTS {
        assert(cpu.after_flow(data).nmi == cpu.nmi);
    }
    if cpu.state.0 is RTS2 {
        assert(cpu.after_flow(data).nmi == cpu.nmi);
    }
    if cpu.state.0 is RTS3 {
        assert(cpu.after_flow(data).nmi == cpu.nmi);
    }
    if cpu.state.0 is RTS4 {
        assert(cpu.after_flow(data).nmi == cpu.nmi);
    }
    if cpu.state.0 is RTS5 {
        assert(cpu.after_flow(data).nmi == cpu.nmi);
    }
    if cpu.state.0 is PHA {
        assert(cpu.after_flow(data).nmi == cpu.nmi);
    }
    if cpu.state.0 is PHP {
        assert(cpu.after_flow(data).nmi == cpu.nmi);
    }
    if cpu.state.0 is PHPA {
        assert(cpu.after_flow(data).nmi == cpu.nmi);
    }
    if cpu.state.0 is PLA {
        assert(cpu.after_flow(data).nmi == cpu.nmi);
    }
    if cpu.state.0 is PLA2 {
        assert(cpu.after_flow(data).nmi == cpu.nmi);
    }
    if cpu.state.0 is PLA3 {
        assert(cpu.after_flow(data).nmi == cpu.nmi);
    }
    if cpu.state.0 is PLP {
        assert(cpu.after_flow(data).nmi == cpu.nmi);
    }
    if cpu.state.0 is PLP2 {
        assert(cpu.after_flow(data).nmi == cpu.nmi);
    }
    if cpu.state.0 is PLP3 {
        assert(cpu.after_flow(data).nmi == cpu.nmi);
    }
    if cpu.state.0 is JSR {
        assert(cpu.after_flow(data).nmi == cpu.nmi);
    }
    if cpu.state.0 is JSR2 {
        assert(cpu.after_flow(data).nmi == cpu.nmi);
    }
    if cpu.state.0 is JSR3 {
        assert(cpu.after_flow(data).nmi == cpu.nmi);
    }
    if cpu.state.0 is JSR4 {
        assert(cpu.after_flow(data).nmi == cpu.nmi);
    }
    if cpu.state.0 is JSR5 {
        assert(cpu.after_flow(data).nmi == cpu.nmi);
    }
    if cpu.state.0 is JMPAbsolute {
        assert(cpu.after_flow(data).nmi == cpu.nmi);
    }
    if cpu.state.0 is JMPAbsolute2 {
        assert(cpu.after_flow(data).nmi == cpu.nmi);
    }
    if cpu.state.0 is JMPIndirect {
        assert(cpu.after_flow(data).nmi == cpu.nmi);
    }
    if cpu.state.0 is JMPIndirect2 {
        assert(cpu.after_flow(data).nmi == cpu.nmi);
    }
    if cpu.state.0 is JMPIndirect3 {
        assert(cpu.after_flow(data).nmi == cpu.nmi);
    }
    if cpu.state.0 is JMPIndirect4 {
        assert(cpu.after_flow(data).nmi == cpu.nmi);
    }
}

/// A cycle that starts the NMI sequence finds an NMI signalled and leaves
/// the latch idle; every other cycle leaves the latch as it is. A sequence
/// that is in its third cycle for a `BRK` or an IRQ goes on as the NMI
/// sequence exactly when an NMI is signalled, polled or not.
pub proof fn lemma_cycle_nmi(cpu: CPU, data: u8)
    ensures
        cpu.enters_nmi() ==> !(cpu.nmi is Idle) && cpu.after_cycle(data).nmi is Idle,
        !cpu.enters_nmi() ==> cpu.after_cycle(data).nmi == cpu.nmi,
        cpu.state.0 matches S::Int3(interrupt) ==> cpu.after_cycle(data).state.0 == S::Int4(
            if cpu.takes_over() {
                Interrupt::NMI
            } else {
                interrupt
            },
            interrupt is BRK,
        ),
{
    reveal(CPU::after_cycle);
    reveal(CPU::after_fetch);
    reveal(CPU::after_interrupt);
    lemma_addressing_keeps_nmi(cpu, data);
    lemma_flow_keeps_nmi(cpu, data);
}

/// Every edge on the NMI input that a poll has seen, or that a `BRK` or an
/// IRQ was taken over for before its poll, starts the NMI sequence exactly
/// once: over any sequence of signals, polls and cycles, the edges seen are
/// as many as the sequences started, but for an edge that is still armed at
/// the end, and for one that was armed at the start.
pub proof fn lemma_one_nmi_entry_per_edge(cpu: CPU, events: Seq<CpuEvent>)
    ensures
        armed(cpu.nmi) + cpu.nmi_edges_seen(events) == cpu.nmi_entries(events) + armed(
            cpu.after_events(events).nmi,
        ),
    decreases events.len(),
{
    if events.len() > 0 {
        let next = cpu.after_event(events[0]);
        if let CpuEvent::Cycle(data) = events[0] {
            lemma_cycle_nmi(cpu, data);
        }
        lemma_one_nmi_entry_per_edge(next, events.skip(1));
    }
}

/// No micro-state is more than seven cycles from the next opcode fetch.
pub proof fn lemma_remaining_bound(s: S)
    ensures
        s.remaining() <= 7,
{
}

/// After a write to a place outside the stack the instruction is over, or
/// will be after one more write; and the last write of an instruction is
/// followed by the opcode fetch.
pub proof fn lemma_write_then_done(cpu: CPU, data: u8)
    ensures
        cpu.request() matches BusRequest::Write(addr, _) && addr >= 0x200 ==> cpu.after_cycle(
            data,
        ).state.0 is FetchOpcode || cpu.after_cycle(data).state.0 is Write,
        cpu.state.0 is Write ==> cpu.after_cycle(data).state.0 is FetchOpcode,
{
    reveal(CPU::after_cycle);
    reveal(CPU::after_addressing);
    if cpu.state.0 is ExecuteOnAddress {
        assert(cpu.request() is Write ==> cpu.after_cycle(data).state.0 is FetchOpcode);
    }
    if cpu.state.0 is WriteBackThenWrite {
        assert(cpu.after_cycle(data).state.0 is Write);
    }
    if cpu.state.0 is Write {
        assert(cpu.after_cycle(data).state.0 is FetchOpcode);
    }
}

/// An interrupt sequence sets I once it has pushed the status byte, before it
/// fetches its vector, whatever its source, and leaves the other flags alone:
/// what it pushes are the flags as they were.
pub proof fn lemma_interrupt_sets_i(cpu: CPU, low: u8, high: u8)
    requires
        cpu.state.0 is Int4,
    ensures
        cpu.request() matches BusRequest::Write(_, pushed) ==> pushed == cpu.flags.pushed(
            cpu.state.0->Int4_1,
        ),
        cpu.after_cycle(0).flags == (super::Flags { i: true, ..cpu.flags }),
        cpu.after_cycle(0).state.0 is Int5,
        cpu.after_cycle(0).after_cycle(low).after_cycle(high).flags == (super::Flags {
            i: true,
            ..cpu.flags
        }),
        cpu.after_cycle(0).after_cycle(low).after_cycle(high).state.0 is FetchOpcode,
        cpu.after_cycle(0).after_cycle(low).after_cycle(high).pc == high * 256 + low,
{
    reveal(CPU::after_cycle);
    reveal(CPU::after_interrupt);
}

} // verus!
