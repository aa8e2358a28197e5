//! The CPU: registers, status flags, interrupt latches and the cycle-by-cycle
//! state machine that drives the bus.

use vstd::prelude::*;

pub mod flags;
pub mod ops;
pub mod cycle;
pub mod decode;
pub mod laws;
pub mod state;

pub use super::fault::Fault;
pub use cycle::BusRequest;
pub use flags::{Flag, Flags};
pub use ops::{BranchOp, ImpliedOp, Op, ReadOp, ReadWriteOp, SHOp, WriteOp};
pub use state::{Interrupt, State, S};

verus! {

/// An interrupt input as the CPU latches it. A request is `Pending` until the
/// next poll and `Armed` from then on; only an armed request is acted on, so
/// the CPU sees a request one cycle after it was made.
#[derive(Debug, Clone, Copy, PartialEq, Eq, Structural)]
pub enum Line {
    Idle,
    Pending,
    Armed,
}

/// The processor: its registers, where it stands inside the current
/// instruction, and the two interrupt latches.
#[derive(Debug, Clone, Copy)]
pub struct CPU {
    pub pc: u16,
    pub s: u8,
    pub flags: Flags,
    pub a: u8,
    pub x: u8,
    pub y: u8,
    pub state: State,
    pub nmi: Line,
    pub irq: Line,
}

/// One access that a bus has carried out.
#[derive(Debug, Clone, Copy, PartialEq, Eq, Structural)]
pub enum BusAccess {
    Read { addr: u16, value: u8 },
    Write { addr: u16, value: u8 },
}

/// The bus as the CPU sees it. A host keeps, for its contracts, the record
/// of the accesses that it has carried out.
pub trait CpuHostAccess {
    /// What the host needs to hold in order to serve an access.
    spec fn wf(&self) -> bool;

    /// The accesses carried out so far, oldest first.
    spec fn accesses(&self) -> Seq<BusAccess>;

    /// Reads the byte at `addr`.
    fn read(&mut self, addr: u16) -> (value: u8)
        requires
            old(self).wf(),
        ensures
            final(self).wf(),
            final(self).accesses() == old(self).accesses().push(BusAccess::Read { addr, value }),
    ;

    /// Writes `value` to `addr`.
    fn write(&mut self, addr: u16, value: u8)
        requires
            old(self).wf(),
        ensures
            final(self).wf(),
            final(self).accesses() == old(self).accesses().push(BusAccess::Write { addr, value }),
    ;
}

impl BusRequest {
    /// What carrying the request out adds to the record of a bus, when a read
    /// returned `data`: nothing, or the one access.
    pub open spec fn carried_out(self, data: u8) -> Seq<BusAccess> {
        match self {
            BusRequest::Idle => Seq::empty(),
            BusRequest::Read(addr) => seq![BusAccess::Read { addr, value: data }],
            BusRequest::Write(addr, value) => seq![BusAccess::Write { addr, value }],
        }
    }

    /// The byte that the request brought back, read off the record of the
    /// bus after it: the value of the last access for a read, and zero for a
    /// request that reads nothing.
    pub open spec fn returned(self, record: Seq<BusAccess>) -> u8 {
        match self {
            BusRequest::Read(_) => match record.last() {
                BusAccess::Read { value, .. } => value,
                BusAccess::Write { value, .. } => value,
            },
            _ => 0,
        }
    }
}

impl Line {
    /// The latch after a poll: a pending request becomes armed.
    pub open spec fn polled(self) -> Line {
        match self {
            Line::Pending => Line::Armed,
            l => l,
        }
    }

    /// The latch after a request: an idle latch becomes pending, and a request
    /// that is already latched stays as it is.
    pub open spec fn raised(self) -> Line {
        match self {
            Line::Idle => Line::Pending,
            l => l,
        }
    }
}

impl CPU {
    /// The CPU as it is at power-on: every register zero, and the reset
    /// sequence about to start.
    pub open spec fn power_on() -> CPU {
        CPU {
            pc: 0,
            s: 0,
            flags: Flags::none(),
            a: 0,
            x: 0,
            y: 0,
            state: State(S::Reset),
            nmi: Line::Idle,
            irq: Line::Idle,
        }
    }

    /// The processor at power-on, about to run its reset sequence.
    pub fn new() -> (cpu: CPU)
        ensures
            cpu == CPU::power_on(),
    {
        CPU {
            pc: 0x0000,
            s: 0x00,
            flags: Flags::empty(),
            a: 0,
            x: 0,
            y: 0,
            state: State(S::Reset),
            nmi: Line::Idle,
            irq: Line::Idle,
        }
    }

    /// Starts the reset sequence: seven cycles that write nothing, the last
    /// two of which load the program counter from `$FFFC` and `$FFFD`.
    pub fn reset(&mut self)
        ensures
            *final(self) == old(self).at(S::Reset),
    {
        self.state = State(S::Reset);
    }

    /// Signals an edge on the NMI input.
    pub fn set_nmi(&mut self)
        ensures
            *final(self) == (CPU { nmi: old(self).nmi.raised(), ..*old(self) }),
    {
        self.nmi = match self.nmi {
            Line::Idle => Line::Pending,
            l => l,
        };
    }

    /// Takes a signalled NMI back.
    pub fn clear_nmi(&mut self)
        ensures
            *final(self) == (CPU { nmi: Line::Idle, ..*old(self) }),
    {
        self.nmi = Line::Idle;
    }

    /// Signals a level on the IRQ input.
    pub fn set_irq(&mut self)
        ensures
            *final(self) == (CPU { irq: old(self).irq.raised(), ..*old(self) }),
    {
        self.irq = match self.irq {
            Line::Idle => Line::Pending,
            l => l,
        };
    }

    /// Samples the interrupt inputs: what was signalled since the last poll
    /// is seen by the opcode fetches that follow.
    pub fn poll_interrupts(&mut self)
        ensures
            *final(self) == old(self).polled(),
    {
        self.nmi = match self.nmi {
            Line::Pending => Line::Armed,
            l => l,
        };
        self.irq = match self.irq {
            Line::Pending => Line::Armed,
            l => l,
        };
    }

    /// Puts the CPU at the start of the instruction at `addr`.
    pub fn jump_to_pc(&mut self, addr: u16)
        ensures
            *final(self) == (CPU { pc: addr, ..*old(self) }).at(S::FetchOpcode),
    {
        self.pc = addr;
        self.state = State(S::FetchOpcode);
    }

    /// Whether the next cycle fetches an opcode.
    pub fn is_at_instruction(&self) -> (b: bool)
        ensures
            b == (self.state.0 is FetchOpcode),
    {
        match self.state.0 {
            S::FetchOpcode => true,
            _ => false,
        }
    }

    /// Ends the cycle whose bus access returned `data`. A fetched byte that
    /// is no instruction is refused and leaves the CPU as it was.
    pub fn complete(&mut self, data: u8) -> (r: Result<(), Fault>)
        ensures
            old(self).rejects(data) ==> r == Err::<(), Fault>(Fault::IllegalOpcode(data))
                && *final(self) == *old(self),
            !old(self).rejects(data) ==> r is Ok && *final(self) == old(self).after_cycle(data),
    {
        let at_fetch = self.is_at_instruction();
        let next = self.cycled(data);
        proof {
            if at_fetch {
                laws::lemma_fetch(*self, data);
            }
        }
        if at_fetch && next.is_at_instruction() {
            Err(Fault::IllegalOpcode(data))
        } else {
            *self = next;
            Ok(())
        }
    }

    /// One cycle: at most one access to the bus, the one that `request`
    /// names, and the step to the next micro-state.
    pub fn tick<H: CpuHostAccess>(&mut self, host: &mut H) -> (r: Result<(), Fault>)
        requires
            old(host).wf(),
        ensures
            final(host).wf(),
            final(host).accesses().len() <= old(host).accesses().len() + 1,
            ({
                let request = old(self).request();
                let data = request.returned(final(host).accesses());
                &&& final(host).accesses() == old(host).accesses() + request.carried_out(data)
                &&& old(self).rejects(data) ==> r == Err::<(), Fault>(Fault::IllegalOpcode(data))
                    && *final(self) == *old(self)
                &&& !old(self).rejects(data) ==> r is Ok && *final(self) == old(self).after_cycle(
                    data,
                )
            }),
    {
        let data = match self.bus_request() {
            BusRequest::Idle => 0,
            BusRequest::Read(addr) => host.read(addr),
            BusRequest::Write(addr, value) => {
                host.write(addr, value);
                0
            },
        };
        proof {
            let request = old(self).request();
            assert(final(host).accesses() =~= old(host).accesses() + request.carried_out(data));
        }
        self.complete(data)
    }

    /// The CPU after a poll of its interrupt inputs.
    pub open spec fn polled(self) -> CPU {
        CPU { nmi: self.nmi.polled(), irq: self.irq.polled(), ..self }
    }

    /// The CPU after a signal on its NMI input, or none: `Some(true)` is an
    /// edge, `Some(false)` takes a signalled edge back.
    pub open spec fn signalled(self, signal: Option<bool>) -> CPU {
        match signal {
            Some(true) => CPU { nmi: self.nmi.raised(), ..self },
            Some(false) => CPU { nmi: Line::Idle, ..self },
            None => self,
        }
    }

    /// The CPU with `Z` and `N` taken from `value`.
    pub open spec fn with_zn(self, value: u8) -> CPU {
        CPU { flags: self.flags.with_zn(value), ..self }
    }

    /// The CPU with one flag replaced.
    pub open spec fn with_flag(self, flag: Flag, value: bool) -> CPU {
        CPU { flags: self.flags.with(flag, value), ..self }
    }

    /// The status byte, with bits 4 and 5 clear.
    pub fn get_p(&self) -> (p: u8)
        ensures
            p == self.flags.to_bits(),
    {
        self.flags.bits()
    }

    /// Replaces the flags by those of a status byte.
    pub fn set_p(&mut self, value: u8)
        ensures
            *final(self) == (CPU { flags: Flags::of_bits(value), ..*old(self) }),
    {
        self.flags = Flags::from_bits_truncate(value);
    }

    /// Whether `flag` is set.
    pub fn get_flag(&self, flag: Flag) -> (b: bool)
        ensures
            b == self.flags.has(flag),
    {
        self.flags.contains(flag)
    }

    /// Replaces one flag and nothing else.
    pub fn set_flag(&mut self, flag: Flag, value: bool)
        ensures
            *final(self) == old(self).with_flag(flag, value),
    {
        self.flags.set(flag, value);
    }

    /// Takes Z and N from a result byte.
    pub fn set_zn(&mut self, val: u8)
        ensures
            *final(self) == old(self).with_zn(val),
    {
        self.flags.z = val == 0;
        self.flags.n = val >= 128;
    }

    /// The carry flag.
    pub fn get_c(&self) -> (b: bool)
        ensures
            b == self.flags.c,
    {
        self.flags.c
    }

    /// Replaces the carry flag and nothing else.
    pub fn set_c(&mut self, val: bool)
        ensures
            *final(self) == old(self).with_flag(Flag::C, val),
    {
        self.flags.c = val;
    }

    /// The zero flag.
    pub fn get_z(&self) -> (b: bool)
        ensures
            b == self.flags.z,
    {
        self.flags.z
    }

    /// Replaces the zero flag and nothing else.
    pub fn set_z(&mut self, val: bool)
        ensures
            *final(self) == old(self).with_flag(Flag::Z, val),
    {
        self.flags.z = val;
    }

    /// The overflow flag.
    pub fn get_v(&self) -> (b: bool)
        ensures
            b == self.flags.v,
    {
        self.flags.v
    }

    /// Replaces the overflow flag and nothing else.
    pub fn set_v(&mut self, val: bool)
        ensures
            *final(self) == old(self).with_flag(Flag::V, val),
    {
        self.flags.v = val;
    }

    /// The negative flag.
    pub fn get_n(&self) -> (b: bool)
        ensures
            b == self.flags.n,
    {
        self.flags.n
    }

    /// Replaces the negative flag and nothing else.
    pub fn set_n(&mut self, val: bool)
        ensures
            *final(self) == old(self).with_flag(Flag::N, val),
    {
        self.flags.n = val;
    }

    /// The interrupt-disable flag.
    pub fn get_i(&self) -> (b: bool)
        ensures
            b == self.flags.i,
    {
        self.flags.i
    }

    /// Replaces the interrupt-disable flag and nothing else.
    pub fn set_i(&mut self, val: bool)
        ensures
            *final(self) == old(self).with_flag(Flag::I, val),
    {
        self.flags.i = val;
    }

    /// The decimal flag.
    pub fn get_d(&self) -> (b: bool)
        ensures
            b == self.flags.d,
    {
        self.flags.d
    }

    /// Replaces the decimal flag and nothing else.
    pub fn set_d(&mut self, val: bool)
        ensures
            *final(self) == old(self).with_flag(Flag::D, val),
    {
        self.flags.d = val;
    }
}

} // verus!
