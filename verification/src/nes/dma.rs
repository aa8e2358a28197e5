//! The OAM DMA engine: a copy of one page of CPU memory to the PPU's sprite
//! memory, for which the CPU is held.

use vstd::prelude::*;
use super::cpu::cycle::word;
use super::cpu::{BusRequest, CpuHostAccess};

verus! {

/// The PPU register that receives the bytes.
pub const OAMDATA: u16 = 0x2004;

/// The unit that copies a page of CPU memory into sprite memory, byte by
/// byte, while the CPU is held.
#[derive(Debug, Clone, Copy, PartialEq, Eq, Structural)]
pub struct DMA {
    pub is_odd: bool,
    pub state: DMAState,
}

/// Where a sprite DMA stands.
#[derive(Debug, Clone, Copy, PartialEq, Eq, Structural)]
pub enum DMAState {
    // Not DMAing
    No,
    // Set by cpu writing to OAMDMA
    Req { addr_high: u8 },
    // If we need to for alignment
    DummyRead { addr_high: u8 },
    Read { addr_high: u8, addr_low: u8 },
    Write { addr_high: u8, addr_low: u8, value: u8 },
}

impl DMA {
    /// The bus access of the cycle that the engine is about to make. The
    /// cycle in which a request is taken up makes none.
    pub open spec fn request(self) -> BusRequest {
        match self.state {
            DMAState::No => BusRequest::Idle,
            DMAState::Req { .. } => BusRequest::Idle,
            DMAState::DummyRead { addr_high } => BusRequest::Read(word(addr_high, 0)),
            DMAState::Read { addr_high, addr_low } => BusRequest::Read(word(addr_high, addr_low)),
            DMAState::Write { value, .. } => BusRequest::Write(OAMDATA, value),
        }
    }

    /// Whether the CPU gets the cycle: when no copy is under way, and while
    /// a request waits for the CPU to finish its writes.
    pub open spec fn runs_cpu(self, cpu_writing: bool) -> bool {
        match self.state {
            DMAState::No => true,
            DMAState::Req { .. } => cpu_writing,
            _ => false,
        }
    }

    /// The engine after the cycle that it is about to make, when a read
    /// returned `data`. A request is taken up in a cycle in which the CPU
    /// does not write: on an odd cycle the copy starts at once, on an even
    /// one a read for alignment comes first, so that the last byte is
    /// written on an even cycle. The copy reads and writes in turn, byte 0
    /// of the page to byte 255.
    pub open spec fn after_cycle(self, cpu_writing: bool, data: u8) -> DMA {
        DMA {
            is_odd: !self.is_odd,
            state: match self.state {
                DMAState::No => DMAState::No,
                DMAState::Req { addr_high } => if cpu_writing {
                    DMAState::Req { addr_high }
                } else if self.is_odd {
                    DMAState::Read { addr_high, addr_low: 0 }
                } else {
                    DMAState::DummyRead { addr_high }
                },
                DMAState::DummyRead { addr_high } => DMAState::Read { addr_high, addr_low: 0 },
                DMAState::Read { addr_high, addr_low } => DMAState::Write {
                    addr_high,
                    addr_low,
                    value: data,
                },
                DMAState::Write { addr_high, addr_low, .. } => if addr_low == 255 {
                    DMAState::No
                } else {
                    DMAState::Read { addr_high, addr_low: (addr_low + 1) as u8 }
                },
            },
        }
    }

    /// The number of cycles for which the CPU is still held, this one
    /// included, once it has stopped writing: 513 for a request that is
    /// taken up on an odd cycle and 514 for one on an even cycle.
    pub open spec fn stall_cycles(self) -> nat {
        match self.state {
            DMAState::No => 0,
            DMAState::Req { .. } => if self.is_odd {
                513
            } else {
                514
            },
            DMAState::DummyRead { .. } => 513,
            DMAState::Read { addr_low, .. } => (512 - 2 * addr_low) as nat,
            DMAState::Write { addr_low, .. } => (511 - 2 * addr_low) as nat,
        }
    }

    /// A unit at rest, on an even cycle.
    pub fn new() -> (dma: DMA)
        ensures
            dma == (DMA { is_odd: false, state: DMAState::No }),
    {
        DMA { is_odd: false, state: DMAState::No }
    }

    /// Goes back to rest on an even cycle; a copy that was asked for or
    /// under way is given up.
    pub fn reset(&mut self)
        ensures
            *final(self) == (DMA { is_odd: false, state: DMAState::No }),
    {
        self.is_odd = false;
        self.state = DMAState::No;
    }

    /// Asks for a copy of page `value`.
    pub fn trigger_oamdma(&mut self, value: u8)
        ensures
            *final(self) == (DMA { state: DMAState::Req { addr_high: value }, ..*old(self) }),
    {
        self.state = DMAState::Req { addr_high: value };
    }

    /// What the unit asks of the bus in this cycle.
    pub fn bus_request(&self) -> (r: BusRequest)
        ensures
            r == self.request(),
    {
        match self.state {
            DMAState::No => BusRequest::Idle,
            DMAState::Req { .. } => BusRequest::Idle,
            DMAState::DummyRead { addr_high } => BusRequest::Read((addr_high as u16) * 256),
            DMAState::Read { addr_high, addr_low } => BusRequest::Read(
                (addr_high as u16) * 256 + addr_low as u16,
            ),
            DMAState::Write { value, .. } => BusRequest::Write(OAMDATA, value),
        }
    }

    /// Ends the cycle whose bus access returned `data`, and says whether the
    /// CPU gets the cycle. `cpu_writing` says whether the CPU's cycle would
    /// be a write.
    pub fn complete(&mut self, cpu_writing: bool, data: u8) -> (tick_cpu: bool)
        ensures
            *final(self) == old(self).after_cycle(cpu_writing, data),
            tick_cpu == old(self).runs_cpu(cpu_writing),
    {
        let is_odd = self.is_odd;
        self.is_odd = !is_odd;

        let (next_state, tick_cpu) = match self.state {
            DMAState::No => (DMAState::No, true),
            DMAState::Req { addr_high } => {
                if cpu_writing {
                    // We don't hijack write cycles
                    (DMAState::Req { addr_high }, true)
                } else if is_odd {
                    // This is currently a write cycle. This is good - next is read
                    (DMAState::Read { addr_high, addr_low: 0 }, false)
                } else {
                    // We're currently on a read, we need to dummy read to be aligned at the end
                    (DMAState::DummyRead { addr_high }, false)
                }
            },
            DMAState::DummyRead { addr_high } => (DMAState::Read { addr_high, addr_low: 0 }, false),
            DMAState::Read { addr_high, addr_low } => (
                DMAState::Write { addr_high, addr_low, value: data },
                false,
            ),
            DMAState::Write { addr_high, addr_low, value: _ } => {
                if addr_low == 255 {
                    (DMAState::No, false)
                } else {
                    (DMAState::Read { addr_high, addr_low: addr_low + 1 }, false)
                }
            },
        };

        self.state = next_state;
        tick_cpu
    }

    /// One cycle: at most one access to the bus, the one that `request`
    /// names. Returns whether the CPU gets the cycle.
    pub fn tick<H: CpuHostAccess>(&mut self, cpu_writing: bool, host: &mut H) -> (tick_cpu: bool)
        requires
            old(host).wf(),
        ensures
            final(host).wf(),
            tick_cpu == old(self).runs_cpu(cpu_writing),
            ({
                let request = old(self).request();
                let data = request.returned(final(host).accesses());
                &&& final(host).accesses() == old(host).accesses() + request.carried_out(data)
                &&& *final(self) == old(self).after_cycle(cpu_writing, data)
            }),
    {
        let data = match self.bus_request() {
            BusRequest::Idle => 0,
            BusRequest::Read(addr) => host.read(addr),
            BusRequest::Write(addr, value) => {
                host.write(addr, value);
                0
            },
        };
        proof {
            let request = old(self).request();
            assert(final(host).accesses() =~= old(host).accesses() + request.carried_out(data));
        }
        self.complete(cpu_writing, data)
    }
}

/// While a copy is under way every cycle is taken from the CPU and brings
/// the copy one cycle nearer to its end; the copy is over exactly when no
/// cycle is left. So a copy takes 513 cycles from the CPU when it is taken
/// up on an odd cycle, and 514 on an even one.
pub proof fn lemma_copy_advances(dma: DMA, cpu_writing: bool, data: u8)
    requires
        !dma.runs_cpu(cpu_writing),
    ensures
        dma.after_cycle(cpu_writing, data).stall_cycles() + 1 == dma.stall_cycles(),
        (dma.after_cycle(cpu_writing, data).state is No) == (dma.stall_cycles() == 1),
        dma.state is Req ==> dma.stall_cycles() == if dma.is_odd {
            513nat
        } else {
            514nat
        },
{
}

} // verus!
