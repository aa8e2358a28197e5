//! The master clock: three ticks to a CPU cycle, a dot of the PPU in each.

use vstd::prelude::*;
use super::cpu::laws::{lemma_cycle_progress, lemma_fetch};
use super::cpu::{BusRequest, CpuHostAccess, CPU};
use super::dma::{lemma_copy_advances, DMAState, DMA};
use super::fault::Fault;
use super::io::IO;
use super::ppu::registers::lemma_registers_keep_beam;
use super::board::Board;
use super::ppu::{host_served, signal_of, PpuEvent, PPU};
use super::{Cycle, Nes};

verus! {

impl BusRequest {
    /// The DMA engine after the request: a write to `$4014` asks for a copy.
    pub open spec fn dma_after(self, dma: DMA) -> DMA {
        match self {
            BusRequest::Write(addr, value) if addr == 0x4014 => DMA {
                state: DMAState::Req { addr_high: value },
                ..dma
            },
            _ => dma,
        }
    }
}

/// The number of dots from the beam's place to the end of the frame, dot 1
/// of scanline 241, if no dot is dropped on the way.
pub open spec fn dots_to_frame_end(scanline: u16, dot: u16) -> int {
    let place = scanline * 341 + dot;
    if place <= 82182 {
        82182 - place
    } else {
        82182 + 89342 - place
    }
}

/// Whether the beam stands at the end of the frame or past it, so that the
/// next end that it meets is that of the next frame.
pub open spec fn past_frame_end(scanline: u16, dot: u16) -> bool {
    scanline * 341 + dot >= 82182
}

/// The number of dots from the beam's place to the next end of a frame that
/// it meets, if no dot is dropped on the way: from the end of a frame these
/// are the 89,342 dots of a frame.
pub open spec fn dots_to_next_frame_end(scanline: u16, dot: u16) -> int {
    if past_frame_end(scanline, dot) {
        82182 + 89342 - (scanline * 341 + dot)
    } else {
        82182 - (scanline * 341 + dot)
    }
}

impl<I: IO> Nes<I> {
    /// Whether `self` is the machine `before` after the bus has carried
    /// `request` out, and a read returned `data`.
    pub open spec fn accessed(&self, before: &Nes<I>, request: BusRequest, data: u8) -> bool {
        match request {
            BusRequest::Idle => data == 0 && *self == *before,
            BusRequest::Read(addr) => self.read_done(before, addr, data),
            BusRequest::Write(addr, value) => data == 0 && self.written(before, addr, value),
        }
    }

    /// Carries out a request on the bus. The PPU keeps its beam.
    fn access(&mut self, request: BusRequest) -> (data: u8)
        requires
            old(self).wf(),
        ensures
            final(self).wf(),
            final(self).accessed(old(self), request, data),
            request is Idle ==> *final(self) == *old(self),
            final(self).accesses() == old(self).accesses() + request.carried_out(data),
            final(self).cycle == old(self).cycle,
            final(self).ppu.dot == old(self).ppu.dot,
            final(self).ppu.scanline == old(self).ppu.scanline,
            final(self).ppu.odd_frame == old(self).ppu.odd_frame,
            final(self).ppu.perform_skip == old(self).ppu.perform_skip,
    {
        let ghost before = self.bus_log@;
        match request {
            BusRequest::Idle => {
                proof {
                    assert(self.bus_log@ =~= before + request.carried_out(0));
                }
                0
            },
            BusRequest::Read(addr) => {
                let data = self.read(addr);
                proof {
                    assert(self.bus_log@ =~= before + request.carried_out(data));
                    lemma_registers_keep_beam(
                        old(self).ppu,
                        super::ppu_register(addr),
                        self.ppu.read_buffer,
                    );
                }
                data
            },
            BusRequest::Write(addr, value) => {
                self.write(addr, value);
                proof {
                    assert(self.bus_log@ =~= before + request.carried_out(0));
                    lemma_registers_keep_beam(old(self).ppu, super::ppu_register(addr), value);
                }
                0
            },
        }
    }

    /// A dot of the PPU, and the NMI that it may raise.
    fn tick_ppu(&mut self)
        requires
            old(self).wf(),
        ensures
            final(self).wf(),
            (final(self).ppu.scanline, final(self).ppu.dot, final(self).ppu.odd_frame) == old(
                self,
            ).ppu.beam_after(),
            exists|added: Seq<PpuEvent>, served: Board<I>|
                {
                    &&& #[trigger] final(self).ppu.ticked(&old(self).ppu, &old(self).board, added)
                    &&& #[trigger] host_served(&served, &old(self).board, added)
                    &&& final(self).board.io == served.io
                },
            final(self).cpu == old(self).cpu.signalled(
                if old(self).ppu.raises_nmi() {
                    Some(true)
                } else {
                    None
                },
            ),
            final(self).dma == old(self).dma,
            final(self).cpu_ram == old(self).cpu_ram,
            final(self).cycle == old(self).cycle,
            final(self).controller_latch == old(self).controller_latch,
            final(self).fault == old(self).fault,
            final(self).bus_log == old(self).bus_log,
            final(self).board.cartridge == old(self).board.cartridge,
            final(self).board.vram == old(self).board.vram,
            final(self).ppu.perform_skip ==> final(self).ppu.dot == 339,
    {
        self.ppu.tick(&mut self.board);
        let ghost served = self.board;
        let ghost added = choose|added: Seq<PpuEvent>|
            {
                &&& self.board.log@ == old(self).board.log@ + added
                &&& host_served(&self.board, &old(self).board, added)
                &&& #[trigger] self.ppu.ticked(&old(self).ppu, &old(self).board, added)
                &&& signal_of(added) == if old(self).ppu.raises_nmi() {
                    Some(true)
                } else {
                    None
                }
            };
        proof {
            assert(self.board.log@ =~= added);
        }
        self.pass_nmi();
        proof {
            assert(self.ppu.ticked(&old(self).ppu, &old(self).board, added) && host_served(
                &served,
                &old(self).board,
                added,
            ) && self.board.io == served.io);
        }
    }

    /// The CPU's cycle, which the DMA engine may take.
    fn perform_cpu_cycle(&mut self)
        requires
            old(self).wf(),
            old(self).fault is None,
        ensures
            final(self).wf(),
            final(self).cycle == old(self).cycle,
            final(self).accesses().len() <= old(self).accesses().len() + 1,
            final(self).ppu.dot == old(self).ppu.dot,
            final(self).ppu.scanline == old(self).ppu.scanline,
            final(self).ppu.odd_frame == old(self).ppu.odd_frame,
            final(self).ppu.perform_skip == old(self).ppu.perform_skip,
            final(self).cpu_cycle_done(old(self)),
    {
        let writing = self.cpu.state.is_write_cycle();
        let dma_request = self.dma.bus_request();
        let dma_data = self.access(dma_request);
        let ghost copied = *self;
        let should_tick_cpu = self.dma.complete(writing, dma_data);
        if should_tick_cpu {
            // The engine has left the bus alone
            let ghost ready = *self;
            let request = self.cpu.bus_request();
            let data = self.access(request);
            let ghost fetched = *self;
            match self.cpu.complete(data) {
                Ok(()) => {},
                Err(fault) => {
                    self.stop(fault);
                },
            }
            proof {
                assert(ready == old(self).dma_stepped(0));
                assert(self.cpu_cycle_done_with(old(self), copied, dma_data, fetched, data));
            }
        } else {
            proof {
                assert(self.cpu_cycle_done_with(old(self), copied, dma_data, *self, 0));
            }
        }
    }

    /// The machine with its DMA engine one cycle on, when a read of the
    /// engine returned `byte`.
    pub open spec fn dma_stepped(&self, byte: u8) -> Nes<I> {
        Nes { dma: self.dma.after_cycle(self.cpu.state.writes(), byte), ..*self }
    }

    /// The machine with its CPU one cycle on, when a read of the CPU
    /// returned `data`: the machine stops on a byte that is no instruction,
    /// unless it has stopped already.
    pub open spec fn cpu_completed(&self, data: u8) -> Nes<I> {
        if self.cpu.rejects(data) {
            Nes {
                fault: if self.fault is None {
                    Some(Fault::IllegalOpcode(data))
                } else {
                    self.fault
                },
                ..*self
            }
        } else {
            Nes { cpu: self.cpu.after_cycle(data), ..*self }
        }
    }

    /// Whether `self` is the machine `before` after a CPU cycle in which the
    /// DMA engine's access led to `copied` and returned `byte`, and the
    /// CPU's, if it had the cycle, to `fetched` and returned `data`.
    ///
    /// The DMA engine comes first. While it copies, its access is the
    /// cycle's, and the CPU stays as it is. Else the CPU makes its access
    /// and ends its cycle with what the bus returned.
    pub open spec fn cpu_cycle_done_with(
        &self,
        before: &Nes<I>,
        copied: Nes<I>,
        byte: u8,
        fetched: Nes<I>,
        data: u8,
    ) -> bool {
        if before.dma.runs_cpu(before.cpu.state.writes()) {
            &&& fetched.accessed(&before.dma_stepped(0), before.cpu.request(), data)
            &&& *self == fetched.cpu_completed(data)
        } else {
            &&& copied.accessed(before, before.dma.request(), byte)
            &&& *self == (Nes {
                dma: before.dma.after_cycle(before.cpu.state.writes(), byte),
                ..copied
            })
        }
    }

    /// Whether `self` is the machine `before` after a CPU cycle.
    pub open spec fn cpu_cycle_done(&self, before: &Nes<I>) -> bool {
        exists|copied: Nes<I>, byte: u8, fetched: Nes<I>, data: u8| #[trigger]
            self.cpu_cycle_done_with(before, copied, byte, fetched, data)
    }

    /// The signal that the PPU's dot leaves on the CPU's NMI input.
    pub open spec fn dot_signal(ppu: PPU) -> Option<bool> {
        if ppu.raises_nmi() {
            Some(true)
        } else {
            None
        }
    }

    /// Whether `self` is the machine `before` one tick of the master clock
    /// later, for a machine that has not stopped.
    ///
    /// The phase moves on, and the PPU makes a dot. In the first phase the
    /// CPU's cycle comes before the dot, and makes one access to the bus at
    /// most; in the second the CPU polls its interrupt inputs before the
    /// dot. An NMI that the dot raises reaches the CPU's latch after that.
    #[verifier::opaque]
    pub open spec fn ticked(&self, before: &Nes<I>) -> bool {
        &&& self.cycle == before.cycle.next()
        &&& (self.ppu.scanline, self.ppu.dot, self.ppu.odd_frame) == before.ppu.beam_after()
        &&& self.accesses().len() <= before.accesses().len() + 1
        &&& match before.cycle {
            Cycle::T1 => exists|mid: Nes<I>|
                {
                    &&& #[trigger] mid.cpu_cycle_done(before)
                    &&& self.dotted(&mid, mid.cpu)
                },
            Cycle::T2 => self.dotted(before, before.cpu.polled()),
            Cycle::T3 => self.dotted(before, before.cpu),
        }
    }

    /// Whether `self` is the machine `before` after a dot of the PPU, with
    /// `cpu` for the CPU before the dot: the PPU is one dot on, what it read
    /// it read from the cartridge, the host has the pixel that it put out,
    /// an NMI that the dot raised has reached the CPU's latch, and memory is
    /// as it was.
    pub open spec fn dotted(&self, before: &Nes<I>, cpu: CPU) -> bool {
        &&& self.cpu == cpu.signalled(Self::dot_signal(before.ppu))
        &&& exists|added: Seq<PpuEvent>, served: Board<I>|
            {
                &&& #[trigger] self.ppu.ticked(&before.ppu, &before.board, added)
                &&& #[trigger] host_served(&served, &before.board, added)
                &&& self.board.io == served.io
            }
        &&& self.dma == before.dma
        &&& self.fault == before.fault
        &&& self.cpu_ram == before.cpu_ram
        &&& self.controller_latch == before.controller_latch
        &&& self.accesses() == before.accesses()
        &&& self.board.cartridge == before.board.cartridge
        &&& self.board.vram == before.board.vram
    }

    /// One tick of the master clock. A machine that has stopped stays as it
    /// is and gives its fault; one that stops in this tick finishes the tick
    /// first.
    pub fn tick(&mut self) -> (r: Result<(), Fault>)
        requires
            old(self).wf(),
        ensures
            final(self).wf(),
            r == match final(self).fault {
                Some(f) => Err::<(), Fault>(f),
                None => Ok(()),
            },
            old(self).fault is Some ==> *final(self) == *old(self),
            old(self).fault is None ==> final(self).ticked(old(self)),
            old(self).fault is None ==> final(self).cycle == old(self).cycle.next(),
            old(self).fault is None ==> (
                final(self).ppu.scanline,
                final(self).ppu.dot,
                final(self).ppu.odd_frame,
            ) == old(self).ppu.beam_after(),
            old(self).fault is None && !(old(self).cycle is T1) ==> final(self).cpu.state == old(
                self,
            ).cpu.state && final(self).dma == old(self).dma && final(self).fault is None,
            old(self).fault is None && final(self).ppu.perform_skip ==> final(self).ppu.dot == 339,
    {
        reveal(Nes::ticked);
        if let Some(fault) = self.fault {
            return Err(fault);
        }
        match self.cycle {
            Cycle::T1 => {
                self.perform_cpu_cycle();
                let ghost mid = *self;
                self.tick_ppu();
                let ghost (added, served) = choose|added: Seq<PpuEvent>, served: Board<I>|
                    {
                        &&& #[trigger] self.ppu.ticked(&mid.ppu, &mid.board, added)
                        &&& #[trigger] host_served(&served, &mid.board, added)
                        &&& self.board.io == served.io
                    };
                self.cycle = Cycle::T2;
                proof {
                    assert(mid.cpu_cycle_done(old(self)));
                    assert(mid.ppu.beam_after() == old(self).ppu.beam_after());
                    assert(self.cpu == mid.cpu.signalled(Self::dot_signal(mid.ppu)));
                    assert(self.ppu.ticked(&mid.ppu, &mid.board, added) && host_served(
                        &served,
                        &mid.board,
                        added,
                    ) && self.board.io == served.io);
                    assert(self.dotted(&mid, mid.cpu));
                    assert(self.ticked(old(self)));
                }
            },
            Cycle::T2 => {
                self.cpu.poll_interrupts();
                let ghost polled = *self;
                self.tick_ppu();
                let ghost (added, served) = choose|added: Seq<PpuEvent>, served: Board<I>|
                    {
                        &&& #[trigger] self.ppu.ticked(&polled.ppu, &polled.board, added)
                        &&& #[trigger] host_served(&served, &polled.board, added)
                        &&& self.board.io == served.io
                    };
                assert(polled.ppu == old(self).ppu && polled.board == old(self).board);
                self.cycle = Cycle::T3;
                proof {
                    assert(self.ppu.ticked(&old(self).ppu, &old(self).board, added) && host_served(
                        &served,
                        &old(self).board,
                        added,
                    ) && self.board.io == served.io);
                    assert(self.dotted(old(self), old(self).cpu.polled()));
                    assert(self.ticked(old(self)));
                }
            },
            Cycle::T3 => {
                self.tick_ppu();
                let ghost (added, served) = choose|added: Seq<PpuEvent>, served: Board<I>|
                    {
                        &&& #[trigger] self.ppu.ticked(&old(self).ppu, &old(self).board, added)
                        &&& #[trigger] host_served(&served, &old(self).board, added)
                        &&& self.board.io == served.io
                    };
                self.cycle = Cycle::T1;
                proof {
                    assert(self.ppu.ticked(&old(self).ppu, &old(self).board, added) && host_served(
                        &served,
                        &old(self).board,
                        added,
                    ) && self.board.io == served.io);
                    assert(self.dotted(old(self), old(self).cpu));
                    assert(self.ticked(old(self)));
                }
            },
        }
        match self.fault {
            Some(fault) => Err(fault),
            None => Ok(()),
        }
    }

    /// Whether `states` are the states of a machine tick by tick: each is
    /// one tick after the one before it, which had not stopped.
    pub open spec fn run_of(states: Seq<Nes<I>>) -> bool {
        forall|i: int|
            0 <= i < states.len() - 1 ==> (#[trigger] states[i]).fault is None && states[i
                + 1].ticked(&states[i])
    }

    /// Whether `self` is the machine `before` after `n` ticks of the master
    /// clock, none of which found the machine stopped.
    pub open spec fn ran(&self, before: &Nes<I>, n: nat) -> bool {
        exists|states: Seq<Nes<I>>|
            {
                &&& #[trigger] Self::run_of(states)
                &&& states.len() == n + 1
                &&& states[0] == *before
                &&& states[n as int] == *self
            }
    }

    /// Whether the CPU stands at an opcode fetch at the start of none of the
    /// CPU cycles that begin inside the run `states`, after its first state
    /// and before its last.
    pub open spec fn inside_instruction(states: Seq<Nes<I>>) -> bool {
        forall|i: int|
            0 < i < states.len() - 1 && (#[trigger] states[i]).cycle is T1 ==> !(
            states[i].cpu.state.0 is FetchOpcode)
    }

    /// Whether `self` is the machine `before` after `n` ticks of the master
    /// clock, none of which found the machine stopped, and the CPU has met
    /// no opcode fetch on the way: the ticks end with the instruction, or
    /// the reset or interrupt sequence, that was under way or began at
    /// `before`.
    pub open spec fn ran_inside_instruction(&self, before: &Nes<I>, n: nat) -> bool {
        exists|states: Seq<Nes<I>>|
            {
                &&& #[trigger] Self::run_of(states)
                &&& Self::inside_instruction(states)
                &&& states.len() == n + 1
                &&& states[0] == *before
                &&& states[n as int] == *self
            }
    }

    /// Whether the beam stands at the end of the frame in none of the states
    /// of the run `states`, but for its first and its last.
    pub open spec fn inside_frame(states: Seq<Nes<I>>) -> bool {
        forall|i: int| 0 < i < states.len() - 1 ==> !(#[trigger] states[i]).ppu.at_frame_end()
    }

    /// Whether the tick from `self` to `after` arms the latch that drops a
    /// dot: it is the tick from dot 338 of the pre-render scanline of an odd
    /// frame, and rendering is on after it.
    pub open spec fn arms_skip(&self, after: &Nes<I>) -> bool {
        &&& self.ppu.scanline == 261
        &&& self.ppu.dot == 338
        &&& self.ppu.odd_frame
        &&& after.ppu.rendering()
    }

    /// Whether tick `i` of the run `states` arms the latch that drops a dot.
    pub open spec fn arms_skip_at(states: Seq<Nes<I>>, i: int) -> bool {
        states[i].arms_skip(&states[i + 1])
    }

    /// Whether a tick of the run `states` arms the latch that drops a dot.
    pub open spec fn arms_skip_in(states: Seq<Nes<I>>) -> bool {
        exists|i: int| 0 <= i < states.len() - 1 && #[trigger] Self::arms_skip_at(states, i)
    }

    /// Whether `self` is the machine `before` after `n` ticks of the master
    /// clock, none of which found the machine stopped, and the beam has not
    /// met the end of the frame on the way; `armed` says whether one of the
    /// ticks has armed the latch that drops a dot.
    pub open spec fn ran_inside_frame(&self, before: &Nes<I>, n: nat, armed: bool) -> bool {
        exists|states: Seq<Nes<I>>|
            {
                &&& #[trigger] Self::run_of(states)
                &&& Self::inside_frame(states)
                &&& states.len() == n + 1
                &&& states[0] == *before
                &&& states[n as int] == *self
                &&& Self::arms_skip_in(states) == armed
            }
    }

    /// Whether `self` is the machine `before` after the `n` ticks of a step
    /// to the next end of a frame, in which the latch that drops a dot was
    /// armed or not as `armed` says: the step is one tick shorter than the
    /// dots on its way where the latch was armed, and only there, unless the
    /// latch was armed before the step.
    pub open spec fn ran_to_frame_end(&self, before: &Nes<I>, n: nat, armed: bool) -> bool {
        let full = dots_to_next_frame_end(before.ppu.scanline, before.ppu.dot);
        &&& self.ran_inside_frame(before, n, armed)
        &&& armed ==> n + 1 == full
        &&& n + 1 == full ==> armed || before.ppu.perform_skip
    }

    /// Whether `self` is the machine `before` after the `n` ticks of a step
    /// to the next end of a frame: the step is one tick shorter than the
    /// dots on its way where one of its ticks armed the latch that drops a
    /// dot, and only there, unless the latch was armed before the step.
    pub open spec fn stepped_to_frame_end(&self, before: &Nes<I>, n: nat) -> bool {
        exists|armed: bool| #[trigger] self.ran_to_frame_end(before, n, armed)
    }

    /// The number of ticks from a phase to the start of the next CPU cycle.
    pub open spec fn ticks_to_cycle_start(cycle: Cycle) -> nat {
        match cycle {
            Cycle::T1 => 3,
            Cycle::T2 => 2,
            Cycle::T3 => 1,
        }
    }

    /// An upper bound on the number of CPU cycles until the CPU is at its
    /// next opcode fetch: the cycles of the instruction that are left, and
    /// for each of them a sprite DMA that it might start.
    pub open spec fn cycles_to_fetch(&self) -> nat {
        self.cpu.state.0.remaining() * 520 + self.dma.stall_cycles()
    }

    /// Whether no sprite DMA holds the CPU before its next opcode fetch: no
    /// copy is asked for, or one is while the CPU has only the last write of
    /// its instruction left.
    pub open spec fn dma_waits(&self) -> bool {
        self.dma.state is No || (self.dma.state is Req && (self.cpu.state.0 is FetchOpcode
            || self.cpu.state.0 is Write))
    }

    /// Whether `self` is nearer to the CPU's next opcode fetch than `before`
    /// by one CPU cycle: the DMA engine's copy is one cycle further, or the
    /// CPU's instruction is. From an opcode fetch, without a copy to make,
    /// the CPU has entered an instruction of at most seven more cycles.
    /// Where no copy held the CPU before its next opcode fetch, and the CPU
    /// had the cycle, none does.
    pub open spec fn nearer_than(&self, before: &Nes<I>) -> bool {
        &&& !(before.cpu.state.0 is FetchOpcode) ==> self.cycles_to_fetch()
            < before.cycles_to_fetch()
        &&& before.cpu.state.0 is FetchOpcode && before.dma.state is No ==> !(
        self.cpu.state.0 is FetchOpcode) && self.cpu.state.0.remaining() <= 7
        &&& before.dma_waits() && before.dma.runs_cpu(before.cpu.state.writes())
            ==> self.dma_waits() && (!(before.cpu.state.0 is FetchOpcode)
            ==> self.cpu.state.0.remaining() < before.cpu.state.0.remaining())
    }

    /// The phases that are left before the next CPU cycle.
    pub open spec fn phases_left(cycle: Cycle) -> nat {
        match cycle {
            Cycle::T1 => 0,
            Cycle::T2 => 2,
            Cycle::T3 => 1,
        }
    }

    /// Drives the master clock to the start of the next CPU cycle. From the
    /// start of a CPU cycle that is one CPU cycle, which brings the CPU
    /// nearer to its next opcode fetch or, from an opcode fetch, into an
    /// instruction.
    pub fn tick_cpu(&mut self) -> (r: Result<(), Fault>)
        requires
            old(self).wf(),
        ensures
            final(self).wf(),
            r == match final(self).fault {
                Some(f) => Err::<(), Fault>(f),
                None => Ok(()),
            },
            old(self).fault is Some ==> *final(self) == *old(self),
            old(self).fault is None ==> exists|n: nat|
                {
                    &&& 1 <= n <= 3
                    &&& #[trigger] final(self).ran(old(self), n)
                    &&& r is Ok ==> n == Self::ticks_to_cycle_start(old(self).cycle)
                    &&& r is Err ==> n == 1
                },
            r is Ok ==> final(self).cycle is T1,
            r is Ok && old(self).cycle is T1 ==> final(self).nearer_than(old(self)),
            r is Ok && !(old(self).cycle is T1) ==> final(self).cpu.state == old(self).cpu.state
                && final(self).dma == old(self).dma,
    {
        let started = self.tick();
        proof {
            if old(self).fault is None {
                lemma_ran_not_at_all(*old(self));
                lemma_ran_one_more(*self, *old(self), *old(self), 0);
            }
        }
        if let Err(fault) = started {
            return Err(fault);
        }
        proof {
            if old(self).cycle is T1 {
                lemma_cycle_nearer(*self, *old(self));
            }
        }
        let ghost first = *self;
        let ghost mut n: nat = 1;
        while self.cycle != Cycle::T1
            invariant
                self.wf(),
                self.fault is None,
                old(self).fault is None,
                self.cpu.state == first.cpu.state,
                self.dma == first.dma,
                old(self).cycle is T1 ==> first.nearer_than(old(self)),
                !(old(self).cycle is T1) ==> first.cpu.state == old(self).cpu.state && first.dma
                    == old(self).dma,
                self.ran(old(self), n),
                n + Self::phases_left(self.cycle) == Self::ticks_to_cycle_start(old(self).cycle),
                1 <= n <= 3,
            decreases Self::phases_left(self.cycle),
        {
            let ghost before = *self;
            let r = self.tick();
            proof {
                lemma_ran_one_more(*self, before, *old(self), n);
                n = n + 1;
            }
            if let Err(fault) = r {
                return Err(fault);
            }
        }
        Ok(())
    }

    /// Drives the master clock to the start of the next CPU cycle at which
    /// the CPU is at an opcode fetch, and gives the number of CPU cycles
    /// that it took, the one under way included. Without a sprite DMA that
    /// holds the CPU these are eight at most, and from the start of an
    /// opcode fetch two at least.
    pub fn step_cpu_instruction(&mut self) -> (r: Result<usize, Fault>)
        requires
            old(self).wf(),
        ensures
            final(self).wf(),
            match r {
                Ok(ticks) => {
                    &&& final(self).fault is None
                    &&& final(self).cpu.state.0 is FetchOpcode
                    &&& final(self).cycle is T1
                    &&& 1 <= ticks <= 4200
                    &&& old(self).dma.state is No ==> ticks <= 8
                    &&& old(self).dma.state is No && old(self).cycle is T1
                        && old(self).cpu.state.0 is FetchOpcode ==> ticks >= 2
                    &&& final(self).ran_inside_instruction(
                        old(self),
                        (Self::ticks_to_cycle_start(old(self).cycle) + 3 * (ticks - 1)) as nat,
                    )
                },
                Err(f) => final(self).fault == Some(f),
            },
            old(self).fault is Some ==> *final(self) == *old(self),
            old(self).fault is None ==> exists|n: nat| #[trigger]
                final(self).ran_inside_instruction(old(self), n),
    {
        let first = self.tick_cpu();
        let ghost mut n: nat = 0;
        proof {
            if old(self).fault is None {
                n = choose|n: nat|
                    {
                        &&& 1 <= n <= 3
                        &&& #[trigger] self.ran(old(self), n)
                        &&& first is Ok ==> n == Self::ticks_to_cycle_start(old(self).cycle)
                        &&& first is Err ==> n == 1
                    };
                lemma_instruction_begins(*old(self));
                lemma_instruction_goes_on(*self, *old(self), *old(self), 0, n);
            }
        }
        if let Err(fault) = first {
            return Err(fault);
        }
        let mut ticks: usize = 1;
        let ghost quiet = old(self).dma.state is No;
        proof {
            lemma_measure_bound(*self);
            super::cpu::laws::lemma_remaining_bound(old(self).cpu.state.0);
        }
        while !self.cpu.is_at_instruction()
            invariant
                self.wf(),
                self.fault is None,
                old(self).fault is None,
                self.cycle is T1,
                1 <= ticks,
                ticks + self.cycles_to_fetch() <= 4200,
                quiet ==> self.dma_waits() && ticks + self.cpu.state.0.remaining() <= 8,
                quiet && old(self).cycle is T1 && old(self).cpu.state.0 is FetchOpcode ==> ticks
                    >= 2 || !(self.cpu.state.0 is FetchOpcode),
                self.ran_inside_instruction(old(self), n),
                n == Self::ticks_to_cycle_start(old(self).cycle) + 3 * (ticks - 1),
            decreases self.cycles_to_fetch(),
        {
            let ghost before = *self;
            let r = self.tick_cpu();
            proof {
                let m = choose|m: nat|
                    {
                        &&& 1 <= m <= 3
                        &&& #[trigger] self.ran(&before, m)
                        &&& r is Ok ==> m == Self::ticks_to_cycle_start(before.cycle)
                        &&& r is Err ==> m == 1
                    };
                lemma_instruction_goes_on(*self, before, *old(self), n, m);
                n = n + m;
            }
            if let Err(fault) = r {
                return Err(fault);
            }
            ticks = ticks + 1;
        }
        Ok(ticks)
    }

    /// Drives the master clock to the end of the frame, dot 1 of scanline
    /// 241, and gives the number of ticks that it took. From the end of a
    /// frame these are the 89,342 dots of a frame, or one less where the
    /// frame that ends is odd and has dropped a dot; a frame that is even
    /// drops none. The dot is dropped exactly where the step makes the tick
    /// from dot 338 of the pre-render scanline of an odd frame and rendering
    /// is on after that tick. Where the beam passes into the next frame on
    /// the way, the frame's parity has changed.
    pub fn step_frame(&mut self) -> (r: Result<usize, Fault>)
        requires
            old(self).wf(),
        ensures
            final(self).wf(),
            match r {
                Ok(ticks) => {
                    &&& final(self).fault is None
                    &&& final(self).ppu.at_frame_end()
                    &&& 1 <= ticks <= 89342
                    &&& old(self).ppu.at_frame_end() ==> ticks == 89342 || ticks == 89341
                    &&& ticks == dots_to_next_frame_end(old(self).ppu.scanline, old(self).ppu.dot)
                        || (ticks + 1 == dots_to_next_frame_end(
                        old(self).ppu.scanline,
                        old(self).ppu.dot,
                    ) && old(self).ppu.odd_frame && past_frame_end(
                        old(self).ppu.scanline,
                        old(self).ppu.dot,
                    ))
                    &&& final(self).ppu.odd_frame == if past_frame_end(
                        old(self).ppu.scanline,
                        old(self).ppu.dot,
                    ) {
                        !old(self).ppu.odd_frame
                    } else {
                        old(self).ppu.odd_frame
                    }
                },
                Err(f) => final(self).fault == Some(f),
            },
            r matches Ok(ticks) ==> final(self).stepped_to_frame_end(old(self), ticks as nat),
            old(self).fault is Some ==> *final(self) == *old(self),
            old(self).fault is None ==> exists|n: nat, armed: bool| #[trigger]
                final(self).ran_inside_frame(old(self), n, armed),
    {
        let started = self.tick();
        let ghost mut armed = old(self).arms_skip(&*self);
        proof {
            if old(self).fault is None {
                lemma_frame_begins(*old(self));
                lemma_frame_goes_on(*self, *old(self), *old(self), 0, false);
                if old(self).ppu.scanline == 261 && old(self).ppu.dot == 338 {
                    lemma_tick_arms_the_skip(*self, *old(self));
                }
            }
        }
        if let Err(fault) = started {
            return Err(fault);
        }
        let mut ticks: usize = 1;
        let ghost mut dropped: int = if old(self).ppu.scanline == 261 && old(self).ppu.dot == 339
            && self.ppu.dot == 0 {
            1
        } else {
            0
        };
        let ghost start = if old(self).ppu.at_frame_end() {
            89342
        } else {
            dots_to_frame_end(old(self).ppu.scanline, old(self).ppu.dot)
        };
        let ghost late = past_frame_end(old(self).ppu.scanline, old(self).ppu.dot);
        while !self.ppu.is_at_frame_end()
            invariant
                self.wf(),
                self.fault is None,
                1 <= ticks,
                0 <= dropped <= 1,
                dropped == 1 ==> self.ppu.scanline * 341 + self.ppu.dot <= 82182,
                dropped == 1 ==> old(self).ppu.odd_frame && late,
                late == past_frame_end(old(self).ppu.scanline, old(self).ppu.dot),
                start == dots_to_next_frame_end(old(self).ppu.scanline, old(self).ppu.dot),
                !late ==> self.ppu.scanline * 341 + self.ppu.dot <= 82182 && self.ppu.odd_frame
                    == old(self).ppu.odd_frame,
                late && self.ppu.scanline * 341 + self.ppu.dot > 82182 ==> self.ppu.odd_frame
                    == old(self).ppu.odd_frame && dropped == 0,
                late && self.ppu.scanline * 341 + self.ppu.dot <= 82182 ==> self.ppu.odd_frame
                    != old(self).ppu.odd_frame,
                ticks + dots_to_frame_end(self.ppu.scanline, self.ppu.dot) + dropped == start,
                1 <= start <= 89342,
                old(self).fault is None,
                self.ran_inside_frame(old(self), ticks as nat, armed),
                self.ppu.perform_skip ==> self.ppu.dot == 339 && (armed || old(
                    self,
                ).ppu.perform_skip),
                armed ==> dropped == 1 || self.ppu.perform_skip,
                dropped == 1 ==> armed || old(self).ppu.perform_skip,
            decreases dots_to_frame_end(self.ppu.scanline, self.ppu.dot),
        {
            let ghost before = self.ppu;
            let ghost earlier = *self;
            let r = self.tick();
            proof {
                lemma_frame_goes_on(*self, earlier, *old(self), ticks as nat, armed);
                if earlier.ppu.scanline == 261 && earlier.ppu.dot == 338 {
                    lemma_tick_arms_the_skip(*self, earlier);
                }
                armed = armed || earlier.arms_skip(&*self);
            }
            if let Err(fault) = r {
                return Err(fault);
            }
            ticks = ticks + 1;
            proof {
                if before.scanline == 261 && before.dot == 339 && self.ppu.dot == 0 {
                    dropped = 1;
                }
            }
        }
        proof {
            let full = dots_to_next_frame_end(old(self).ppu.scanline, old(self).ppu.dot);
            assert(!self.ppu.perform_skip);
            assert(ticks + dropped == full);
            assert(armed ==> ticks + 1 == full);
            assert(ticks + 1 == full ==> armed || old(self).ppu.perform_skip);
            assert(self.ran_inside_frame(old(self), ticks as nat, armed));
            assert(self.ran_to_frame_end(old(self), ticks as nat, armed));
            assert(self.stepped_to_frame_end(old(self), ticks as nat));
        }
        Ok(ticks)
    }
}

/// One tick more: a machine that is one tick after one that is `n` ticks
/// after a third, and has not stopped, is `n + 1` ticks after the third.
pub proof fn lemma_ran_one_more<I: IO>(after: Nes<I>, mid: Nes<I>, before: Nes<I>, n: nat)
    requires
        mid.ran(&before, n),
        mid.fault is None,
        after.ticked(&mid),
    ensures
        after.ran(&before, n + 1),
{
    let states = choose|states: Seq<Nes<I>>|
        {
            &&& #[trigger] Nes::run_of(states)
            &&& states.len() == n + 1
            &&& states[0] == before
            &&& states[n as int] == mid
        };
    let longer = states.push(after);
    assert forall|i: int| 0 <= i < longer.len() - 1 implies (#[trigger] longer[i]).fault is None
        && longer[i + 1].ticked(&longer[i]) by {
        if i < n {
            assert(states[i].fault is None && states[i + 1].ticked(&states[i]));
        }
    }
    assert(Nes::run_of(longer));
}

/// A machine is no ticks after itself.
pub proof fn lemma_ran_not_at_all<I: IO>(nes: Nes<I>)
    ensures
        nes.ran(&nes, 0),
{
    assert(Nes::run_of(seq![nes]));
}

/// A machine is no ticks after itself, and has met no end of a frame on the
/// way.
pub proof fn lemma_frame_begins<I: IO>(nes: Nes<I>)
    ensures
        nes.ran_inside_frame(&nes, 0, false),
{
    assert(Nes::run_of(seq![nes]));
    assert(Nes::inside_frame(seq![nes]));
    assert(!Nes::arms_skip_in(seq![nes]));
}

/// One tick more inside a frame: where the beam has met no end of a frame in
/// `n` ticks and is not at one, it has met none after one tick more; and the
/// latch that drops a dot was armed on the way if it was before or the tick
/// arms it.
pub proof fn lemma_frame_goes_on<I: IO>(
    after: Nes<I>,
    mid: Nes<I>,
    before: Nes<I>,
    n: nat,
    armed: bool,
)
    requires
        mid.ran_inside_frame(&before, n, armed),
        n == 0 || !mid.ppu.at_frame_end(),
        mid.fault is None,
        after.ticked(&mid),
    ensures
        after.ran_inside_frame(&before, n + 1, armed || mid.arms_skip(&after)),
{
    let states = choose|states: Seq<Nes<I>>|
        {
            &&& #[trigger] Nes::run_of(states)
            &&& Nes::inside_frame(states)
            &&& states.len() == n + 1
            &&& states[0] == before
            &&& states[n as int] == mid
            &&& Nes::arms_skip_in(states) == armed
        };
    let longer = states.push(after);
    assert forall|i: int| 0 <= i < longer.len() - 1 implies (#[trigger] longer[i]).fault is None
        && longer[i + 1].ticked(&longer[i]) by {
        if i < n {
            assert(states[i].fault is None && states[i + 1].ticked(&states[i]));
        }
    }
    assert(Nes::run_of(longer));
    assert forall|i: int| 0 < i < longer.len() - 1 implies !(#[trigger] longer[i]).ppu.at_frame_end() by {
        assert(longer[i] == states[i]);
    }
    assert(Nes::inside_frame(longer));
    if armed {
        let i = choose|i: int| 0 <= i < states.len() - 1 && #[trigger] Nes::arms_skip_at(states, i);
        assert(longer[i] == states[i] && longer[i + 1] == states[i + 1]);
        assert(Nes::arms_skip_at(longer, i));
    }
    if mid.arms_skip(&after) {
        assert(Nes::arms_skip_at(longer, n as int));
    }
    if Nes::arms_skip_in(longer) {
        let i = choose|i: int| 0 <= i < longer.len() - 1 && #[trigger] Nes::arms_skip_at(longer, i);
        if i < n {
            assert(longer[i] == states[i] && longer[i + 1] == states[i + 1]);
            assert(Nes::arms_skip_at(states, i));
        }
    }
}

/// A machine is no ticks after itself, and has met no opcode fetch on the
/// way.
pub proof fn lemma_instruction_begins<I: IO>(nes: Nes<I>)
    ensures
        nes.ran_inside_instruction(&nes, 0),
{
    assert(Nes::run_of(seq![nes]));
    assert(Nes::inside_instruction(seq![nes]));
}

/// A run of one tick, or of at most three that end at the start of a CPU
/// cycle, starts no CPU cycle on its way.
pub proof fn lemma_one_cycle_start<I: IO>(states: Seq<Nes<I>>)
    requires
        Nes::run_of(states),
        1 <= states.len() <= 4,
        states.len() <= 2 || states.last().cycle is T1,
    ensures
        forall|i: int| 0 < i < states.len() - 1 ==> !((#[trigger] states[i]).cycle is T1),
{
    reveal(Nes::ticked);
    assert forall|i: int| 0 < i < states.len() - 1 implies !((#[trigger] states[i]).cycle is T1) by {
        assert(states[i + 1].ticked(&states[i]));
        if i + 1 < states.len() - 1 {
            assert(states[i + 2].ticked(&states[i + 1]));
        }
    }
}

/// A CPU cycle more inside an instruction: where a machine has met no opcode
/// fetch in `n` ticks and is not at one, one tick more, or the ticks to the
/// start of the next CPU cycle, meet none either.
pub proof fn lemma_instruction_goes_on<I: IO>(
    after: Nes<I>,
    mid: Nes<I>,
    before: Nes<I>,
    n: nat,
    m: nat,
)
    requires
        mid.ran_inside_instruction(&before, n),
        n == 0 || !(mid.cycle is T1 && mid.cpu.state.0 is FetchOpcode),
        after.ran(&mid, m),
        m <= 3,
        m <= 1 || after.cycle is T1,
    ensures
        after.ran_inside_instruction(&before, n + m),
{
    let first = choose|states: Seq<Nes<I>>|
        {
            &&& #[trigger] Nes::run_of(states)
            &&& Nes::inside_instruction(states)
            &&& states.len() == n + 1
            &&& states[0] == before
            &&& states[n as int] == mid
        };
    let second = choose|states: Seq<Nes<I>>|
        {
            &&& #[trigger] Nes::run_of(states)
            &&& states.len() == m + 1
            &&& states[0] == mid
            &&& states[m as int] == after
        };
    lemma_one_cycle_start(second);
    let all = first + second.skip(1);
    assert forall|i: int| 0 <= i < all.len() - 1 implies (#[trigger] all[i]).fault is None && all[i
        + 1].ticked(&all[i]) by {
        if i < n {
            assert(first[i].fault is None && first[i + 1].ticked(&first[i]));
            if i + 1 == n {
                assert(all[i + 1] == first[i + 1]);
            }
        } else {
            let k = i - n;
            assert(second[k].fault is None && second[k + 1].ticked(&second[k]));
            assert(all[i + 1] == second[k + 1]);
            if k == 0 {
                assert(all[i] == first[n as int]);
            } else {
                assert(all[i] == second[k]);
            }
        }
    }
    assert(Nes::run_of(all));
    assert forall|i: int| 0 < i < all.len() - 1 && (#[trigger] all[i]).cycle is T1 implies !(
    all[i].cpu.state.0 is FetchOpcode) by {
        if i < n {
            assert(all[i] == first[i]);
        } else if i == n {
            assert(all[i] == mid);
        } else {
            assert(all[i] == second[i - n]);
        }
    }
    assert(Nes::inside_instruction(all));
    assert(all[(n + m) as int] == after) by {
        if m > 0 {
            assert(all[(n + m) as int] == second.skip(1)[m - 1]);
        }
    }
}

/// A CPU cycle that does not stop the machine brings the CPU nearer to its
/// next opcode fetch: the DMA engine's copy is one cycle further, or the
/// CPU's instruction is. From an opcode fetch, without a copy to make, the
/// CPU enters an instruction of at most seven more cycles. Where no copy
/// holds the CPU before its next opcode fetch, none does after the cycle.
#[verifier::rlimit(30)]
pub proof fn lemma_cycle_nearer<I: IO>(after: Nes<I>, before: Nes<I>)
    requires
        after.ticked(&before),
        before.cycle is T1,
        after.fault is None,
    ensures
        after.nearer_than(&before),
{
    reveal(Nes::ticked);
    let mid = choose|mid: Nes<I>|
        {
            &&& #[trigger] mid.cpu_cycle_done(&before)
            &&& after.dotted(&mid, mid.cpu)
        };
    let (copied, byte, fetched, data) = choose|
        copied: Nes<I>,
        byte: u8,
        fetched: Nes<I>,
        data: u8,
    | #[trigger] mid.cpu_cycle_done_with(&before, copied, byte, fetched, data);
    let writing = before.cpu.state.writes();
    assert(after.cpu.state == mid.cpu.state);
    if before.dma.runs_cpu(writing) {
        let held = fetched.cpu;
        let request = before.cpu.request();
        assert(held.state == before.cpu.state);
        assert(held.request() == request);
        assert(fetched.fault is None);
        assert(!held.rejects(data));
        assert(mid.cpu == held.after_cycle(data));
        assert(mid.dma == request.dma_after(before.dma.after_cycle(writing, 0)));
        super::cpu::laws::lemma_remaining_bound(held.state.0);
        if held.state.0 is FetchOpcode {
            lemma_fetch(held, data);
            assert(!(after.cpu.state.0 is FetchOpcode));
        } else {
            lemma_cycle_progress(held, data);
            super::cpu::laws::lemma_write_then_done(held, data);
        }
    } else {
        assert(mid.cpu.state == before.cpu.state);
        lemma_copy_advances(before.dma, writing, byte);
    }
}

/// Which frames drop a dot: two ticks from dot 338 of the pre-render scanline.
/// In an odd frame with rendering on after the first of them, the second
/// takes the beam from dot 339 to the start of the next frame, which is
/// even. Else, unless the latch was armed before, the second takes the beam
/// to dot 340.
pub proof fn lemma_odd_frame_drops_a_dot<I: IO>(after: Nes<I>, mid: Nes<I>, before: Nes<I>)
    requires
        mid.ticked(&before),
        after.ticked(&mid),
        before.ppu.scanline == 261,
        before.ppu.dot == 338,
    ensures
        mid.ppu.scanline == 261 && mid.ppu.dot == 339,
        mid.ppu.rendering() && before.ppu.odd_frame ==> after.ppu.scanline == 0 && after.ppu.dot
            == 0 && !after.ppu.odd_frame,
        !before.ppu.perform_skip && !(mid.ppu.rendering() && before.ppu.odd_frame)
            ==> after.ppu.scanline == 261 && after.ppu.dot == 340 && after.ppu.odd_frame
            == before.ppu.odd_frame,
{
    lemma_tick_arms_the_skip(mid, before);
    reveal(Nes::ticked);
}

/// The tick from dot 338 of the pre-render scanline arms the latch that
/// drops a dot exactly when the frame is odd and rendering is on after the
/// tick; a latch that was armed stays so.
pub proof fn lemma_tick_arms_the_skip<I: IO>(mid: Nes<I>, before: Nes<I>)
    requires
        mid.ticked(&before),
        before.ppu.scanline == 261,
        before.ppu.dot == 338,
    ensures
        mid.ppu.scanline == 261 && mid.ppu.dot == 339,
        mid.ppu.odd_frame == before.ppu.odd_frame,
        mid.ppu.perform_skip == (before.ppu.perform_skip || before.arms_skip(&mid)),
{
    reveal(Nes::ticked);
    let start = if before.cycle is T1 {
        choose|start: Nes<I>|
            {
                &&& #[trigger] start.cpu_cycle_done(&before)
                &&& mid.dotted(&start, start.cpu)
            }
    } else {
        before
    };
    let (added, served) = choose|added: Seq<PpuEvent>, served: Board<I>|
        {
            &&& #[trigger] mid.ppu.ticked(&start.ppu, &start.board, added)
            &&& #[trigger] host_served(&served, &start.board, added)
            &&& mid.board.io == served.io
        };
    assert(start.ppu.scanline == 261 && start.ppu.dot == 338 && start.ppu.odd_frame
        == before.ppu.odd_frame && start.ppu.perform_skip == before.ppu.perform_skip) by {
        if before.cycle is T1 {
            lemma_cycle_keeps_beam(start, before);
        }
    }
    super::ppu::tick::lemma_skip_is_armed(mid.ppu, start.ppu, start.board, added);
}

/// A CPU cycle leaves the beam, the frame's parity and the latch that drops
/// a dot as they are.
pub proof fn lemma_cycle_keeps_beam<I: IO>(after: Nes<I>, before: Nes<I>)
    requires
        after.cpu_cycle_done(&before),
    ensures
        after.ppu.scanline == before.ppu.scanline,
        after.ppu.dot == before.ppu.dot,
        after.ppu.odd_frame == before.ppu.odd_frame,
        after.ppu.perform_skip == before.ppu.perform_skip,
{
    let (copied, byte, fetched, data) = choose|
        copied: Nes<I>,
        byte: u8,
        fetched: Nes<I>,
        data: u8,
    | #[trigger] after.cpu_cycle_done_with(&before, copied, byte, fetched, data);
    if before.dma.runs_cpu(before.cpu.state.writes()) {
        lemma_access_keeps_beam(fetched, before.dma_stepped(0), before.cpu.request(), data);
    } else {
        lemma_access_keeps_beam(copied, before, before.dma.request(), byte);
    }
}

/// An access to the bus leaves the beam, the frame's parity and the latch
/// that drops a dot as they are.
pub proof fn lemma_access_keeps_beam<I: IO>(
    after: Nes<I>,
    before: Nes<I>,
    request: BusRequest,
    data: u8,
)
    requires
        after.accessed(&before, request, data),
    ensures
        after.ppu.scanline == before.ppu.scanline,
        after.ppu.dot == before.ppu.dot,
        after.ppu.odd_frame == before.ppu.odd_frame,
        after.ppu.perform_skip == before.ppu.perform_skip,
{
    match request {
        BusRequest::Idle => {},
        BusRequest::Read(addr) => {
            lemma_registers_keep_beam(before.ppu, super::ppu_register(addr), after.ppu.read_buffer);
        },
        BusRequest::Write(addr, value) => {
            lemma_registers_keep_beam(before.ppu, super::ppu_register(addr), value);
        },
    }
}

/// The bound on the cycles until the next opcode fetch is itself bounded.
pub proof fn lemma_measure_bound<I: IO>(nes: Nes<I>)
    ensures
        nes.cycles_to_fetch() <= 7 * 520 + 514,
{
    super::cpu::laws::lemma_remaining_bound(nes.cpu.state.0);
}

} // verus!
