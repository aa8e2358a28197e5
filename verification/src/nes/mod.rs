//! The machine: the CPU, the PPU and the DMA engine on one clock, the two
//! KiB of work RAM, and the bus that ties them to the cartridge and the
//! host.

use vstd::prelude::*;

pub mod board;
pub mod bus;
pub mod clock;
pub mod cpu;
pub mod dma;
pub mod fault;
pub mod io;
pub mod mappers;
pub mod palette;
pub mod ppu;
pub mod screen;

pub use board::Board;
pub use fault::Fault;

use cpu::{BusAccess, CPU};
use dma::{DMAState, DMA};
use io::IO;
use mappers::{Cartridge, MapperError};
use crate::romfiles::RomFile;
use ppu::{signal_of, PPU};

verus! {

/// The three phases of a CPU cycle; the PPU makes a dot in each.
#[derive(Debug, Clone, Copy, PartialEq, Eq, Structural)]
pub enum Cycle {
    T1,
    T2,
    T3,
}

/// The console: CPU, PPU, sprite DMA, work RAM and what the PPU reaches
/// through its board. Once a fault is recorded the console stands still
/// until it is reset.
pub struct Nes<I: IO> {
    pub cpu: CPU,
    pub ppu: PPU,
    pub dma: DMA,
    pub board: Board<I>,
    pub cpu_ram: [u8; 2048],
    pub cycle: Cycle,
    pub controller_latch: bool,
    /// The fault on which the machine has stopped, if it has.
    pub fault: Option<Fault>,
    /// The accesses that the bus has carried out.
    pub bus_log: Ghost<Seq<BusAccess>>,
}

/// The place in work RAM of a CPU address below `$2000`: the two KiB repeat
/// four times.
pub open spec fn ram_cell(addr: u16) -> int {
    (addr % 0x800) as int
}

/// The PPU register that a CPU address in `$2000`-`$3FFF` names: the eight
/// registers repeat every eight bytes.
pub open spec fn ppu_register(addr: u16) -> u8 {
    ((addr - 0x2000) % 8) as u8
}

impl Cycle {
    /// The phase after this one.
    pub open spec fn next(self) -> Cycle {
        match self {
            Cycle::T1 => Cycle::T2,
            Cycle::T2 => Cycle::T3,
            Cycle::T3 => Cycle::T1,
        }
    }
}

impl<I: IO> Nes<I> {
    /// What holds of the machine whether or not a cartridge is in the slot.
    pub open spec fn inv(&self) -> bool {
        &&& self.ppu.wf()
        &&& self.board.inv()
        &&& self.board.log@.len() == 0
    }

    /// Whether everything outside the PPU and what it is wired to, but for
    /// the CPU's NMI latch and the bus's record, is that of `before`.
    pub open spec fn same_outside_ppu(&self, before: &Nes<I>) -> bool {
        &&& self.cpu == (CPU { nmi: self.cpu.nmi, ..before.cpu })
        &&& self.dma == before.dma
        &&& self.cpu_ram == before.cpu_ram
        &&& self.cycle == before.cycle
        &&& self.controller_latch == before.controller_latch
        &&& self.fault == before.fault
    }

    /// A machine at power-on, without a cartridge.
    pub fn new(io: I) -> (nes: Nes<I>)
        ensures
            nes.inv(),
            nes.cpu == CPU::power_on(),
            nes.ppu.registers_clear(),
            forall|i: int| 0 <= i < 32 ==> nes.ppu.cgram[i] == 0,
            forall|i: int| 0 <= i < 256 ==> nes.ppu.oam[i] == 0,
            nes.dma == (DMA { is_odd: false, state: DMAState::No }),
            nes.board.io == io,
            nes.board.cartridge is NotConnected,
            nes.cycle is T1,
            !nes.controller_latch,
            nes.fault is None,
            nes.bus_log@.len() == 0,
            forall|i: int| 0 <= i < 2048 ==> nes.cpu_ram[i] == 0,
            forall|i: int| 0 <= i < 2048 ==> nes.board.vram[i] == 0,
    {
        Nes {
            cpu: CPU::new(),
            ppu: PPU::new(),
            dma: DMA::new(),
            board: Board::new(io),
            cpu_ram: [0u8; 2048],
            cycle: Cycle::T1,
            controller_latch: false,
            fault: None,
            bus_log: Ghost(Seq::empty()),
        }
    }

    /// A machine at power-on, as `new` makes it, with the cartridge that
    /// `rom` describes in its slot: work RAM, nametable, palette and sprite
    /// memory hold zeros, the strobe line is low and the bus has carried
    /// nothing yet.
    pub fn from_rom(io: I, rom: RomFile) -> (r: Result<Nes<I>, MapperError>)
        ensures
            match r {
                Ok(nes) => {
                    &&& mappers::mapper_error(&rom) is None
                    &&& nes.inv()
                    &&& nes.board.cartridge.connected()
                    &&& nes.cpu == CPU::power_on()
                    &&& nes.ppu.registers_clear()
                    &&& nes.dma == (DMA { is_odd: false, state: DMAState::No })
                    &&& nes.board.io == io
                    &&& nes.cycle is T1
                    &&& !nes.controller_latch
                    &&& nes.fault is None
                    &&& nes.bus_log@.len() == 0
                    &&& forall|i: int| 0 <= i < 32 ==> nes.ppu.cgram[i] == 0
                    &&& forall|i: int| 0 <= i < 256 ==> nes.ppu.oam[i] == 0
                    &&& forall|i: int| 0 <= i < 2048 ==> nes.cpu_ram[i] == 0
                    &&& forall|i: int| 0 <= i < 2048 ==> nes.board.vram[i] == 0
                    &&& rom.mapper == 0 ==> (nes.board.cartridge matches Cartridge::NROM(m)
                        && m.made_of(&rom))
                    &&& rom.mapper == 1 ==> (nes.board.cartridge matches Cartridge::SxROM(m)
                        && m.made_of(&rom))
                    &&& rom.mapper == 2 ==> (nes.board.cartridge matches Cartridge::UxROM(m)
                        && m.made_of(&rom))
                },
                Err(e) => mappers::mapper_error(&rom) == Some(e),
            },
    {
        let cartridge = mappers::from_rom(rom)?;
        let mut nes = Nes::new(io);
        nes.insert_cartridge(cartridge);
        Ok(nes)
    }

    /// Resets the CPU, the PPU and the DMA engine, and lifts a fault. A
    /// sprite DMA that was asked for or under way is given up. Memory stays
    /// as it is.
    pub fn reset(&mut self)
        requires
            old(self).inv(),
        ensures
            final(self).inv(),
            final(self).cpu == old(self).cpu.at(cpu::S::Reset),
            final(self).dma == (DMA { is_odd: false, state: DMAState::No }),
            final(self).ppu == (PPU {
                ppuctrl: 0,
                ppumask: 0,
                scanline: 0,
                dot: 0,
                odd_frame: false,
                perform_skip: false,
                ..old(self).ppu
            }),
            final(self).fault is None,
            final(self).board == old(self).board,
            final(self).cpu_ram == old(self).cpu_ram,
            final(self).cycle == old(self).cycle,
            final(self).controller_latch == old(self).controller_latch,
            final(self).bus_log == old(self).bus_log,
    {
        self.cpu.reset();
        self.ppu.reset();
        self.dma.reset();
        self.fault = None;
    }

    /// Puts `cartridge` into the slot, in place of what was there.
    pub fn insert_cartridge(&mut self, cartridge: Cartridge)
        requires
            old(self).inv(),
            cartridge.wf(),
        ensures
            final(self).inv(),
            final(self).board.cartridge == cartridge,
            final(self).board.io == old(self).board.io,
            final(self).board.vram == old(self).board.vram,
            final(self).same_outside_ppu(old(self)),
            final(self).cpu == old(self).cpu,
            final(self).ppu == old(self).ppu,
            final(self).bus_log == old(self).bus_log,
    {
        self.board.cartridge = cartridge;
    }

    /// Empties the slot.
    pub fn remove_cartridge(&mut self)
        requires
            old(self).inv(),
        ensures
            final(self).inv(),
            final(self).board.cartridge is NotConnected,
            final(self).board.io == old(self).board.io,
            final(self).board.vram == old(self).board.vram,
            final(self).same_outside_ppu(old(self)),
            final(self).cpu == old(self).cpu,
            final(self).ppu == old(self).ppu,
            final(self).bus_log == old(self).bus_log,
    {
        self.board.cartridge = Cartridge::NotConnected;
    }

    /// The work RAM of the CPU.
    pub fn ram(&self) -> (ram: &[u8; 2048])
        ensures
            *ram == self.cpu_ram,
    {
        &self.cpu_ram
    }

    /// The nametable memory of the console.
    pub fn vram(&self) -> (ram: &[u8; 2048])
        ensures
            *ram == self.board.vram,
    {
        &self.board.vram
    }

    /// Passes the signal that the PPU has left on the NMI line on to the
    /// CPU.
    pub(crate) fn pass_nmi(&mut self)
        requires
            old(self).ppu.wf(),
            old(self).board.inv(),
        ensures
            final(self).inv(),
            final(self).cpu == old(self).cpu.signalled(signal_of(old(self).board.log@)),
            final(self).ppu == old(self).ppu,
            final(self).dma == old(self).dma,
            final(self).board.io == old(self).board.io,
            final(self).board.cartridge == old(self).board.cartridge,
            final(self).board.vram == old(self).board.vram,
            final(self).cpu_ram == old(self).cpu_ram,
            final(self).cycle == old(self).cycle,
            final(self).controller_latch == old(self).controller_latch,
            final(self).fault == old(self).fault,
            final(self).bus_log == old(self).bus_log,
    {
        match self.board.take_signal() {
            Some(true) => self.cpu.set_nmi(),
            Some(false) => self.cpu.clear_nmi(),
            None => {},
        }
    }

    /// Notes a fault; the first one stays.
    pub(crate) fn stop(&mut self, fault: Fault)
        ensures
            final(self).fault == match old(self).fault {
                Some(f) => Some(f),
                None => Some(fault),
            },
            final(self).cpu == old(self).cpu,
            final(self).ppu == old(self).ppu,
            final(self).dma == old(self).dma,
            final(self).board == old(self).board,
            final(self).cpu_ram == old(self).cpu_ram,
            final(self).cycle == old(self).cycle,
            final(self).controller_latch == old(self).controller_latch,
            final(self).bus_log == old(self).bus_log,
    {
        if self.fault.is_none() {
            self.fault = Some(fault);
        }
    }
}

} // verus!
