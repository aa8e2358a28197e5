//! What the PPU is wired to: the cartridge, the console's nametable memory,
//! the screen, and the CPU's NMI input.

use vstd::prelude::*;
use super::io::IO;
use super::mappers::Cartridge;
use super::ppu::{signal_of, PPUHostAccess, PpuEvent};

verus! {

/// What the PPU reaches outside itself: the host, the cartridge, the
/// nametable memory of the console and the NMI line to the CPU.
pub struct Board<I: IO> {
    pub io: I,
    pub cartridge: Cartridge,
    pub vram: [u8; 2048],
    /// The last signal that the PPU gave on the NMI line and that the
    /// machine has not passed on to the CPU yet.
    pub nmi_signal: Option<bool>,
    /// What the PPU has done since the machine last looked.
    pub log: Ghost<Seq<PpuEvent>>,
}

impl<I: IO> Board<I> {
    /// What holds of the board whether or not a cartridge is in the slot.
    pub open spec fn inv(&self) -> bool {
        self.cartridge.wf() && self.nmi_signal == signal_of(self.log@)
    }

    /// A board without a cartridge.
    pub fn new(io: I) -> (board: Board<I>)
        ensures
            board.inv(),
            board.io == io,
            board.cartridge is NotConnected,
            board.log@.len() == 0,
            forall|i: int| 0 <= i < 2048 ==> board.vram[i] == 0,
    {
        Board {
            io,
            cartridge: Cartridge::NotConnected,
            vram: [0u8; 2048],
            nmi_signal: None,
            log: Ghost(Seq::empty()),
        }
    }

    /// Hands over the signal that the PPU has left on the NMI line, and
    /// starts the record anew.
    pub fn take_signal(&mut self) -> (signal: Option<bool>)
        requires
            old(self).inv(),
        ensures
            final(self).inv(),
            signal == signal_of(old(self).log@),
            final(self).log@.len() == 0,
            final(self).io == old(self).io,
            final(self).cartridge == old(self).cartridge,
            final(self).vram == old(self).vram,
    {
        let signal = self.nmi_signal;
        self.nmi_signal = None;
        proof {
            self.log@ = Seq::empty();
        }
        signal
    }
}

impl<I: IO> PPUHostAccess for Board<I> {
    open spec fn wf(&self) -> bool {
        self.inv()
    }

    open spec fn events(&self) -> Seq<PpuEvent> {
        self.log@
    }

    /// A read is answered by the cartridge and changes nothing; a write goes
    /// to the cartridge, which may pass it on to the nametable memory; a
    /// signal on the NMI line is kept for the machine; a pixel goes to the
    /// host.
    open spec fn served(&self, before: &Board<I>, event: PpuEvent) -> bool {
        &&& self.log@ == before.log@.push(event)
        &&& match event {
            PpuEvent::Read { addr, value } => {
                &&& value == before.cartridge.ppu_byte(before.vram@, addr)
                &&& self.io == before.io
                &&& self.cartridge == before.cartridge
                &&& self.vram == before.vram
                &&& self.nmi_signal == before.nmi_signal
            },
            PpuEvent::Write { addr, value } => {
                &&& self.cartridge.ppu_written(
                    self.vram@,
                    &before.cartridge,
                    before.vram@,
                    addr,
                    value,
                )
                &&& self.io == before.io
                &&& self.nmi_signal == before.nmi_signal
            },
            PpuEvent::TriggerNmi => {
                &&& self.io == before.io
                &&& self.cartridge == before.cartridge
                &&& self.vram == before.vram
                &&& self.nmi_signal == Some(true)
            },
            PpuEvent::SuppressNmi => {
                &&& self.io == before.io
                &&& self.cartridge == before.cartridge
                &&& self.vram == before.vram
                &&& self.nmi_signal == Some(false)
            },
            PpuEvent::Pixel { row, col, r, g, b } => {
                &&& self.io.shown(&before.io, row, col, (r, g, b))
                &&& self.cartridge == before.cartridge
                &&& self.vram == before.vram
                &&& self.nmi_signal == before.nmi_signal
            },
        }
    }

    open spec fn byte(&self, addr: u16) -> u8 {
        self.cartridge.ppu_byte(self.vram@, addr)
    }

    open spec fn memory_kept(&self, before: &Board<I>) -> bool {
        self.cartridge == before.cartridge && self.vram == before.vram
    }

    proof fn lemma_memory_kept_bytes(&self, before: &Board<I>, addr: u16) {
    }

    proof fn lemma_memory_kept_by_itself(&self) {
    }

    proof fn lemma_memory_kept_through(&self, mid: &Board<I>, before: &Board<I>) {
    }

    fn ppu_read(&mut self, addr: u16) -> (value: u8) {
        let value = self.cartridge.read_ppu(&self.vram, addr);
        proof {
            self.log@ = self.log@.push(PpuEvent::Read { addr, value });
            assert(self.log@.drop_last() =~= old(self).log@);
        }
        value
    }

    fn ppu_write(&mut self, addr: u16, value: u8) {
        self.cartridge.write_ppu(&mut self.vram, addr, value);
        proof {
            self.log@ = self.log@.push(PpuEvent::Write { addr, value });
            assert(self.log@.drop_last() =~= old(self).log@);
        }
    }

    fn ppu_trigger_nmi(&mut self) {
        self.nmi_signal = Some(true);
        proof {
            self.log@ = self.log@.push(PpuEvent::TriggerNmi);
        }
    }

    fn ppu_suppress_nmi(&mut self) {
        self.nmi_signal = Some(false);
        proof {
            self.log@ = self.log@.push(PpuEvent::SuppressNmi);
        }
    }

    fn ppu_set_pixel(&mut self, row: u16, col: u16, r: u8, g: u8, b: u8) {
        self.io.set_pixel(row, col, r, g, b);
        proof {
            self.log@ = self.log@.push(PpuEvent::Pixel { row, col, r, g, b });
            assert(self.log@.drop_last() =~= old(self).log@);
        }
    }
}

} // verus!
