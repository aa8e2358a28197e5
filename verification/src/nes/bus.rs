//! The CPU's address space: work RAM, the PPU's registers, the DMA and
//! controller ports, and the cartridge.

use vstd::prelude::*;
use super::cpu::{BusAccess, CpuHostAccess, CPU};
use super::dma::{DMAState, DMA};
use super::fault::Fault;
use super::io::{ControllerPortDataLines, IO};
use super::ppu::registers::in_palette;
use super::ppu::{signal_of, PPUHostAccess, PPU};
use super::{ppu_register, ram_cell, Nes};

verus! {

/// The register that starts a sprite DMA.
pub const OAMDMA: u16 = 0x4014;

/// The first controller port, and for a write the strobe line of both.
pub const JOYPAD_1: u16 = 0x4016;

/// The second controller port.
pub const JOYPAD_2: u16 = 0x4017;

impl<I: IO> Nes<I> {
    /// A read of a PPU register. The PPU's answer and its new state are
    /// those of `PPU::reg_read`; what it fetched for `$2007` is what the
    /// cartridge holds; a signal on the NMI line reaches the CPU's latch.
    fn read_ppu_register(&mut self, addr: u16) -> (value: u8)
        requires
            old(self).wf(),
            0x2000 <= addr < 0x4000,
        ensures
            final(self).inv(),
            final(self).same_outside_ppu(old(self)),
            final(self).bus_log == old(self).bus_log,
            final(self).board.io == old(self).board.io,
            final(self).board.cartridge == old(self).board.cartridge,
            final(self).board.vram == old(self).board.vram,
            value == old(self).ppu.reg_read_value(ppu_register(addr)),
            final(self).ppu == old(self).ppu.after_reg_read(
                ppu_register(addr),
                final(self).ppu.read_buffer,
            ),
            ppu_register(addr) == 7 ==> final(self).ppu.read_buffer == old(
                self,
            ).board.cartridge.ppu_byte(
                old(self).board.vram@,
                (old(self).ppu.addr_v % 0x4000) as u16,
            ),
            final(self).cpu == old(self).cpu.signalled(
                signal_of(
                    old(self).ppu.reg_read_events(ppu_register(addr), final(self).ppu.read_buffer),
                ),
            ),
    {
        let ppu_reg = ((addr - 0x2000) % 8) as u8;
        let value = self.ppu.reg_read(&mut self.board, ppu_reg);
        proof {
            let events = old(self).ppu.reg_read_events(ppu_reg, self.ppu.read_buffer);
            assert(self.board.log@ =~= events);
        }
        self.pass_nmi();
        value
    }

    /// A write to a PPU register. The PPU's new state is that of
    /// `PPU::reg_write`; a byte written through `$2007` outside palette
    /// memory reaches the cartridge; a signal on the NMI line reaches the
    /// CPU's latch.
    fn write_ppu_register(&mut self, addr: u16, value: u8)
        requires
            old(self).wf(),
            0x2000 <= addr < 0x4000,
        ensures
            final(self).wf(),
            final(self).same_outside_ppu(old(self)),
            final(self).bus_log == old(self).bus_log,
            final(self).board.io == old(self).board.io,
            final(self).ppu == (PPU {
                oam: final(self).ppu.oam,
                cgram: final(self).ppu.cgram,
                ..old(self).ppu.registers_after_write(ppu_register(addr), value)
            }),
            final(self).ppu.oam@ == old(self).ppu.oam_after_write(ppu_register(addr), value),
            final(self).ppu.cgram@ == old(self).ppu.cgram_after_write(ppu_register(addr), value),
            if ppu_register(addr) == 7 && !in_palette(old(self).ppu.addr_v) {
                final(self).board.cartridge.ppu_written(
                    final(self).board.vram@,
                    &old(self).board.cartridge,
                    old(self).board.vram@,
                    (old(self).ppu.addr_v % 0x4000) as u16,
                    value,
                )
            } else {
                final(self).board.cartridge == old(self).board.cartridge && final(self).board.vram
                    == old(self).board.vram
            },
            final(self).cpu == old(self).cpu.signalled(
                signal_of(old(self).ppu.reg_write_events(ppu_register(addr), value)),
            ),
    {
        let ppu_reg = ((addr - 0x2000) % 8) as u8;
        self.ppu.reg_write(&mut self.board, ppu_reg, value);
        proof {
            let events = old(self).ppu.reg_write_events(ppu_reg, value);
            assert(self.board.log@ =~= events);
        }
        self.pass_nmi();
    }

    /// A write to `$4016`: bit 0 drives the strobe line of the controllers,
    /// and the host hears of a change of it.
    fn write_strobe(&mut self, value: u8)
        requires
            old(self).wf(),
        ensures
            final(self).wf(),
            final(self).controller_latch == (value & 1 == 1),
            if final(self).controller_latch == old(self).controller_latch {
                final(self).board.io == old(self).board.io
            } else {
                final(self).board.io.strobed(&old(self).board.io, final(self).controller_latch)
            },
            final(self).cpu == old(self).cpu,
            final(self).ppu == old(self).ppu,
            final(self).dma == old(self).dma,
            final(self).board.cartridge == old(self).board.cartridge,
            final(self).board.vram == old(self).board.vram,
            final(self).cpu_ram == old(self).cpu_ram,
            final(self).cycle == old(self).cycle,
            final(self).fault == old(self).fault,
            final(self).bus_log == old(self).bus_log,
    {
        let new_l = value & 1 == 1;
        let current_l = self.controller_latch;
        if new_l != current_l {
            self.controller_latch = new_l;
            self.board.io.controller_latch_change(new_l);
        }
    }

    /// A read of a controller port: what the host puts on the data lines.
    fn read_controller(&mut self, addr: u16) -> (value: u8)
        requires
            old(self).wf(),
            addr == 0x4016 || addr == 0x4017,
        ensures
            final(self).wf(),
            final(self).cpu == old(self).cpu,
            final(self).ppu == old(self).ppu,
            final(self).dma == old(self).dma,
            final(self).board.cartridge == old(self).board.cartridge,
            final(self).board.vram == old(self).board.vram,
            final(self).cpu_ram == old(self).cpu_ram,
            final(self).cycle == old(self).cycle,
            final(self).controller_latch == old(self).controller_latch,
            final(self).fault == old(self).fault,
            final(self).bus_log == old(self).bus_log,
            final(self).board.io.answered(
                &old(self).board.io,
                addr == 0x4017,
                ControllerPortDataLines { bits: value },
            ),
    {
        if addr == JOYPAD_1 {
            self.board.io.controller_port_1_read().bits()
        } else {
            self.board.io.controller_port_2_read().bits()
        }
    }

    /// Whether `self` is the machine `before` after a read of `addr` that
    /// returned `value`.
    ///
    /// A read of a PPU register is answered by the PPU, as `PPU::reg_read`
    /// has it; what the PPU fetches for `$2007` is what the cartridge holds,
    /// and a signal on the NMI line reaches the CPU's latch. A read of a
    /// controller port is answered by the host. Every other read is answered
    /// from memory and changes nothing, except that one of a test-mode
    /// register stops the machine.
    pub open spec fn read_done(&self, before: &Nes<I>, addr: u16, value: u8) -> bool {
        let reg = ppu_register(addr);
        &&& self.inv()
        &&& self.accesses() == before.accesses().push(BusAccess::Read { addr, value })
        &&& self.dma == before.dma
        &&& self.cpu_ram == before.cpu_ram
        &&& self.cycle == before.cycle
        &&& self.controller_latch == before.controller_latch
        &&& self.board.cartridge == before.board.cartridge
        &&& self.board.vram == before.board.vram
        &&& self.fault == if Self::unmapped(addr) && before.fault is None {
            Some(Fault::UnmappedRead(addr))
        } else {
            before.fault
        }
        &&& if 0x2000 <= addr < 0x4000 {
            &&& value == before.ppu.reg_read_value(reg)
            &&& self.ppu == before.ppu.after_reg_read(reg, self.ppu.read_buffer)
            &&& reg == 7 ==> self.ppu.read_buffer == before.board.cartridge.ppu_byte(
                before.board.vram@,
                (before.ppu.addr_v % 0x4000) as u16,
            )
            &&& self.cpu == before.cpu.signalled(
                signal_of(before.ppu.reg_read_events(reg, self.ppu.read_buffer)),
            )
            &&& self.board.io == before.board.io
        } else if addr == 0x4016 || addr == 0x4017 {
            &&& self.cpu == before.cpu
            &&& self.ppu == before.ppu
            &&& self.board.io.answered(
                &before.board.io,
                addr == 0x4017,
                ControllerPortDataLines { bits: value },
            )
        } else {
            &&& value == before.memory_byte(addr)
            &&& self.cpu == before.cpu
            &&& self.ppu == before.ppu
            &&& self.board.io == before.board.io
        }
    }

    /// Whether `self` is the machine `before` after a write of `value` to
    /// `addr`.
    ///
    /// A write goes to work RAM, to a PPU register, as `PPU::reg_write` has
    /// it, to `$4014`, which asks for a sprite DMA, to `$4016`, which drives
    /// the controllers' strobe, or to the cartridge. A byte written through
    /// `$2007` outside palette memory reaches the cartridge, and a signal on
    /// the NMI line reaches the CPU's latch. A write to an audio register is
    /// dropped, and one to a test-mode register stops the machine. The host
    /// hears of a change of the strobe, and of nothing else.
    pub open spec fn written(&self, before: &Nes<I>, addr: u16, value: u8) -> bool {
        let reg = ppu_register(addr);
        &&& self.inv()
        &&& self.accesses() == before.accesses().push(BusAccess::Write { addr, value })
        &&& self.cycle == before.cycle
        &&& self.fault == if Self::unmapped(addr) && before.fault is None {
            Some(Fault::UnmappedWrite(addr))
        } else {
            before.fault
        }
        &&& self.dma == if addr == 0x4014 {
            DMA { state: DMAState::Req { addr_high: value }, ..before.dma }
        } else {
            before.dma
        }
        &&& self.controller_latch == if addr == 0x4016 {
            value & 1 == 1
        } else {
            before.controller_latch
        }
        &&& self.cpu_ram@ == if addr < 0x2000 {
            before.cpu_ram@.update(ram_cell(addr), value)
        } else {
            before.cpu_ram@
        }
        &&& if 0x2000 <= addr < 0x4000 {
            &&& self.ppu == (PPU {
                oam: self.ppu.oam,
                cgram: self.ppu.cgram,
                ..before.ppu.registers_after_write(reg, value)
            })
            &&& self.ppu.oam@ == before.ppu.oam_after_write(reg, value)
            &&& self.ppu.cgram@ == before.ppu.cgram_after_write(reg, value)
            &&& if reg == 7 && !in_palette(before.ppu.addr_v) {
                self.board.cartridge.ppu_written(
                    self.board.vram@,
                    &before.board.cartridge,
                    before.board.vram@,
                    (before.ppu.addr_v % 0x4000) as u16,
                    value,
                )
            } else {
                self.board.cartridge == before.board.cartridge && self.board.vram
                    == before.board.vram
            }
            &&& self.cpu == before.cpu.signalled(
                signal_of(before.ppu.reg_write_events(reg, value)),
            )
            &&& self.board.io == before.board.io
        } else {
            &&& self.ppu == before.ppu
            &&& self.cpu == before.cpu
            &&& self.board.vram == before.board.vram
            &&& if addr >= 0x4020 {
                self.board.cartridge.cpu_written(&before.board.cartridge, addr, value)
            } else {
                self.board.cartridge == before.board.cartridge
            }
            &&& if addr == 0x4016 && self.controller_latch != before.controller_latch {
                self.board.io.strobed(&before.board.io, self.controller_latch)
            } else {
                self.board.io == before.board.io
            }
        }
    }

    /// Whether the CPU address `addr` is one of the test-mode registers, on
    /// which the machine stops.
    pub open spec fn unmapped(addr: u16) -> bool {
        0x4018 <= addr <= 0x401F
    }

    /// The byte that a read of `addr` returns, for an address outside
    /// `$2000`-`$3FFF` and the controller ports: work RAM, zero for the audio
    /// registers and the test-mode registers, and the cartridge.
    pub open spec fn memory_byte(&self, addr: u16) -> u8 {
        if addr < 0x2000 {
            self.cpu_ram[ram_cell(addr)]
        } else if addr >= 0x4020 {
            self.board.cartridge.cpu_byte(addr)
        } else {
            0
        }
    }
}

impl<I: IO> CpuHostAccess for Nes<I> {
    /// The parts are in order, whether or not a cartridge is in the slot:
    /// an empty slot reads as zero and takes nothing.
    open spec fn wf(&self) -> bool {
        self.inv()
    }

    open spec fn accesses(&self) -> Seq<BusAccess> {
        self.bus_log@
    }

    /// A read of the CPU's address space.
    fn read(&mut self, addr: u16) -> (value: u8)
        ensures
            final(self).read_done(old(self), addr, value),
    {
        let value = if addr < 0x2000 {
            self.cpu_ram[(addr % 0x800) as usize]
        } else if addr < 0x4000 {
            self.read_ppu_register(addr)
        } else if addr == JOYPAD_1 || addr == JOYPAD_2 {
            self.read_controller(addr)
        } else if addr < 0x4018 {
            // The audio registers
            0
        } else if addr < 0x4020 {
            self.stop(Fault::UnmappedRead(addr));
            0
        } else {
            self.board.cartridge.read_cpu(addr)
        };
        proof {
            self.bus_log@ = self.bus_log@.push(BusAccess::Read { addr, value });
        }
        value
    }

    /// A write to the CPU's address space.
    fn write(&mut self, addr: u16, value: u8)
        ensures
            final(self).written(old(self), addr, value),
    {
        if addr < 0x2000 {
            self.cpu_ram[(addr % 0x800) as usize] = value;
        } else if addr < 0x4000 {
            self.write_ppu_register(addr, value);
        } else if addr == OAMDMA {
            self.dma.trigger_oamdma(value);
        } else if addr == JOYPAD_1 {
            self.write_strobe(value);
        } else if addr < 0x4018 {
            // The audio registers
        } else if addr < 0x4020 {
            self.stop(Fault::UnmappedWrite(addr));
        } else {
            self.board.cartridge.write_cpu(addr, value);
        }
        proof {
            self.bus_log@ = self.bus_log@.push(BusAccess::Write { addr, value });
        }
    }
}

/// A byte that is written to work RAM is read back at the same address and
/// at its three mirrors: for an address in `$0000`-`$07FF` the addresses
/// `$0800`, `$1000` and `$1800` above it name the same cell.
pub proof fn lemma_ram_mirrors(ram: Seq<u8>, addr: u16, value: u8, mirror: int)
    requires
        ram.len() == 2048,
        addr < 0x800,
        0 <= mirror < 4,
    ensures
        ram_cell((addr + 0x800 * mirror) as u16) == addr,
        ram.update(ram_cell(addr), value)[ram_cell((addr + 0x800 * mirror) as u16)] == value,
{
}

} // verus!
