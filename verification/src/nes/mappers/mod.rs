//! Cartridges: what answers the CPU in `$4020`-`$FFFF` and the PPU in
//! `$0000`-`$3EFF`.

use vstd::prelude::*;
use crate::romfiles::RomFile;

pub mod common;
pub mod nrom;
pub mod sxrom;
pub mod uxrom;

pub use common::{Chr, MirrorMode};
pub use nrom::NROM;
pub use sxrom::SxROM;
pub use uxrom::UxROM;

verus! {

/// Why no cartridge could be made of an image.
#[derive(Debug, Clone, Copy, PartialEq, Eq, Structural)]
pub enum MapperError {
    /// The image asks for a mapper that is not there.
    UnsupportedMapper(usize),
    /// The program ROM has a size that the mapper cannot take.
    BadPrgRomSize,
    /// The character ROM has a size that the mapper cannot take.
    BadChrRomSize,
    /// The image asks for four nametables, which the mapper cannot give.
    FourScreen,
}

/// What a mapper does. The console lends the mapper its nametable memory for
/// each PPU access, so that the mapper decides the mirroring.
pub trait CartridgeImpl: Sized {
    /// What holds of a cartridge that was made of an image.
    spec fn wf(&self) -> bool;

    /// The byte that the CPU reads at `addr`.
    spec fn cpu_byte(&self, addr: u16) -> u8;

    /// Whether `self` is the cartridge `before` after the CPU wrote `value`
    /// at `addr`.
    spec fn cpu_written(&self, before: &Self, addr: u16, value: u8) -> bool;

    /// The byte that the PPU reads at `addr`, with `vram` for the nametable
    /// memory.
    spec fn ppu_byte(&self, vram: Seq<u8>, addr: u16) -> u8;

    /// Whether `self` and `vram` are the cartridge `before` and the
    /// nametable memory `vram_before` after the PPU wrote `value` at `addr`.
    spec fn ppu_written(
        &self,
        vram: Seq<u8>,
        before: &Self,
        vram_before: Seq<u8>,
        addr: u16,
        value: u8,
    ) -> bool;

    /// A read by the CPU.
    fn read_cpu(&self, addr: u16) -> (value: u8)
        requires
            self.wf(),
        ensures
            value == self.cpu_byte(addr),
    ;

    /// A write by the CPU.
    fn write_cpu(&mut self, addr: u16, value: u8)
        requires
            old(self).wf(),
        ensures
            final(self).wf(),
            final(self).cpu_written(old(self), addr, value),
    ;

    /// A read by the PPU.
    fn read_ppu(&self, vram: &[u8; 2048], addr: u16) -> (value: u8)
        requires
            self.wf(),
            addr < 0x4000,
        ensures
            value == self.ppu_byte(vram@, addr),
    ;

    /// A write by the PPU.
    fn write_ppu(&mut self, vram: &mut [u8; 2048], addr: u16, value: u8)
        requires
            old(self).wf(),
            addr < 0x4000,
        ensures
            final(self).wf(),
            final(self).ppu_written(final(vram)@, old(self), old(vram)@, addr, value),
    ;
}

/// What sits in the cartridge slot.
#[derive(Debug)]
pub enum Cartridge {
    NotConnected,
    NROM(NROM),
    SxROM(SxROM),
    UxROM(UxROM),
}

/// The error on which an image is refused, if it is.
pub open spec fn mapper_error(rom: &RomFile) -> Option<MapperError> {
    if rom.mapper == 0 {
        nrom::rom_error(rom)
    } else if rom.mapper == 1 {
        sxrom::rom_error(rom)
    } else if rom.mapper == 2 {
        uxrom::rom_error(rom)
    } else {
        Some(MapperError::UnsupportedMapper(rom.mapper))
    }
}

/// The cartridge that an image describes: mapper 0 is NROM, 1 is SxROM, 2 is
/// UxROM.
pub fn from_rom(rom: RomFile) -> (r: Result<Cartridge, MapperError>)
    ensures
        match r {
            Ok(c) => {
                &&& mapper_error(&rom) is None
                &&& c.wf()
                &&& rom.mapper == 0 ==> (c matches Cartridge::NROM(m) && m.made_of(&rom))
                &&& rom.mapper == 1 ==> (c matches Cartridge::SxROM(m) && m.made_of(&rom))
                &&& rom.mapper == 2 ==> (c matches Cartridge::UxROM(m) && m.made_of(&rom))
            },
            Err(e) => mapper_error(&rom) == Some(e),
        },
{
    let mapper = rom.mapper;
    if mapper == 0 {
        match nrom::from_rom(rom) {
            Ok(c) => Ok(Cartridge::NROM(c)),
            Err(e) => Err(e),
        }
    } else if mapper == 1 {
        match sxrom::from_rom(rom) {
            Ok(c) => Ok(Cartridge::SxROM(c)),
            Err(e) => Err(e),
        }
    } else if mapper == 2 {
        match uxrom::from_rom(rom) {
            Ok(c) => Ok(Cartridge::UxROM(c)),
            Err(e) => Err(e),
        }
    } else {
        Err(MapperError::UnsupportedMapper(mapper))
    }
}

impl Cartridge {
    /// Whether a cartridge is in the slot.
    pub open spec fn connected(&self) -> bool {
        !(self is NotConnected)
    }

    pub open spec fn wf(&self) -> bool {
        match self {
            Cartridge::NotConnected => true,
            Cartridge::NROM(c) => c.wf(),
            Cartridge::SxROM(c) => c.wf(),
            Cartridge::UxROM(c) => c.wf(),
        }
    }

    /// The byte that the CPU reads at `addr`: zero from an empty slot.
    pub open spec fn cpu_byte(&self, addr: u16) -> u8 {
        match self {
            Cartridge::NotConnected => 0,
            Cartridge::NROM(c) => c.cpu_byte(addr),
            Cartridge::SxROM(c) => c.cpu_byte(addr),
            Cartridge::UxROM(c) => c.cpu_byte(addr),
        }
    }

    /// Whether `self` is the cartridge `before` after the CPU wrote `value`
    /// at `addr`. An empty slot takes nothing.
    pub open spec fn cpu_written(&self, before: &Cartridge, addr: u16, value: u8) -> bool {
        match (self, before) {
            (Cartridge::NotConnected, Cartridge::NotConnected) => true,
            (Cartridge::NROM(c), Cartridge::NROM(b)) => c.cpu_written(b, addr, value),
            (Cartridge::SxROM(c), Cartridge::SxROM(b)) => c.cpu_written(b, addr, value),
            (Cartridge::UxROM(c), Cartridge::UxROM(b)) => c.cpu_written(b, addr, value),
            _ => false,
        }
    }

    /// The byte that the PPU reads at `addr`: zero from an empty slot.
    pub open spec fn ppu_byte(&self, vram: Seq<u8>, addr: u16) -> u8 {
        match self {
            Cartridge::NotConnected => 0,
            Cartridge::NROM(c) => c.ppu_byte(vram, addr),
            Cartridge::SxROM(c) => c.ppu_byte(vram, addr),
            Cartridge::UxROM(c) => c.ppu_byte(vram, addr),
        }
    }

    /// Whether `self` and `vram` are the cartridge `before` and the
    /// nametable memory `vram_before` after the PPU wrote `value` at `addr`.
    /// An empty slot takes nothing, and the nametable memory stays as it is.
    pub open spec fn ppu_written(
        &self,
        vram: Seq<u8>,
        before: &Cartridge,
        vram_before: Seq<u8>,
        addr: u16,
        value: u8,
    ) -> bool {
        match (self, before) {
            (Cartridge::NotConnected, Cartridge::NotConnected) => vram == vram_before,
            (Cartridge::NROM(c), Cartridge::NROM(b)) => c.ppu_written(
                vram,
                b,
                vram_before,
                addr,
                value,
            ),
            (Cartridge::SxROM(c), Cartridge::SxROM(b)) => c.ppu_written(
                vram,
                b,
                vram_before,
                addr,
                value,
            ),
            (Cartridge::UxROM(c), Cartridge::UxROM(b)) => c.ppu_written(
                vram,
                b,
                vram_before,
                addr,
                value,
            ),
            _ => false,
        }
    }

    /// A read by the CPU, answered by the mapper in the slot.
    pub fn read_cpu(&self, addr: u16) -> (value: u8)
        requires
            self.wf(),
        ensures
            value == self.cpu_byte(addr),
    {
        match self {
            Cartridge::NotConnected => 0,
            Cartridge::NROM(c) => c.read_cpu(addr),
            Cartridge::SxROM(c) => c.read_cpu(addr),
            Cartridge::UxROM(c) => c.read_cpu(addr),
        }
    }

    /// A write by the CPU, taken by the mapper in the slot.
    pub fn write_cpu(&mut self, addr: u16, value: u8)
        requires
            old(self).wf(),
        ensures
            final(self).wf(),
            final(self).connected() == old(self).connected(),
            final(self).cpu_written(old(self), addr, value),
    {
        match self {
            Cartridge::NotConnected => {},
            Cartridge::NROM(c) => c.write_cpu(addr, value),
            Cartridge::SxROM(c) => c.write_cpu(addr, value),
            Cartridge::UxROM(c) => c.write_cpu(addr, value),
        }
    }

    /// A read by the PPU, answered by the mapper in the slot.
    pub fn read_ppu(&self, vram: &[u8; 2048], addr: u16) -> (value: u8)
        requires
            self.wf(),
            addr < 0x4000,
        ensures
            value == self.ppu_byte(vram@, addr),
    {
        match self {
            Cartridge::NotConnected => 0,
            Cartridge::NROM(c) => c.read_ppu(vram, addr),
            Cartridge::SxROM(c) => c.read_ppu(vram, addr),
            Cartridge::UxROM(c) => c.read_ppu(vram, addr),
        }
    }

    /// A write by the PPU, taken by the mapper in the slot.
    pub fn write_ppu(&mut self, vram: &mut [u8; 2048], addr: u16, value: u8)
        requires
            old(self).wf(),
            addr < 0x4000,
        ensures
            final(self).wf(),
            final(self).connected() == old(self).connected(),
            final(self).ppu_written(final(vram)@, old(self), old(vram)@, addr, value),
    {
        match self {
            Cartridge::NotConnected => {},
            Cartridge::NROM(c) => c.write_ppu(vram, addr, value),
            Cartridge::SxROM(c) => c.write_ppu(vram, addr, value),
            Cartridge::UxROM(c) => c.write_ppu(vram, addr, value),
        }
    }
}

} // verus!
