//! Mapper 0: sixteen or thirty-two KiB of program ROM at a fixed place, and
//! eight KiB of character memory.

use vstd::prelude::*;
use super::common::{blank_ram, get_vram_cell, Chr, MirrorMode};
use super::{CartridgeImpl, MapperError};
use crate::romfiles::{Mirroring, RomFile};

verus! {

/// A cartridge without bank switching: 16 or 32 KiB of program ROM, 8 KiB
/// of character memory and, where the image asks for it, program RAM.
#[derive(Debug)]
pub struct NROM {
    pub mirroring: MirrorMode,
    pub prg_rom: Vec<u8>,
    pub chr_data: Chr,
    pub mirror_prg_rom: bool,
    pub prg_ram: Option<Vec<u8>>,
}

/// The error on which this mapper refuses an image, if it does.
pub open spec fn rom_error(rom: &RomFile) -> Option<MapperError> {
    if !(rom.prg_rom@.len() == 16384 || rom.prg_rom@.len() == 32768) {
        Some(MapperError::BadPrgRomSize)
    } else if rom.chr_rom matches Some(d) && d@.len() != 8192 {
        Some(MapperError::BadChrRomSize)
    } else if rom.mirroring is FourScreen {
        Some(MapperError::FourScreen)
    } else {
        None
    }
}

/// The cartridge of an image, or why the image does not fit this board.
pub fn from_rom(rom: RomFile) -> (r: Result<NROM, MapperError>)
    ensures
        match r {
            Ok(c) => rom_error(&rom) is None && c.wf() && c.made_of(&rom),
            Err(e) => rom_error(&rom) == Some(e),
        },
{
    let mirror_prg_rom = rom.prg_rom.len() == 16384;

    if !(rom.prg_rom.len() == 16384 || rom.prg_rom.len() == 16384 * 2) {
        return Err(MapperError::BadPrgRomSize);
    }
    let prg_ram = if rom.provide_prg_ram {
        Some(blank_ram())
    } else {
        None
    };

    let chr_data = match rom.chr_rom {
        Some(d) => {
            if d.len() != 8192 {
                return Err(MapperError::BadChrRomSize);
            } else {
                Chr::ROM(d)
            }
        },
        None => Chr::RAM(blank_ram()),
    };

    let mirroring = match rom.mirroring {
        Mirroring::Horizontal => MirrorMode::Horizontal,
        Mirroring::Vertical => MirrorMode::Vertical,
        Mirroring::FourScreen => {
            return Err(MapperError::FourScreen);
        },
    };

    Ok(NROM { mirroring, prg_rom: rom.prg_rom, chr_data, prg_ram, mirror_prg_rom })
}

impl NROM {
    /// Whether this is the cartridge that the image describes, as it comes
    /// from the factory: the image's ROM, and RAM that holds zeroes.
    pub open spec fn made_of(&self, rom: &RomFile) -> bool {
        &&& self.prg_rom@ == rom.prg_rom@
        &&& self.mirror_prg_rom == (rom.prg_rom@.len() == 16384)
        &&& match rom.chr_rom {
            Some(d) => self.chr_data is ROM && self.chr_data.bytes() == d@,
            None => self.chr_data is RAM && self.chr_data.bytes() == Seq::new(0x2000, |i: int| 0u8),
        }
        &&& match self.prg_ram {
            Some(ram) => rom.provide_prg_ram && ram@ == Seq::new(0x2000, |i: int| 0u8),
            None => !rom.provide_prg_ram,
        }
        &&& self.mirroring == if rom.mirroring is Vertical {
            MirrorMode::Vertical
        } else {
            MirrorMode::Horizontal
        }
    }

    /// Whether two cartridges differ at most in what their RAM holds.
    pub open spec fn same_board(&self, other: &NROM) -> bool {
        &&& self.mirroring == other.mirroring
        &&& self.prg_rom@ == other.prg_rom@
        &&& self.mirror_prg_rom == other.mirror_prg_rom
        &&& (self.chr_data is ROM) == (other.chr_data is ROM)
        &&& (self.prg_ram is Some) == (other.prg_ram is Some)
    }

    /// The program RAM, or nothing where the cartridge has none.
    pub open spec fn prg_ram_bytes(&self) -> Seq<u8> {
        match self.prg_ram {
            Some(ram) => ram@,
            None => Seq::empty(),
        }
    }
}

impl CartridgeImpl for NROM {
    open spec fn wf(&self) -> bool {
        &&& self.prg_rom@.len() == 16384 || self.prg_rom@.len() == 32768
        &&& self.mirror_prg_rom == (self.prg_rom@.len() == 16384)
        &&& self.chr_data.bytes().len() == 8192
        &&& self.prg_ram matches Some(ram) ==> ram@.len() == 0x2000
    }

    /// Program RAM, where there is any, answers in `$6000`-`$7FFF`; program
    /// ROM in `$8000`-`$FFFF`, twice where it is sixteen KiB; elsewhere a
    /// read gives zero.
    open spec fn cpu_byte(&self, addr: u16) -> u8 {
        if 0x6000 <= addr < 0x8000 {
            match self.prg_ram {
                Some(ram) => ram@[addr - 0x6000],
                None => 0,
            }
        } else if addr >= 0x8000 {
            self.prg_rom@[(addr - 0x8000) % (self.prg_rom@.len() as int)]
        } else {
            0
        }
    }

    /// A write reaches program RAM and nothing else.
    open spec fn cpu_written(&self, before: &NROM, addr: u16, value: u8) -> bool {
        &&& self.same_board(before)
        &&& self.chr_data.bytes() == before.chr_data.bytes()
        &&& self.prg_ram_bytes() == if 0x6000 <= addr < 0x8000 && before.prg_ram is Some {
            before.prg_ram_bytes().update(addr - 0x6000, value)
        } else {
            before.prg_ram_bytes()
        }
    }

    open spec fn ppu_byte(&self, vram: Seq<u8>, addr: u16) -> u8 {
        if addr < 0x2000 {
            self.chr_data.bytes()[addr as int]
        } else {
            vram[self.mirroring.cell(addr)]
        }
    }

    /// A write below `$2000` reaches character RAM, one above it the
    /// nametable memory.
    open spec fn ppu_written(
        &self,
        vram: Seq<u8>,
        before: &NROM,
        vram_before: Seq<u8>,
        addr: u16,
        value: u8,
    ) -> bool {
        &&& self.same_board(before)
        &&& self.prg_ram_bytes() == before.prg_ram_bytes()
        &&& if addr < 0x2000 {
            vram == vram_before && self.chr_data.bytes() == before.chr_data.written(
                addr as int,
                value,
            )
        } else {
            vram == vram_before.update(self.mirroring.cell(addr), value)
                && self.chr_data.bytes() == before.chr_data.bytes()
        }
    }

    fn read_cpu(&self, addr: u16) -> (value: u8) {
        if addr >= 0x8000 {
            let offset = (addr - 0x8000) as usize;
            if self.mirror_prg_rom {
                self.prg_rom[offset % 16384]
            } else {
                self.prg_rom[offset]
            }
        } else if addr >= 0x6000 {
            match &self.prg_ram {
                Some(ram) => ram[(addr - 0x6000) as usize],
                None => 0,
            }
        } else {
            0
        }
    }

    fn write_cpu(&mut self, addr: u16, value: u8) {
        if 0x6000 <= addr && addr < 0x8000 {
            match &mut self.prg_ram {
                Some(ram) => {
                    ram[(addr - 0x6000) as usize] = value;
                },
                None => {},
            }
        }
    }

    fn read_ppu(&self, vram: &[u8; 2048], addr: u16) -> (value: u8) {
        if addr < 0x2000 {
            self.chr_data.read(addr as usize)
        } else {
            vram[get_vram_cell(&self.mirroring, addr)]
        }
    }

    fn write_ppu(&mut self, vram: &mut [u8; 2048], addr: u16, value: u8) {
        if addr < 0x2000 {
            self.chr_data.write(addr as usize, value);
        } else {
            vram[get_vram_cell(&self.mirroring, addr)] = value;
        }
    }
}

} // verus!
