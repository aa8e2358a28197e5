//! Mapper 2: program ROM in banks of sixteen KiB, of which the last is
//! fixed and one other is switched in by any write to `$8000`-`$FFFF`; eight
//! KiB of character memory.

use vstd::prelude::*;
use super::common::{blank_ram, get_vram_cell, Chr, MirrorMode};
use super::{CartridgeImpl, MapperError};
use crate::romfiles::{Mirroring, RomFile};

verus! {

/// A cartridge with a switchable 16 KiB program bank at `$8000` and the
/// last bank fixed at `$C000`.
#[derive(Debug)]
pub struct UxROM {
    pub mirroring: MirrorMode,
    pub prg_rom: Vec<u8>,
    pub bank: u8,
    pub chr_data: Chr,
    pub prg_ram: Option<Vec<u8>>,
}

/// The size of a program ROM bank.
pub const BANK_SIZE: usize = 16384;

/// Whether `banks` is a power of two from 1 to 128.
pub open spec fn bank_count_ok(banks: int) -> bool {
    banks == 1 || banks == 2 || banks == 4 || banks == 8 || banks == 16 || banks == 32 || banks == 64
        || banks == 128
}

/// The error on which this mapper refuses an image, if it does.
pub open spec fn rom_error(rom: &RomFile) -> Option<MapperError> {
    if !bank_count_ok(rom.prg_rom@.len() as int / 16384) {
        Some(MapperError::BadPrgRomSize)
    } else if rom.chr_rom matches Some(d) && d@.len() != 8192 {
        Some(MapperError::BadChrRomSize)
    } else if rom.mirroring is FourScreen {
        Some(MapperError::FourScreen)
    } else {
        None
    }
}

/// The cartridge of an image, or why the image does not fit this board.
pub fn from_rom(rom: RomFile) -> (r: Result<UxROM, MapperError>)
    ensures
        match r {
            Ok(c) => rom_error(&rom) is None && c.wf() && c.made_of(&rom),
            Err(e) => rom_error(&rom) == Some(e),
        },
{
    let banks = rom.prg_rom.len() / BANK_SIZE;
    if !(banks == 1 || banks == 2 || banks == 4 || banks == 8 || banks == 16 || banks == 32 || banks
        == 64 || banks == 128) {
        return Err(MapperError::BadPrgRomSize);
    }
    let prg_ram = if rom.provide_prg_ram {
        Some(blank_ram())
    } else {
        None
    };

    let chr_data = match rom.chr_rom {
        Some(d) => {
            if d.len() != 8192 {
                return Err(MapperError::BadChrRomSize);
            } else {
                Chr::ROM(d)
            }
        },
        None => Chr::RAM(blank_ram()),
    };

    let mirroring = match rom.mirroring {
        Mirroring::Horizontal => MirrorMode::Horizontal,
        Mirroring::Vertical => MirrorMode::Vertical,
        Mirroring::FourScreen => {
            return Err(MapperError::FourScreen);
        },
    };

    Ok(UxROM { mirroring, prg_rom: rom.prg_rom, bank: 0, chr_data, prg_ram })
}

impl UxROM {
    /// Whether this is the cartridge that the image describes, as it comes
    /// from the factory: the image's ROM, bank 0 switched in, and RAM that
    /// holds zeroes.
    pub open spec fn made_of(&self, rom: &RomFile) -> bool {
        &&& self.prg_rom@ == rom.prg_rom@
        &&& self.bank == 0
        &&& match rom.chr_rom {
            Some(d) => self.chr_data is ROM && self.chr_data.bytes() == d@,
            None => self.chr_data is RAM && self.chr_data.bytes() == Seq::new(0x2000, |i: int| 0u8),
        }
        &&& match self.prg_ram {
            Some(ram) => rom.provide_prg_ram && ram@ == Seq::new(0x2000, |i: int| 0u8),
            None => !rom.provide_prg_ram,
        }
        &&& self.mirroring == if rom.mirroring is Vertical {
            MirrorMode::Vertical
        } else {
            MirrorMode::Horizontal
        }
    }

    /// Whether two cartridges differ at most in what their RAM and their
    /// bank register hold.
    pub open spec fn same_board(&self, other: &UxROM) -> bool {
        &&& self.mirroring == other.mirroring
        &&& self.prg_rom@ == other.prg_rom@
        &&& (self.chr_data is ROM) == (other.chr_data is ROM)
        &&& (self.prg_ram is Some) == (other.prg_ram is Some)
    }

    /// The program RAM, or nothing where the cartridge has none.
    pub open spec fn prg_ram_bytes(&self) -> Seq<u8> {
        match self.prg_ram {
            Some(ram) => ram@,
            None => Seq::empty(),
        }
    }
}

impl CartridgeImpl for UxROM {
    open spec fn wf(&self) -> bool {
        &&& self.prg_rom@.len() >= 16384
        &&& self.prg_rom@.len() <= 128 * 16384 + 16383
        &&& self.chr_data.bytes().len() == 8192
        &&& self.prg_ram matches Some(ram) ==> ram@.len() == 0x2000
    }

    /// Program RAM, where there is any, answers in `$6000`-`$7FFF`; the
    /// switched bank in `$8000`-`$BFFF`; bank 255, which wraps onto the last
    /// one, in `$C000`-`$FFFF`; elsewhere a read gives zero.
    open spec fn cpu_byte(&self, addr: u16) -> u8 {
        if 0x6000 <= addr < 0x8000 {
            match self.prg_ram {
                Some(ram) => ram@[addr - 0x6000],
                None => 0,
            }
        } else if 0x8000 <= addr < 0xC000 {
            self.prg_rom@[(self.bank * 16384 + (addr - 0x8000)) % (self.prg_rom@.len() as int)]
        } else if addr >= 0xC000 {
            self.prg_rom@[(255 * 16384 + (addr - 0xC000)) % (self.prg_rom@.len() as int)]
        } else {
            0
        }
    }

    /// A write in `$6000`-`$7FFF` reaches program RAM; one in
    /// `$8000`-`$FFFF` sets the bank register.
    open spec fn cpu_written(&self, before: &UxROM, addr: u16, value: u8) -> bool {
        &&& self.same_board(before)
        &&& self.chr_data.bytes() == before.chr_data.bytes()
        &&& self.bank == if addr >= 0x8000 {
            value
        } else {
            before.bank
        }
        &&& self.prg_ram_bytes() == if 0x6000 <= addr < 0x8000 && before.prg_ram is Some {
            before.prg_ram_bytes().update(addr - 0x6000, value)
        } else {
            before.prg_ram_bytes()
        }
    }

    open spec fn ppu_byte(&self, vram: Seq<u8>, addr: u16) -> u8 {
        if addr < 0x2000 {
            self.chr_data.bytes()[addr as int]
        } else {
            vram[self.mirroring.cell(addr)]
        }
    }

    /// A write below `$2000` reaches character RAM, one above it the
    /// nametable memory.
    open spec fn ppu_written(
        &self,
        vram: Seq<u8>,
        before: &UxROM,
        vram_before: Seq<u8>,
        addr: u16,
        value: u8,
    ) -> bool {
        &&& self.same_board(before)
        &&& self.bank == before.bank
        &&& self.prg_ram_bytes() == before.prg_ram_bytes()
        &&& if addr < 0x2000 {
            vram == vram_before && self.chr_data.bytes() == before.chr_data.written(
                addr as int,
                value,
            )
        } else {
            vram == vram_before.update(self.mirroring.cell(addr), value)
                && self.chr_data.bytes() == before.chr_data.bytes()
        }
    }

    fn read_cpu(&self, addr: u16) -> (value: u8) {
        if addr >= 0xC000 {
            let offset = (addr - 0xC000) as usize;
            let base = 255 * BANK_SIZE;
            self.prg_rom[(base + offset) % self.prg_rom.len()]
        } else if addr >= 0x8000 {
            let offset = (addr - 0x8000) as usize;
            let base = self.bank as usize * BANK_SIZE;
            self.prg_rom[(base + offset) % self.prg_rom.len()]
        } else if addr >= 0x6000 {
            match &self.prg_ram {
                Some(ram) => ram[(addr - 0x6000) as usize],
                None => 0,
            }
        } else {
            0
        }
    }

    fn write_cpu(&mut self, addr: u16, value: u8) {
        if addr >= 0x8000 {
            self.bank = value;
        } else if addr >= 0x6000 {
            match &mut self.prg_ram {
                Some(ram) => {
                    ram[(addr - 0x6000) as usize] = value;
                },
                None => {},
            }
        }
    }

    fn read_ppu(&self, vram: &[u8; 2048], addr: u16) -> (value: u8) {
        if addr < 0x2000 {
            self.chr_data.read(addr as usize)
        } else {
            vram[get_vram_cell(&self.mirroring, addr)]
        }
    }

    fn write_ppu(&mut self, vram: &mut [u8; 2048], addr: u16, value: u8) {
        if addr < 0x2000 {
            self.chr_data.write(addr as usize, value);
        } else {
            vram[get_vram_cell(&self.mirroring, addr)] = value;
        }
    }
}

} // verus!
