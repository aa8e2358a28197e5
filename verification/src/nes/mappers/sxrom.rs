//! Mapper 1 (MMC1): bank registers that are loaded one bit at a time
//! through a shift register.

use vstd::prelude::*;
use super::common::{blank_ram, get_vram_cell, Chr, MirrorMode};
use super::{CartridgeImpl, MapperError};
use crate::romfiles::RomFile;

verus! {

/// The shift register when it is empty: the one marks where the fifth bit
/// falls out.
pub const LOAD_REG_INITIAL: u8 = 0b10000;

/// A cartridge with the MMC1: program and character banks and the
/// mirroring are set through a five-bit shift register.
#[derive(Debug)]
pub struct SxROM {
    pub prg_rom: Vec<u8>,
    pub chr: Chr,
    pub prg_ram: Option<Vec<u8>>,
    // Registers
    pub load_reg: u8,
    pub control: u8,
    pub chr_bank_0: u8,
    pub chr_bank_1: u8,
    pub prg_bank: u8,
}

/// Whether a program ROM of `banks` banks of sixteen KiB can be taken.
pub open spec fn prg_banks_ok(banks: int) -> bool {
    banks == 2 || banks == 4 || banks == 8 || banks == 16 || banks == 32
}

/// Whether a character ROM of `banks` banks of eight KiB can be taken.
pub open spec fn chr_banks_ok(banks: int) -> bool {
    banks == 1 || banks == 2 || banks == 4 || banks == 8 || banks == 16
}

/// The error on which this mapper refuses an image, if it does. The sizes
/// must be whole banks.
pub open spec fn rom_error(rom: &RomFile) -> Option<MapperError> {
    if !(prg_banks_ok(rom.prg_rom@.len() as int / 16384) && rom.prg_rom@.len() % 16384 == 0) {
        Some(MapperError::BadPrgRomSize)
    } else if rom.chr_rom matches Some(d) && !(chr_banks_ok(d@.len() as int / 8192) && d@.len() % 8192
        == 0) {
        Some(MapperError::BadChrRomSize)
    } else {
        None
    }
}

/// The cartridge of an image, or why the image does not fit this board.
pub fn from_rom(rom: RomFile) -> (r: Result<SxROM, MapperError>)
    ensures
        match r {
            Ok(c) => rom_error(&rom) is None && c.wf() && c.made_of(&rom),
            Err(e) => rom_error(&rom) == Some(e),
        },
{
    let prg_banks = rom.prg_rom.len() / 16384;
    if !((prg_banks == 2 || prg_banks == 4 || prg_banks == 8 || prg_banks == 16 || prg_banks == 32)
        && rom.prg_rom.len() % 16384 == 0) {
        return Err(MapperError::BadPrgRomSize);
    }
    let chr = match rom.chr_rom {
        None => Chr::RAM(blank_ram()),
        Some(r) => {
            let rom_banks = r.len() / 8192;
            if !((rom_banks == 1 || rom_banks == 2 || rom_banks == 4 || rom_banks == 8 || rom_banks
                == 16) && r.len() % 8192 == 0) {
                return Err(MapperError::BadChrRomSize);
            }
            Chr::ROM(r)
        },
    };

    let prg_ram = if rom.provide_prg_ram {
        Some(blank_ram())
    } else {
        None
    };

    Ok(
        SxROM {
            prg_rom: rom.prg_rom,
            prg_ram,
            chr,
            load_reg: LOAD_REG_INITIAL,
            control: 0b01100,
            chr_bank_0: 0,
            chr_bank_1: 0,
            prg_bank: 0,
        },
    )
}

/// The shift register after the low bit of `value` has been shifted in at
/// bit 4.
pub open spec fn shifted_in(load_reg: u8, value: u8) -> u8 {
    (load_reg >> 1) | ((value & 1) << 4)
}

impl SxROM {
    /// Whether this is the cartridge that the image describes, as it comes
    /// from the factory: the image's ROM, RAM that holds zeroes, the shift
    /// register empty, and the control register set to switch the first
    /// program bank and fix the last.
    pub open spec fn made_of(&self, rom: &RomFile) -> bool {
        &&& self.prg_rom@ == rom.prg_rom@
        &&& match rom.chr_rom {
            Some(d) => self.chr is ROM && self.chr.bytes() == d@,
            None => self.chr is RAM && self.chr.bytes() == Seq::new(0x2000, |i: int| 0u8),
        }
        &&& match self.prg_ram {
            Some(ram) => rom.provide_prg_ram && ram@ == Seq::new(0x2000, |i: int| 0u8),
            None => !rom.provide_prg_ram,
        }
        &&& self.load_reg == 0b10000
        &&& self.control == 0b01100
        &&& self.chr_bank_0 == 0
        &&& self.chr_bank_1 == 0
        &&& self.prg_bank == 0
    }

    /// Whether two cartridges differ at most in what their RAM and their
    /// registers hold.
    pub open spec fn same_board(&self, other: &SxROM) -> bool {
        &&& self.prg_rom@ == other.prg_rom@
        &&& (self.chr is ROM) == (other.chr is ROM)
        &&& (self.prg_ram is Some) == (other.prg_ram is Some)
    }

    /// The program RAM, or nothing where the cartridge has none.
    pub open spec fn prg_ram_bytes(&self) -> Seq<u8> {
        match self.prg_ram {
            Some(ram) => ram@,
            None => Seq::empty(),
        }
    }

    /// The registers, in the order control, first character bank, second
    /// character bank, program bank.
    pub open spec fn registers(&self) -> (u8, u8, u8, u8) {
        (self.control, self.chr_bank_0, self.chr_bank_1, self.prg_bank)
    }

    /// The mirroring that the low two bits of the control register select.
    pub open spec fn mirroring(&self) -> MirrorMode {
        let mode = self.control & 0b11;
        if mode == 0 {
            MirrorMode::OneScreenLower
        } else if mode == 1 {
            MirrorMode::OneScreenHigher
        } else if mode == 2 {
            MirrorMode::Vertical
        } else {
            MirrorMode::Horizontal
        }
    }

    /// The mirroring that the control register selects.
    pub fn get_mirroring(&self) -> (mode: MirrorMode)
        ensures
            mode == self.mirroring(),
    {
        let mode = self.control & 0b11;
        if mode == 0 {
            MirrorMode::OneScreenLower
        } else if mode == 1 {
            MirrorMode::OneScreenHigher
        } else if mode == 2 {
            MirrorMode::Vertical
        } else {
            MirrorMode::Horizontal
        }
    }

    /// The place in character memory of the PPU address `addr` below
    /// `$2000`. With bit 4 of the control register set, each half of the
    /// range has a bank register of its own that counts in four KiB; else
    /// the first register, without its low bit, counts in eight KiB. A bank
    /// number past the end wraps.
    pub open spec fn chr_index(&self, addr: u16) -> int {
        let size = self.chr.bytes().len() as int;
        if self.control & 0x10 == 0x10 {
            if addr < 0x1000 {
                (self.chr_bank_0 as int % (size / 0x1000)) * 0x1000 + addr
            } else {
                (self.chr_bank_1 as int % (size / 0x1000)) * 0x1000 + (addr - 0x1000)
            }
        } else {
            ((self.chr_bank_0 & 0xFE) as int % (size / 0x2000)) * 0x2000 + addr
        }
    }

    /// The place in character memory behind a PPU address.
    pub fn get_mapped_chr_addr(&self, addr: u16) -> (index: usize)
        requires
            self.wf(),
            addr < 0x2000,
        ensures
            index == self.chr_index(addr),
            index < self.chr.bytes().len(),
    {
        let chr_size = self.chr.len();
        if self.control & 0x10 == 0x10 {
            // Two separate banks of four KiB
            if addr < 0x1000 {
                (self.chr_bank_0 as usize % (chr_size / 0x1000)) * 0x1000 + (addr as usize)
            } else {
                (self.chr_bank_1 as usize % (chr_size / 0x1000)) * 0x1000 + (addr as usize - 0x1000)
            }
        } else {
            ((self.chr_bank_0 & 0xFE) as usize % (chr_size / 0x2000)) * 0x2000 + addr as usize
        }
    }

    /// The place in program ROM of the CPU address `addr` in
    /// `$8000`-`$FFFF`. Bits 2 and 3 of the control register choose between
    /// a fixed last bank with the other switched, a fixed first bank with
    /// the other switched, and one switched bank of thirty-two KiB.
    pub open spec fn prg_index(&self, addr: u16) -> int {
        let control_h = self.control & 8 == 8;
        let control_l = self.control & 4 == 4;
        let (bank, offset): (int, int) = if control_h && control_l {
            if addr < 0xC000 {
                (self.prg_bank as int, addr - 0x8000)
            } else {
                (31, addr - 0xC000)
            }
        } else if control_h && !control_l {
            if addr < 0xC000 {
                (0, addr - 0x8000)
            } else {
                (self.prg_bank as int, addr - 0xC000)
            }
        } else {
            ((self.prg_bank & 0b11110) as int, addr - 0x8000)
        };
        (bank * 16384 + offset) % (self.prg_rom@.len() as int)
    }
}

impl CartridgeImpl for SxROM {
    open spec fn wf(&self) -> bool {
        &&& self.prg_rom@.len() > 0
        &&& self.chr.bytes().len() >= 0x2000
        &&& self.chr.bytes().len() % 0x2000 == 0
        &&& self.prg_ram matches Some(ram) ==> ram@.len() == 0x2000
    }

    /// Program RAM, where there is any, answers in `$6000`-`$7FFF`, program
    /// ROM in `$8000`-`$FFFF`; elsewhere a read gives zero.
    open spec fn cpu_byte(&self, addr: u16) -> u8 {
        if 0x6000 <= addr < 0x8000 {
            match self.prg_ram {
                Some(ram) => ram@[addr - 0x6000],
                None => 0,
            }
        } else if addr >= 0x8000 {
            self.prg_rom@[self.prg_index(addr)]
        } else {
            0
        }
    }

    /// A write in `$6000`-`$7FFF` reaches program RAM. A write in
    /// `$8000`-`$FFFF` with bit 7 set empties the shift register; any other
    /// shifts bit 0 in, and the fifth such write in a row loads the five
    /// bits into the register that the address selects and empties the
    /// shift register.
    open spec fn cpu_written(&self, before: &SxROM, addr: u16, value: u8) -> bool {
        &&& self.same_board(before)
        &&& self.chr.bytes() == before.chr.bytes()
        &&& self.prg_ram_bytes() == if 0x6000 <= addr < 0x8000 && before.prg_ram is Some {
            before.prg_ram_bytes().update(addr - 0x6000, value)
        } else {
            before.prg_ram_bytes()
        }
        &&& if addr < 0x8000 {
            self.load_reg == before.load_reg && self.registers() == before.registers()
        } else if value & 0x80 == 0x80 {
            self.load_reg == 0b10000 && self.registers() == before.registers()
        } else if before.load_reg & 1 == 1 {
            let loaded = shifted_in(before.load_reg, value);
            &&& self.load_reg == 0b10000
            &&& self.registers() == if addr < 0xA000 {
                (loaded, before.chr_bank_0, before.chr_bank_1, before.prg_bank)
            } else if addr < 0xC000 {
                (before.control, loaded, before.chr_bank_1, before.prg_bank)
            } else if addr < 0xE000 {
                (before.control, before.chr_bank_0, loaded, before.prg_bank)
            } else {
                (before.control, before.chr_bank_0, before.chr_bank_1, loaded)
            }
        } else {
            self.load_reg == shifted_in(before.load_reg, value) && self.registers()
                == before.registers()
        }
    }

    open spec fn ppu_byte(&self, vram: Seq<u8>, addr: u16) -> u8 {
        if addr < 0x2000 {
            self.chr.bytes()[self.chr_index(addr)]
        } else {
            vram[self.mirroring().cell(addr)]
        }
    }

    /// A write below `$2000` reaches character RAM, one above it the
    /// nametable memory.
    open spec fn ppu_written(
        &self,
        vram: Seq<u8>,
        before: &SxROM,
        vram_before: Seq<u8>,
        addr: u16,
        value: u8,
    ) -> bool {
        &&& self.same_board(before)
        &&& self.prg_ram_bytes() == before.prg_ram_bytes()
        &&& self.load_reg == before.load_reg
        &&& self.registers() == before.registers()
        &&& if addr < 0x2000 {
            vram == vram_before && self.chr.bytes() == before.chr.written(
                before.chr_index(addr),
                value,
            )
        } else {
            vram == vram_before.update(before.mirroring().cell(addr), value) && self.chr.bytes()
                == before.chr.bytes()
        }
    }

    fn read_cpu(&self, addr: u16) -> (value: u8) {
        if addr >= 0x8000 {
            let control_h = self.control & 8 == 8;
            let control_l = self.control & 4 == 4;
            let bank = self.prg_bank;
            let (bank, offset) = if control_h && control_l {
                // Fix last bank, switch other
                if addr < 0xC000 {
                    (bank, addr - 0x8000)
                } else {
                    (31, addr - 0xC000)
                }
            } else if control_h && !control_l {
                // Fix first bank, switch other
                if addr < 0xC000 {
                    (0, addr - 0x8000)
                } else {
                    (bank, addr - 0xC000)
                }
            } else {
                // Switch 32kb, ignoring low bit of bank
                (bank & 0b11110, addr - 0x8000)
            };
            let index = ((bank as usize) * 16384 + (offset as usize)) % self.prg_rom.len();
            self.prg_rom[index]
        } else if addr >= 0x6000 {
            match &self.prg_ram {
                None => 0x0,
                Some(r) => r[(addr - 0x6000) as usize],
            }
        } else {
            0
        }
    }

    fn write_cpu(&mut self, addr: u16, value: u8) {
        if addr >= 0x8000 {
            if value & 0x80 == 0x80 {
                self.load_reg = LOAD_REG_INITIAL;
            } else {
                // Shift in
                let old_load_reg = self.load_reg;
                let new_load_reg = (old_load_reg >> 1) | ((value & 1) << 4);

                if old_load_reg & 1 == 1 {
                    // Reached the end
                    self.load_reg = LOAD_REG_INITIAL;
                    if addr < 0xA000 {
                        self.control = new_load_reg;
                    } else if addr < 0xC000 {
                        self.chr_bank_0 = new_load_reg;
                    } else if addr < 0xE000 {
                        self.chr_bank_1 = new_load_reg;
                    } else {
                        self.prg_bank = new_load_reg;
                    }
                } else {
                    self.load_reg = new_load_reg;
                }
            }
        } else if addr >= 0x6000 {
            match &mut self.prg_ram {
                None => (),
                Some(r) => {
                    r[(addr - 0x6000) as usize] = value;
                },
            }
        }
    }

    fn read_ppu(&self, vram: &[u8; 2048], addr: u16) -> (value: u8) {
        if addr < 0x2000 {
            self.chr.read(self.get_mapped_chr_addr(addr))
        } else {
            vram[get_vram_cell(&self.get_mirroring(), addr)]
        }
    }

    fn write_ppu(&mut self, vram: &mut [u8; 2048], addr: u16, value: u8) {
        if addr < 0x2000 {
            let index = self.get_mapped_chr_addr(addr);
            self.chr.write(index, value);
        } else {
            vram[get_vram_cell(&self.get_mirroring(), addr)] = value;
        }
    }
}

} // verus!
