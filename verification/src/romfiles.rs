//! Cartridge images in the iNES format.

use vstd::prelude::*;

verus! {

/// How the cartridge's board wires the two nametables.
#[derive(Debug, Clone, Copy, PartialEq, Eq, Structural)]
pub enum Mirroring {
    Horizontal,
    Vertical,
    FourScreen,
}

/// The contents of a cartridge image.
#[derive(Debug)]
pub struct RomFile {
    pub prg_rom: Vec<u8>,
    pub chr_rom: Option<Vec<u8>>,
    pub provide_prg_ram: bool,
    pub mirroring: Mirroring,
    pub mapper: usize,
}

/// Why an image was refused.
#[derive(Debug, Clone, Copy, PartialEq, Eq, Structural)]
pub enum RomError {
    /// The image is shorter than the sixteen bytes of the header.
    CouldNotReadHeader,
    /// The image does not start with `NES` and the byte `1A`.
    NotInes,
    /// The image holds a trainer.
    Trainer,
    /// The image ends inside the program ROM.
    TruncatedPrgRom,
    /// The image ends inside the character ROM.
    TruncatedChrRom,
}

/// The length of the header.
pub const HEADER_SIZE: usize = 16;

/// The unit in which the header counts program ROM.
pub const PRG_ROM_UNIT: usize = 16384;

/// The unit in which the header counts character ROM.
pub const CHR_ROM_UNIT: usize = 8192;

/// Whether an image starts with the four bytes that mark the format.
pub open spec fn has_magic(data: Seq<u8>) -> bool {
    data.len() >= 4 && data[0] == 0x4E && data[1] == 0x45 && data[2] == 0x53 && data[3] == 0x1A
}

/// The size of the program ROM that a header announces.
pub open spec fn prg_rom_size(data: Seq<u8>) -> int {
    data[4] * 16384
}

/// The size of the character ROM that a header announces; zero stands for
/// character RAM.
pub open spec fn chr_rom_size(data: Seq<u8>) -> int {
    data[5] * 8192
}

/// The mirroring that byte 6 of a header selects: bit 3 for four screens,
/// else bit 0 for vertical.
pub open spec fn header_mirroring(flags6: u8) -> Mirroring {
    if flags6 & 0x8 == 0x8 {
        Mirroring::FourScreen
    } else if flags6 & 0x1 == 0x1 {
        Mirroring::Vertical
    } else {
        Mirroring::Horizontal
    }
}

/// The mapper number: its low nibble is the high nibble of byte 6, its high
/// nibble that of byte 7.
pub open spec fn header_mapper(flags6: u8, flags7: u8) -> u8 {
    (flags7 & 0xF0) | (flags6 >> 4)
}

/// The error on which an image is refused, if it is.
pub open spec fn rom_error(data: Seq<u8>) -> Option<RomError> {
    if data.len() < 16 {
        Some(RomError::CouldNotReadHeader)
    } else if !has_magic(data) {
        Some(RomError::NotInes)
    } else if data[6] & 4 == 4 {
        Some(RomError::Trainer)
    } else if data.len() < 16 + prg_rom_size(data) {
        Some(RomError::TruncatedPrgRom)
    } else if data.len() < 16 + prg_rom_size(data) + chr_rom_size(data) {
        Some(RomError::TruncatedChrRom)
    } else {
        None
    }
}

impl RomFile {
    /// Whether this is what the image `data` holds: the program ROM right
    /// after the header, the character ROM after it, the rest as the header
    /// says. Bytes after the character ROM are not looked at.
    pub open spec fn holds(&self, data: Seq<u8>) -> bool {
        let prg = prg_rom_size(data);
        let chr = chr_rom_size(data);
        &&& self.prg_rom@ == data.subrange(16, 16 + prg)
        &&& chr == 0 ==> self.chr_rom is None
        &&& chr != 0 ==> (self.chr_rom matches Some(rom) && rom@ == data.subrange(
            16 + prg,
            16 + prg + chr,
        ))
        &&& self.provide_prg_ram == (data[6] & 2 == 2)
        &&& self.mirroring == header_mirroring(data[6])
        &&& self.mapper == header_mapper(data[6], data[7])
    }

    /// Reads an image.
    pub fn from_read(data: &[u8]) -> (r: Result<RomFile, RomError>)
        ensures
            match r {
                Ok(rom) => rom_error(data@) is None && rom.holds(data@),
                Err(e) => rom_error(data@) == Some(e),
            },
    {
        if data.len() < HEADER_SIZE {
            return Err(RomError::CouldNotReadHeader);
        }
        if !(data[0] == 0x4E && data[1] == 0x45 && data[2] == 0x53 && data[3] == 0x1A) {
            return Err(RomError::NotInes);
        }
        let prg_rom_size = (data[4] as usize) * PRG_ROM_UNIT;
        let chr_rom_size = (data[5] as usize) * CHR_ROM_UNIT;

        let provide_prg_ram = data[6] & 2 == 2;
        let provide_trainer = data[6] & 4 == 4;
        if provide_trainer {
            return Err(RomError::Trainer);
        }
        let mirroring = if data[6] & 0x8 == 0x8 {
            Mirroring::FourScreen
        } else {
            if data[6] & 0x1 == 0x1 {
                Mirroring::Vertical
            } else {
                Mirroring::Horizontal
            }
        };

        let mapper_low = data[6] >> 4;
        let mapper = (data[7] & 0xF0) | mapper_low;

        if data.len() - HEADER_SIZE < prg_rom_size {
            return Err(RomError::TruncatedPrgRom);
        }
        let prg_rom = copy_range(data, HEADER_SIZE, prg_rom_size);
        let chr_start = HEADER_SIZE + prg_rom_size;
        let chr_rom = if chr_rom_size == 0 {
            None
        } else {
            if data.len() - chr_start < chr_rom_size {
                return Err(RomError::TruncatedChrRom);
            }
            Some(copy_range(data, chr_start, chr_rom_size))
        };

        Ok(RomFile { mirroring, prg_rom, chr_rom, provide_prg_ram, mapper: mapper as usize })
    }
}

/// A copy of `len` bytes of `data`, from `start` on.
pub fn copy_range(data: &[u8], start: usize, len: usize) -> (out: Vec<u8>)
    requires
        start + len <= data@.len(),
    ensures
        out@ == data@.subrange(start as int, start + len),
{
    let mut out: Vec<u8> = Vec::with_capacity(len);
    let mut i: usize = 0;
    while i < len
        invariant
            i <= len,
            start + len <= data.len() <= usize::MAX,
            out@ == data@.subrange(start as int, start + i),
        decreases len - i,
    {
        out.push(data[start + i]);
        i = i + 1;
        proof {
            assert(out@ =~= data@.subrange(start as int, start + i));
        }
    }
    out
}

} // verus!
