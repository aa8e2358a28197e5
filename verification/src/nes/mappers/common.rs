//! What the mappers share: nametable mirroring and character memory.

use vstd::prelude::*;

verus! {

/// How the four logical nametables are laid over the two that the console
/// holds.
#[derive(Debug, Clone, Copy, PartialEq, Eq, Structural)]
pub enum MirrorMode {
    OneScreenLower,
    OneScreenHigher,
    Vertical,
    Horizontal,
}

/// The console's nametable memory: two tables of one KiB.
pub const VRAM_SIZE: usize = 2048;

/// The size of one nametable.
pub const NAMETABLE_SIZE: usize = 0x400;

impl MirrorMode {
    /// The physical nametable, 0 or 1, that stands for logical nametable
    /// `table` (0 to 3): horizontal mirroring pairs them 0/0/1/1, vertical
    /// 0/1/0/1, and a single screen uses one table for all four.
    pub open spec fn slice(self, table: int) -> int {
        match self {
            MirrorMode::OneScreenLower => 0,
            MirrorMode::OneScreenHigher => 1,
            MirrorMode::Vertical => table % 2,
            MirrorMode::Horizontal => table / 2,
        }
    }

    /// The place in nametable memory of the PPU address `addr`, which lies in
    /// `$2000`-`$3FFF`; `$3000` and above mirror the four KiB below.
    pub open spec fn cell(self, addr: u16) -> int {
        let rel = (addr - 0x2000) % 0x1000;
        self.slice(rel / 0x400) * 0x400 + rel % 0x400
    }
}

/// The index in nametable memory of the cell that the PPU address `addr`
/// names under `mirror_mode`.
pub fn get_vram_cell(mirror_mode: &MirrorMode, addr: u16) -> (index: usize)
    requires
        0x2000 <= addr < 0x4000,
    ensures
        index == mirror_mode.cell(addr),
        index < VRAM_SIZE,
{
    let rel = ((addr - 0x2000) % 0x1000) as usize;
    let table = rel / NAMETABLE_SIZE;
    let offset = rel % NAMETABLE_SIZE;
    let base = match mirror_mode {
        MirrorMode::OneScreenLower => 0,
        MirrorMode::OneScreenHigher => NAMETABLE_SIZE,
        MirrorMode::Vertical => if table % 2 == 1 {
            NAMETABLE_SIZE
        } else {
            0
        },
        MirrorMode::Horizontal => if table >= 2 {
            NAMETABLE_SIZE
        } else {
            0
        },
    };
    base + offset
}

/// Character memory: ROM that a write leaves alone, or RAM.
#[derive(Debug)]
pub enum Chr {
    ROM(Vec<u8>),
    RAM(Vec<u8>),
}

impl Chr {
    /// The bytes held.
    pub open spec fn bytes(&self) -> Seq<u8> {
        match self {
            Chr::ROM(d) => d@,
            Chr::RAM(d) => d@,
        }
    }

    /// The character memory after a write of `value` at `index`.
    pub open spec fn written(&self, index: int, value: u8) -> Seq<u8> {
        match self {
            Chr::ROM(d) => d@,
            Chr::RAM(d) => d@.update(index, value),
        }
    }

    /// The number of bytes.
    pub fn len(&self) -> (n: usize)
        ensures
            n == self.bytes().len(),
    {
        match self {
            Chr::ROM(d) => d.len(),
            Chr::RAM(d) => d.len(),
        }
    }

    /// The byte at `index`.
    pub fn read(&self, index: usize) -> (value: u8)
        requires
            index < self.bytes().len(),
        ensures
            value == self.bytes()[index as int],
    {
        match self {
            Chr::ROM(d) => d[index],
            Chr::RAM(d) => d[index],
        }
    }

    /// Stores a byte at `index` in RAM; ROM drops it.
    pub fn write(&mut self, index: usize, value: u8)
        requires
            index < old(self).bytes().len(),
        ensures
            final(self).bytes() == old(self).written(index as int, value),
            (*final(self) is ROM) == (*old(self) is ROM),
    {
        match self {
            Chr::ROM(_) => {},
            Chr::RAM(d) => {
                d[index] = value;
            },
        }
    }
}

/// Eight KiB of zeroed memory, for program RAM or character RAM.
pub fn blank_ram() -> (ram: Vec<u8>)
    ensures
        ram@ == Seq::new(0x2000, |i: int| 0u8),
{
    let ram = vec![0u8; 0x2000];
    proof {
        assert(ram@ =~= Seq::new(0x2000, |i: int| 0u8));
    }
    ram
}

} // verus!
