//! A cycle-accurate model of the NES: a 6502-family CPU that makes one bus
//! access per cycle, a dot-by-dot picture processing unit, the OAM DMA engine
//! and the machine that clocks them against a cartridge.

pub mod emulator;
pub mod fm2_movie_file;
pub mod nes;
pub mod romfiles;

pub use nes::Nes;
