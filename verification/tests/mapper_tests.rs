use covnes::nes::mappers::common::{blank_ram, get_vram_cell, Chr, MirrorMode};
use covnes::nes::mappers::{from_rom, nrom, sxrom, uxrom, Cartridge, CartridgeImpl, MapperError};
use covnes::romfiles::{Mirroring, RomFile};

fn rom(mapper: usize, prg_banks: usize, chr_banks: usize, mirroring: Mirroring) -> RomFile {
    let mut prg_rom = vec![0u8; prg_banks * 16384];
    for (i, b) in prg_rom.iter_mut().enumerate() {
        // Each bank is marked by its number in its first and last byte
        *b = if i % 16384 == 0 || i % 16384 == 16383 { (i / 16384) as u8 } else { (i % 251) as u8 };
    }
    let chr_rom = if chr_banks == 0 {
        None
    } else {
        let mut chr = vec![0u8; chr_banks * 8192];
        for (i, b) in chr.iter_mut().enumerate() {
            *b = if i % 4096 == 0 { 0x80 | (i / 4096) as u8 } else { (i % 241) as u8 };
        }
        Some(chr)
    };
    RomFile { prg_rom, chr_rom, provide_prg_ram: true, mirroring, mapper }
}

#[test]
fn nametable_mirroring_table() {
    let tables = [0x2000u16, 0x2400, 0x2800, 0x2C00];
    let slices = |mode: MirrorMode| -> Vec<usize> {
        tables.iter().map(|t| get_vram_cell(&mode, *t) / 0x400).collect()
    };
    assert_eq!(slices(MirrorMode::Horizontal), vec![0, 0, 1, 1]);
    assert_eq!(slices(MirrorMode::Vertical), vec![0, 1, 0, 1]);
    assert_eq!(slices(MirrorMode::OneScreenLower), vec![0, 0, 0, 0]);
    assert_eq!(slices(MirrorMode::OneScreenHigher), vec![1, 1, 1, 1]);
    // The offset inside a table is kept, and $3000 mirrors $2000
    assert_eq!(get_vram_cell(&MirrorMode::Vertical, 0x27FF), 0x7FF);
    assert_eq!(get_vram_cell(&MirrorMode::Vertical, 0x2ABC), 0x2BC);
    assert_eq!(get_vram_cell(&MirrorMode::Horizontal, 0x2ABC), 0x6BC);
    assert_eq!(get_vram_cell(&MirrorMode::Horizontal, 0x3ABC), 0x6BC);
    assert_eq!(get_vram_cell(&MirrorMode::Vertical, 0x3FFF), 0x7FF);
}

#[test]
fn character_memory() {
    let mut ram = Chr::RAM(blank_ram());
    assert_eq!(ram.len(), 0x2000);
    ram.write(5, 0x42);
    assert_eq!(ram.read(5), 0x42);
    let mut rom = Chr::ROM(vec![1, 2, 3]);
    rom.write(1, 0x42);
    assert_eq!(rom.read(1), 2);
    assert_eq!(rom.len(), 3);
}

#[test]
fn unsupported_mapper() {
    assert_eq!(
        from_rom(rom(3, 1, 1, Mirroring::Horizontal)).err(),
        Some(MapperError::UnsupportedMapper(3))
    );
    assert_eq!(
        from_rom(rom(255, 1, 1, Mirroring::Horizontal)).err(),
        Some(MapperError::UnsupportedMapper(255))
    );
    assert!(matches!(from_rom(rom(0, 1, 1, Mirroring::Horizontal)), Ok(Cartridge::NROM(_))));
    assert!(matches!(from_rom(rom(1, 2, 1, Mirroring::Horizontal)), Ok(Cartridge::SxROM(_))));
    assert!(matches!(from_rom(rom(2, 4, 0, Mirroring::Horizontal)), Ok(Cartridge::UxROM(_))));
}

#[test]
fn nrom_sizes() {
    assert_eq!(nrom::from_rom(rom(0, 3, 1, Mirroring::Horizontal)).err(), Some(MapperError::BadPrgRomSize));
    assert_eq!(nrom::from_rom(rom(0, 0, 1, Mirroring::Horizontal)).err(), Some(MapperError::BadPrgRomSize));
    assert_eq!(nrom::from_rom(rom(0, 1, 2, Mirroring::Horizontal)).err(), Some(MapperError::BadChrRomSize));
    assert_eq!(nrom::from_rom(rom(0, 1, 1, Mirroring::FourScreen)).err(), Some(MapperError::FourScreen));
    assert!(nrom::from_rom(rom(0, 2, 0, Mirroring::Vertical)).is_ok());
}

#[test]
fn nrom_maps_program_rom() {
    let small = nrom::from_rom(rom(0, 1, 1, Mirroring::Horizontal)).unwrap();
    assert!(small.mirror_prg_rom);
    assert_eq!(small.read_cpu(0x8001), 1);
    assert_eq!(small.read_cpu(0xC001), 1);
    assert_eq!(small.read_cpu(0xFFFF), 0);
    let large = nrom::from_rom(rom(0, 2, 1, Mirroring::Horizontal)).unwrap();
    assert!(!large.mirror_prg_rom);
    assert_eq!(large.read_cpu(0x8000), 0);
    assert_eq!(large.read_cpu(0xC000), 1);
    assert_eq!(large.read_cpu(0xFFFF), 1);
    assert_eq!(large.read_cpu(0x5000), 0);
}

#[test]
fn nrom_program_ram() {
    let mut cart = nrom::from_rom(rom(0, 1, 1, Mirroring::Horizontal)).unwrap();
    cart.write_cpu(0x6123, 0x77);
    assert_eq!(cart.read_cpu(0x6123), 0x77);
    cart.write_cpu(0x8000, 0x77);
    assert_eq!(cart.read_cpu(0x8000), 0);
    let mut none = rom(0, 1, 1, Mirroring::Horizontal);
    none.provide_prg_ram = false;
    let mut cart = nrom::from_rom(none).unwrap();
    cart.write_cpu(0x6123, 0x77);
    assert_eq!(cart.read_cpu(0x6123), 0);
}

#[test]
fn nrom_ppu_side() {
    let mut vram = [0u8; 2048];
    let mut cart = nrom::from_rom(rom(0, 1, 1, Mirroring::Vertical)).unwrap();
    assert_eq!(cart.read_ppu(&vram, 0x0000), 0x80);
    assert_eq!(cart.read_ppu(&vram, 0x1000), 0x81);
    // Character ROM is not written
    cart.write_ppu(&mut vram, 0x0001, 0xEE);
    assert_eq!(cart.read_ppu(&vram, 0x0001), 1);
    cart.write_ppu(&mut vram, 0x2401, 0xEE);
    assert_eq!(vram[0x401], 0xEE);
    assert_eq!(cart.read_ppu(&vram, 0x2C01), 0xEE);
    assert_eq!(cart.read_ppu(&vram, 0x2001), 0x00);
    // Character RAM is
    let mut cart = nrom::from_rom(rom(0, 1, 0, Mirroring::Horizontal)).unwrap();
    cart.write_ppu(&mut vram, 0x1FFF, 0xEE);
    assert_eq!(cart.read_ppu(&vram, 0x1FFF), 0xEE);
}

#[test]
fn uxrom_switches_the_first_bank() {
    assert_eq!(uxrom::from_rom(rom(2, 3, 0, Mirroring::Horizontal)).err(), Some(MapperError::BadPrgRomSize));
    assert_eq!(uxrom::from_rom(rom(2, 4, 3, Mirroring::Horizontal)).err(), Some(MapperError::BadChrRomSize));
    assert_eq!(uxrom::from_rom(rom(2, 4, 0, Mirroring::FourScreen)).err(), Some(MapperError::FourScreen));
    let mut cart = uxrom::from_rom(rom(2, 8, 0, Mirroring::Vertical)).unwrap();
    assert_eq!(cart.read_cpu(0x8000), 0);
    // The last bank is fixed
    assert_eq!(cart.read_cpu(0xC000), 7);
    assert_eq!(cart.read_cpu(0xFFFF), 7);
    cart.write_cpu(0x8000, 5);
    assert_eq!(cart.read_cpu(0x8000), 5);
    assert_eq!(cart.read_cpu(0xBFFF), 5);
    assert_eq!(cart.read_cpu(0xC000), 7);
    // A bank number past the end wraps
    cart.write_cpu(0xFFFF, 9);
    assert_eq!(cart.read_cpu(0x8000), 1);
    cart.write_cpu(0x6000, 0x12);
    assert_eq!(cart.read_cpu(0x6000), 0x12);
    assert_eq!(cart.bank, 9);
    let mut vram = [0u8; 2048];
    cart.write_ppu(&mut vram, 0x0010, 0x34);
    assert_eq!(cart.read_ppu(&vram, 0x0010), 0x34);
    cart.write_ppu(&mut vram, 0x2400, 0x56);
    assert_eq!(vram[0x400], 0x56);
}

/// Loads `value` into the register at `addr` with five writes.
fn load(cart: &mut sxrom::SxROM, addr: u16, value: u8) {
    for bit in 0..5 {
        cart.write_cpu(addr, (value >> bit) & 1);
    }
}

#[test]
fn sxrom_sizes() {
    assert_eq!(sxrom::from_rom(rom(1, 1, 1, Mirroring::Horizontal)).err(), Some(MapperError::BadPrgRomSize));
    assert_eq!(sxrom::from_rom(rom(1, 3, 1, Mirroring::Horizontal)).err(), Some(MapperError::BadPrgRomSize));
    assert_eq!(sxrom::from_rom(rom(1, 2, 3, Mirroring::Horizontal)).err(), Some(MapperError::BadChrRomSize));
    assert!(sxrom::from_rom(rom(1, 16, 0, Mirroring::Horizontal)).is_ok());
}

#[test]
fn sxrom_shift_register() {
    let mut cart = sxrom::from_rom(rom(1, 8, 2, Mirroring::Horizontal)).unwrap();
    assert_eq!(cart.load_reg, 0b10000);
    assert_eq!(cart.control, 0b01100);
    // Four writes shift in, the fifth loads the register that the address
    // selects
    cart.write_cpu(0xE000, 1);
    assert_eq!(cart.load_reg, 0b11000);
    cart.write_cpu(0xE000, 0);
    cart.write_cpu(0xE000, 1);
    cart.write_cpu(0xE000, 0);
    assert_eq!(cart.load_reg, 0b01011);
    assert_eq!(cart.prg_bank, 0);
    cart.write_cpu(0xE000, 0);
    assert_eq!(cart.prg_bank, 0b00101);
    assert_eq!(cart.load_reg, 0b10000);
    // A write with bit 7 set starts over
    cart.write_cpu(0x8000, 1);
    cart.write_cpu(0x8000, 1);
    cart.write_cpu(0x8000, 0x80);
    assert_eq!(cart.load_reg, 0b10000);
    assert_eq!(cart.control, 0b01100);
    load(&mut cart, 0x9FFF, 0b10011);
    assert_eq!(cart.control, 0b10011);
    load(&mut cart, 0xA000, 0b00001);
    assert_eq!(cart.chr_bank_0, 1);
    load(&mut cart, 0xDFFF, 0b00011);
    assert_eq!(cart.chr_bank_1, 3);
    // Program RAM does not touch the shift register
    cart.write_cpu(0x6000, 0x81);
    assert_eq!(cart.read_cpu(0x6000), 0x81);
    assert_eq!(cart.load_reg, 0b10000);
    assert_eq!(cart.read_cpu(0x4020), 0);
}

#[test]
fn sxrom_program_banks() {
    let mut cart = sxrom::from_rom(rom(1, 8, 0, Mirroring::Horizontal)).unwrap();
    // At power-on the last bank is fixed and the first switched
    load(&mut cart, 0xE000, 3);
    assert_eq!(cart.read_cpu(0x8000), 3);
    assert_eq!(cart.read_cpu(0xC000), 7);
    assert_eq!(cart.read_cpu(0xFFFF), 7);
    // First bank fixed, the other switched
    load(&mut cart, 0x8000, 0b01000);
    assert_eq!(cart.read_cpu(0x8000), 0);
    assert_eq!(cart.read_cpu(0xC000), 3);
    // Thirty-two KiB at once, without the low bit of the bank number
    load(&mut cart, 0x8000, 0b00000);
    assert_eq!(cart.read_cpu(0x8000), 2);
    assert_eq!(cart.read_cpu(0xC000), 3);
    load(&mut cart, 0x8000, 0b00100);
    load(&mut cart, 0xE000, 6);
    assert_eq!(cart.read_cpu(0x8000), 6);
    assert_eq!(cart.read_cpu(0xFFFF), 7);
}

#[test]
fn sxrom_character_banks_and_mirroring() {
    let mut vram = [0u8; 2048];
    let mut cart = sxrom::from_rom(rom(1, 2, 2, Mirroring::Horizontal)).unwrap();
    // Two banks of four KiB
    load(&mut cart, 0x8000, 0b11100);
    load(&mut cart, 0xA000, 2);
    load(&mut cart, 0xC000, 1);
    assert_eq!(cart.get_mapped_chr_addr(0x0000), 0x2000);
    assert_eq!(cart.get_mapped_chr_addr(0x1001), 0x1001);
    assert_eq!(cart.read_ppu(&vram, 0x0000), 0x82);
    assert_eq!(cart.read_ppu(&vram, 0x1000), 0x81);
    // A bank number past the end wraps
    load(&mut cart, 0xA000, 5);
    assert_eq!(cart.read_ppu(&vram, 0x0000), 0x81);
    // One bank of eight KiB
    load(&mut cart, 0x8000, 0b01100);
    load(&mut cart, 0xA000, 0);
    assert_eq!(cart.read_ppu(&vram, 0x1000), 0x81);
    assert_eq!(cart.get_mapped_chr_addr(0x1FFF), 0x1FFF);
    // The control register selects the mirroring
    for (control, mode) in [
        (0u8, MirrorMode::OneScreenLower),
        (1, MirrorMode::OneScreenHigher),
        (2, MirrorMode::Vertical),
        (3, MirrorMode::Horizontal),
    ] {
        load(&mut cart, 0x8000, control);
        assert_eq!(cart.get_mirroring(), mode);
    }
    load(&mut cart, 0x8000, 1);
    cart.write_ppu(&mut vram, 0x2000, 0x44);
    assert_eq!(vram[0x400], 0x44);
    assert_eq!(cart.read_ppu(&vram, 0x2C00), 0x44);
    // Character ROM is not written, character RAM is
    cart.write_ppu(&mut vram, 0x0000, 0x00);
    assert_eq!(cart.read_ppu(&vram, 0x0000), 0x80);
    let mut cart = sxrom::from_rom(rom(1, 2, 0, Mirroring::Horizontal)).unwrap();
    cart.write_ppu(&mut vram, 0x0123, 0x45);
    assert_eq!(cart.read_ppu(&vram, 0x0123), 0x45);
}

#[test]
fn cartridge_forwards_to_its_mapper() {
    let mut vram = [0u8; 2048];
    for mapper in 0..3 {
        let mut cart = from_rom(rom(mapper, 2, 0, Mirroring::Vertical)).unwrap();
        cart.write_cpu(0x6010, 0x21);
        assert_eq!(cart.read_cpu(0x6010), 0x21);
        assert_eq!(cart.read_cpu(0xFFFF), 1);
        cart.write_ppu(&mut vram, 0x0100, 0x43);
        assert_eq!(cart.read_ppu(&vram, 0x0100), 0x43);
    }
}
