use covnes::romfiles::{copy_range, Mirroring, RomError, RomFile};

fn header(prg: u8, chr: u8, flags6: u8, flags7: u8) -> Vec<u8> {
    vec![0x4E, 0x45, 0x53, 0x1A, prg, chr, flags6, flags7, 0, 0, 0, 0, 0, 0, 0, 0]
}

fn image(prg: u8, chr: u8, flags6: u8, flags7: u8) -> Vec<u8> {
    let mut image = header(prg, chr, flags6, flags7);
    image.extend((0..prg as usize * 16384).map(|i| (i % 253) as u8));
    image.extend((0..chr as usize * 8192).map(|i| (i % 239) as u8));
    image
}

#[test]
fn reads_an_image() {
    let rom = RomFile::from_read(&image(2, 1, 0x00, 0x00)).unwrap();
    assert_eq!(rom.prg_rom.len(), 32768);
    assert_eq!(rom.prg_rom[1], 1);
    assert_eq!(rom.prg_rom[32767], (32767 % 253) as u8);
    let chr = rom.chr_rom.unwrap();
    assert_eq!(chr.len(), 8192);
    assert_eq!(chr[0], 0);
    assert_eq!(chr[8191], (8191 % 239) as u8);
    assert!(!rom.provide_prg_ram);
    assert_eq!(rom.mirroring, Mirroring::Horizontal);
    assert_eq!(rom.mapper, 0);
}

#[test]
fn header_flags() {
    let rom = RomFile::from_read(&image(1, 0, 0x13, 0x20)).unwrap();
    assert_eq!(rom.chr_rom, None);
    assert!(rom.provide_prg_ram);
    assert_eq!(rom.mirroring, Mirroring::Vertical);
    assert_eq!(rom.mapper, 0x21);
    let rom = RomFile::from_read(&image(1, 1, 0x09, 0x0F)).unwrap();
    assert_eq!(rom.mirroring, Mirroring::FourScreen);
    assert_eq!(rom.mapper, 0);
    let rom = RomFile::from_read(&image(1, 1, 0xF0, 0xF0)).unwrap();
    assert_eq!(rom.mapper, 0xFF);
}

#[test]
fn bytes_after_the_image_are_ignored() {
    let mut bytes = image(1, 1, 0, 0);
    bytes.extend_from_slice(&[1, 2, 3]);
    assert!(RomFile::from_read(&bytes).is_ok());
}

#[test]
fn refuses_a_short_header() {
    assert_eq!(RomFile::from_read(&[]).err(), Some(RomError::CouldNotReadHeader));
    assert_eq!(RomFile::from_read(&header(1, 1, 0, 0)[..15]).err(), Some(RomError::CouldNotReadHeader));
}

#[test]
fn refuses_a_wrong_magic() {
    let mut bytes = image(1, 1, 0, 0);
    bytes[3] = 0x1B;
    assert_eq!(RomFile::from_read(&bytes).err(), Some(RomError::NotInes));
    let mut bytes = image(1, 1, 0, 0);
    bytes[0] = 0x4F;
    assert_eq!(RomFile::from_read(&bytes).err(), Some(RomError::NotInes));
}

#[test]
fn refuses_a_trainer() {
    assert_eq!(RomFile::from_read(&image(1, 1, 0x04, 0)).err(), Some(RomError::Trainer));
}

#[test]
fn refuses_a_truncated_image() {
    let bytes = image(1, 1, 0, 0);
    assert_eq!(RomFile::from_read(&bytes[..16 + 16383]).err(), Some(RomError::TruncatedPrgRom));
    assert_eq!(RomFile::from_read(&bytes[..16]).err(), Some(RomError::TruncatedPrgRom));
    assert_eq!(RomFile::from_read(&bytes[..bytes.len() - 1]).err(), Some(RomError::TruncatedChrRom));
    assert_eq!(RomFile::from_read(&bytes[..16 + 16384]).err(), Some(RomError::TruncatedChrRom));
    // Without program ROM and character ROM the header is a whole image
    assert!(RomFile::from_read(&header(0, 0, 0, 0)).is_ok());
}

#[test]
fn copies_a_range() {
    assert_eq!(copy_range(&[1, 2, 3, 4, 5], 1, 3), vec![2, 3, 4]);
    assert_eq!(copy_range(&[1, 2, 3], 3, 0), Vec::<u8>::new());
}
