use covnes::emulator::Emulator;
use covnes::nes::io::{
    ControllerPortDataLines, SingleStandardControllerIO, StandardControllerButtons, BUTTON_A,
    BUTTON_START,
};
use covnes::nes::mappers;
use covnes::nes::palette::get_rgb;
use covnes::nes::screen::{Color, EmulatorIo, PixelData};
use covnes::romfiles::RomFile;

fn cartridge(code: &[u8]) -> mappers::Cartridge {
    let mut image = vec![0x4E, 0x45, 0x53, 0x1A, 1, 0, 0, 0, 0, 0, 0, 0, 0, 0, 0, 0];
    let mut prg = vec![0xEAu8; 16384];
    prg[..code.len()].copy_from_slice(code);
    prg[0x3FFC] = 0x00;
    prg[0x3FFD] = 0xC0;
    image.extend_from_slice(&prg);
    mappers::from_rom(RomFile::from_read(&image).unwrap()).unwrap()
}

#[test]
fn pixel_buffer() {
    let mut pixels = PixelData::new();
    assert_eq!(pixels.pixels().len(), 256 * 240);
    assert!(pixels.pixels().iter().all(|p| *p == (0, 0, 0)));
    pixels.set_pixel(0, 0, 1, 2, 3);
    pixels.set_pixel(239, 255, 4, 5, 6);
    pixels.set_pixel(1, 2, 7, 8, 9);
    assert_eq!(pixels.pixels()[0], (1, 2, 3));
    assert_eq!(pixels.pixels()[256 * 240 - 1], (4, 5, 6));
    assert_eq!(pixels.pixels()[258], (7, 8, 9));
    assert_eq!(pixels.get_pixel(1, 2), Color::rgb(7, 8, 9));
    assert_eq!(Color::rgb(1, 2, 3), Color { r: 1, g: 2, b: 3 });
}

#[test]
fn host_in_memory() {
    let mut io = EmulatorIo::new();
    assert_eq!(io.poll_buttons().bits(), 0);
    io.current_key_state = StandardControllerButtons::from_bits_truncate(BUTTON_START);
    assert_eq!(io.poll_buttons().bits(), BUTTON_START);
    io.set_pixel(3, 4, 9, 8, 7);
    assert_eq!(io.pixels.get_pixel(3, 4), Color::rgb(9, 8, 7));
}

#[test]
fn button_sets() {
    let mut b = StandardControllerButtons::empty();
    assert_eq!(b.bits(), 0);
    b.insert(BUTTON_A | BUTTON_START);
    assert!(b.contains(BUTTON_A));
    assert!(b.contains(BUTTON_A | BUTTON_START));
    b.remove(BUTTON_A);
    assert!(!b.contains(BUTTON_A));
    assert_eq!(b.bits(), BUTTON_START);
    assert_eq!(ControllerPortDataLines::empty().bits(), 0);
    assert_eq!(ControllerPortDataLines::from_bits_truncate(0xFF).bits(), 0x19);
}

#[test]
fn palette_colours() {
    assert_eq!(get_rgb(0x00), (84, 84, 84));
    assert_eq!(get_rgb(0x0F), (0, 0, 0));
    assert_eq!(get_rgb(0x16), (152, 34, 32));
    assert_eq!(get_rgb(0x20), (236, 238, 236));
    assert_eq!(get_rgb(0x3D), (160, 162, 160));
    // The two high bits of a palette byte are not wired
    assert_eq!(get_rgb(0x40), get_rgb(0x00));
    assert_eq!(get_rgb(0xFF), get_rgb(0x3F));
}

#[test]
fn emulator_runs_frames() {
    // Set the backdrop to colour $16 and show the background:
    // LDA #$3F; STA $2006; LDA #$00; STA $2006; LDA #$16; STA $2007;
    // LDA #$0A; STA $2001; JMP to itself
    let mut emulator = Emulator::new(cartridge(&[
        0xA9, 0x3F, 0x8D, 0x06, 0x20, 0xA9, 0x00, 0x8D, 0x06, 0x20, 0xA9, 0x16, 0x8D, 0x07, 0x20,
        0xA9, 0x0A, 0x8D, 0x01, 0x20, 0x4C, 0x14, 0xC0,
    ]));
    emulator.step_frame().unwrap();
    let ticks = emulator.step_frame().unwrap();
    assert!(ticks == 89342 || ticks == 89341);
    let pixels = emulator.iter_pixels();
    assert_eq!(pixels.len(), 256 * 240);
    assert_eq!(pixels[0], (0, 0, get_rgb(0x16)));
    assert_eq!(pixels[257], (1, 1, get_rgb(0x16)));
    assert_eq!(pixels[256 * 240 - 1], (239, 255, get_rgb(0x16)));
    emulator.set_buttons(StandardControllerButtons::from_bits_truncate(BUTTON_A));
    assert_eq!(emulator.nes.board.io.io.current_key_state.bits(), BUTTON_A);
    emulator.reset();
    emulator.nes.step_cpu_instruction().unwrap();
    assert_eq!(emulator.nes.cpu.pc, 0xC000);
}
