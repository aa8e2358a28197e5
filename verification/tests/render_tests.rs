use covnes::nes::cpu::CpuHostAccess;
use covnes::nes::io::SingleStandardController;
use covnes::nes::mappers;
use covnes::nes::palette::get_rgb;
use covnes::nes::screen::EmulatorIo;
use covnes::nes::Nes;
use covnes::romfiles::RomFile;

type Console = Nes<SingleStandardController<EmulatorIo>>;

/// A console with character RAM whose program does nothing, in the vertical
/// blank of its first frame.
fn console() -> Console {
    let mut image = vec![0x4E, 0x45, 0x53, 0x1A, 1, 0, 0x01, 0, 0, 0, 0, 0, 0, 0, 0, 0];
    let mut prg = vec![0xEAu8; 16384];
    prg[0..3].copy_from_slice(&[0x4C, 0x00, 0xC0]);
    prg[0x3FFC] = 0x00;
    prg[0x3FFD] = 0xC0;
    image.extend_from_slice(&prg);
    let mut nes =
        Nes::from_rom(SingleStandardController::new(EmulatorIo::new()), RomFile::from_read(&image).unwrap())
            .unwrap();
    nes.step_frame().unwrap();
    nes
}

fn poke(nes: &mut Console, addr: u16, bytes: &[u8]) {
    nes.write(0x2006, (addr >> 8) as u8);
    nes.write(0x2006, addr as u8);
    for b in bytes {
        nes.write(0x2007, *b);
    }
}

fn shown(nes: &Console, row: u16, col: u16) -> (u8, u8, u8) {
    let c = nes.get_pixel(row, col);
    (c.r, c.g, c.b)
}

/// Draws a background: tile 1 is solid colour 1, tile 2 solid colour 2, and
/// tile 3 has colour 3 in its left half. The first row of tiles holds 1, 2,
/// 3, 0, 1, the second row tile 2 everywhere; tiles 2 and 3 of both rows use
/// palette 1.
fn draw_background(nes: &mut Console) {
    poke(nes, 0x0010, &[0xFF; 8]);
    poke(nes, 0x0028, &[0xFF; 8]);
    poke(nes, 0x0030, &[0xF0; 8]);
    poke(nes, 0x0038, &[0xF0; 8]);
    poke(nes, 0x2000, &[1, 2, 3, 0, 1]);
    poke(nes, 0x2020, &[2; 32]);
    poke(nes, 0x23C0, &[0x04]);
    poke(nes, 0x3F00, &[0x0F, 0x11, 0x12, 0x13, 0x0F, 0x21, 0x22, 0x23]);
    poke(nes, 0x3F10, &[0x0F, 0x31, 0x32, 0x33, 0x0F, 0x35, 0x36, 0x37]);
    // No scroll
    nes.write(0x2000, 0x00);
    nes.write(0x2005, 0x00);
    nes.write(0x2005, 0x00);
    poke(nes, 0x0000, &[]);
}

#[test]
fn background_tiles_reach_the_screen() {
    let mut nes = console();
    draw_background(&mut nes);
    nes.write(0x2001, 0x0A);
    nes.step_frame().unwrap();
    nes.step_frame().unwrap();
    for row in 0..8u16 {
        for col in 0..40u16 {
            let expected = match col / 8 {
                0 | 4 => 0x11,
                1 => 0x12,
                2 if col % 8 < 4 => 0x23,
                _ => 0x0F,
            };
            assert_eq!(shown(&nes, row, col), get_rgb(expected), "row {} col {}", row, col);
        }
    }
    for row in 8..16u16 {
        for col in 0..256u16 {
            let expected = if (16..32).contains(&col) { 0x22 } else { 0x12 };
            assert_eq!(shown(&nes, row, col), get_rgb(expected), "row {} col {}", row, col);
        }
    }
    for (row, col) in [(16u16, 0u16), (100, 100), (239, 255)] {
        assert_eq!(shown(&nes, row, col), get_rgb(0x0F));
    }
}

#[test]
fn the_left_columns_can_be_masked() {
    let mut nes = console();
    draw_background(&mut nes);
    nes.write(0x2001, 0x08);
    nes.step_frame().unwrap();
    nes.step_frame().unwrap();
    assert_eq!(shown(&nes, 0, 0), get_rgb(0x0F));
    assert_eq!(shown(&nes, 0, 7), get_rgb(0x0F));
    assert_eq!(shown(&nes, 0, 8), get_rgb(0x12));
}

#[test]
fn scrolling_moves_the_picture() {
    let mut nes = console();
    draw_background(&mut nes);
    // Twelve pixels to the right and eight down
    nes.write(0x2005, 12);
    nes.write(0x2005, 8);
    nes.write(0x2001, 0x0A);
    nes.step_frame().unwrap();
    nes.step_frame().unwrap();
    // The second row of tiles is at the top, its palette-1 tiles four pixels
    // in from the left
    assert_eq!(shown(&nes, 0, 0), get_rgb(0x12));
    assert_eq!(shown(&nes, 0, 3), get_rgb(0x12));
    assert_eq!(shown(&nes, 0, 4), get_rgb(0x22));
    assert_eq!(shown(&nes, 0, 19), get_rgb(0x22));
    assert_eq!(shown(&nes, 0, 20), get_rgb(0x12));
    assert_eq!(shown(&nes, 8, 0), get_rgb(0x0F));
}

/// Puts sprite 0 with tile 1 at (16, 3), in front and with palette 1, and
/// sprite 1 with tile 3 at (60, 3), behind the background, flipped
/// horizontally and with palette 2; the other sprites are off the screen.
fn place_sprites(nes: &mut Console) {
    nes.write(0x2003, 0x00);
    for b in [3u8, 1, 0x01, 16, 3, 3, 0x62, 60] {
        nes.write(0x2004, b);
    }
    for _ in 2..64 {
        for b in [0xF0u8, 0, 0, 0] {
            nes.write(0x2004, b);
        }
    }
    poke(nes, 0x3F1B, &[0x3B]);
    poke(nes, 0x0000, &[]);
}

#[test]
fn sprites_reach_the_screen() {
    let mut nes = console();
    draw_background(&mut nes);
    place_sprites(&mut nes);
    nes.write(0x2001, 0x1E);
    nes.step_frame().unwrap();
    nes.step_frame().unwrap();
    // A sprite is drawn one scanline below its Y coordinate
    assert_eq!(shown(&nes, 3, 16), get_rgb(0x23));
    for row in 4..12u16 {
        for col in 16..24u16 {
            assert_eq!(shown(&nes, row, col), get_rgb(0x35), "row {} col {}", row, col);
        }
        assert_eq!(shown(&nes, row, 15), get_rgb(0x12));
    }
    assert_eq!(shown(&nes, 12, 16), get_rgb(0x22));
    // The flipped sprite has its pattern on the right, and shows only where
    // the background is transparent
    for row in 4..8u16 {
        for col in 60..64u16 {
            assert_eq!(shown(&nes, row, col), get_rgb(0x0F));
        }
        for col in 64..68u16 {
            assert_eq!(shown(&nes, row, col), get_rgb(0x3B));
        }
    }
    for row in 8..12u16 {
        for col in 60..68u16 {
            assert_eq!(shown(&nes, row, col), get_rgb(0x12));
        }
    }
    // Sprite 0 lay over an opaque background
    assert_eq!(nes.ppu.ppustatus & 0x40, 0x40);
}

#[test]
fn sprite_zero_hit_needs_both_layers() {
    // Over a transparent background there is no hit
    let mut nes = console();
    draw_background(&mut nes);
    place_sprites(&mut nes);
    nes.write(0x2003, 0x03);
    nes.write(0x2004, 100);
    nes.write(0x2003, 0x00);
    nes.write(0x2004, 100);
    nes.write(0x2001, 0x1E);
    nes.step_frame().unwrap();
    nes.step_frame().unwrap();
    assert_eq!(shown(&nes, 101, 100), get_rgb(0x35));
    assert_eq!(nes.ppu.ppustatus & 0x40, 0x00);
    // The flag of the frame before is cleared on the pre-render scanline
    let mut nes = console();
    draw_background(&mut nes);
    place_sprites(&mut nes);
    nes.write(0x2001, 0x1E);
    nes.step_frame().unwrap();
    nes.step_frame().unwrap();
    assert_eq!(nes.ppu.ppustatus & 0x40, 0x40);
    nes.write(0x2001, 0x00);
    nes.step_frame().unwrap();
    assert_eq!(nes.ppu.ppustatus & 0x40, 0x00);
}

#[test]
fn tall_sprites_use_two_tiles() {
    let mut nes = console();
    draw_background(&mut nes);
    // Sprite 0 of sixteen rows: tile 2 over tile 3, at (200, 50)
    nes.write(0x2003, 0x00);
    for b in [50u8, 2, 0x00, 200] {
        nes.write(0x2004, b);
    }
    for _ in 1..64 {
        for b in [0xF0u8, 0, 0, 0] {
            nes.write(0x2004, b);
        }
    }
    nes.write(0x2000, 0x20);
    poke(&mut nes, 0x0000, &[]);
    nes.write(0x2001, 0x1E);
    nes.step_frame().unwrap();
    nes.step_frame().unwrap();
    // The upper tile is solid colour 2
    assert_eq!(shown(&nes, 51, 200), get_rgb(0x32));
    assert_eq!(shown(&nes, 51, 207), get_rgb(0x32));
    assert_eq!(shown(&nes, 58, 207), get_rgb(0x32));
    // The lower tile has colour 3 in its left half
    assert_eq!(shown(&nes, 61, 200), get_rgb(0x33));
    assert_eq!(shown(&nes, 61, 207), get_rgb(0x0F));
    assert_eq!(shown(&nes, 66, 203), get_rgb(0x33));
    assert_eq!(shown(&nes, 67, 200), get_rgb(0x0F));
}
