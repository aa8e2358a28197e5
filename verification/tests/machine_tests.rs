use covnes::nes::cpu::{CpuHostAccess, Line};
use covnes::nes::dma::{DMAState, DMA};
use covnes::nes::io::{
    DummyIO, SingleStandardController, StandardControllerButtons, BUTTON_A, BUTTON_B,
    BUTTON_DOWN, BUTTON_LEFT, BUTTON_RIGHT, BUTTON_SELECT, BUTTON_START, BUTTON_UP, IO,
};
use covnes::nes::mappers;
use covnes::nes::mappers::Cartridge;
use covnes::nes::screen::EmulatorIo;
use covnes::nes::{Cycle, Nes};
use covnes::romfiles::RomFile;

fn cartridge(code: &[u8], flags6: u8) -> Cartridge {
    let mut image = vec![0x4E, 0x45, 0x53, 0x1A, 1, 1, flags6, 0, 0, 0, 0, 0, 0, 0, 0, 0];
    let mut prg = vec![0xEAu8; 16384];
    prg[..code.len()].copy_from_slice(code);
    prg[0x3FFA] = 0x00;
    prg[0x3FFB] = 0xC1;
    prg[0x3FFC] = 0x00;
    prg[0x3FFD] = 0xC0;
    prg[0x3FFE] = 0x00;
    prg[0x3FFF] = 0xC2;
    image.extend_from_slice(&prg);
    image.extend_from_slice(&vec![0u8; 8192]);
    mappers::from_rom(RomFile::from_read(&image).unwrap()).unwrap()
}

fn console(code: &[u8]) -> Nes<DummyIO> {
    let mut nes = Nes::new(DummyIO);
    nes.insert_cartridge(cartridge(code, 0x02));
    nes
}

#[test]
fn a_new_machine() {
    let nes = Nes::new(DummyIO);
    assert_eq!(nes.cycle, Cycle::T1);
    assert_eq!(nes.fault, None);
    assert!(!nes.controller_latch);
    assert!(nes.ram().iter().all(|b| *b == 0));
    assert!(nes.vram().iter().all(|b| *b == 0));
    assert!(matches!(nes.board.cartridge, Cartridge::NotConnected));
    assert_eq!(nes.dma, DMA { is_odd: false, state: DMAState::No });
    assert_eq!((nes.ppu.scanline, nes.ppu.dot), (0, 0));
}

#[test]
fn cartridges_go_in_and_out() {
    let mut nes = console(&[0xEA]);
    assert!(matches!(nes.board.cartridge, Cartridge::NROM(_)));
    assert_eq!(nes.read(0xC000), 0xEA);
    nes.remove_cartridge();
    assert!(matches!(nes.board.cartridge, Cartridge::NotConnected));
}

#[test]
fn work_ram_is_mirrored_four_times() {
    let mut nes = console(&[0xEA]);
    for addr in [0x0000u16, 0x0001, 0x0123, 0x07FF] {
        for (mirror, value) in [(0x0000u16, 0x11u8), (0x0800, 0x22), (0x1000, 0x33), (0x1800, 0x44)] {
            nes.write(addr + mirror, value);
            assert_eq!(nes.read(addr), value);
            assert_eq!(nes.read(addr + 0x0800), value);
            assert_eq!(nes.read(addr + 0x1000), value);
            assert_eq!(nes.read(addr + 0x1800), value);
            assert_eq!(nes.ram()[addr as usize], value);
        }
    }
}

#[test]
fn audio_registers_read_zero_and_drop_writes() {
    let mut nes = console(&[0xEA]);
    for addr in 0x4000u16..=0x4013 {
        nes.write(addr, 0xFF);
        assert_eq!(nes.read(addr), 0);
    }
    nes.write(0x4015, 0xFF);
    assert_eq!(nes.read(0x4015), 0);
    nes.write(0x4017, 0xFF);
    assert_eq!(nes.fault, None);
}

#[test]
fn cartridge_space_reaches_the_mapper() {
    let mut nes = console(&[0xA9, 0x01]);
    // Program ROM, mirrored where it is sixteen KiB
    assert_eq!(nes.read(0x8000), 0xA9);
    assert_eq!(nes.read(0xC001), 0x01);
    assert_eq!(nes.read(0xFFFD), 0xC0);
    // Program RAM
    nes.write(0x6000, 0x5A);
    nes.write(0x7FFF, 0xA5);
    assert_eq!(nes.read(0x6000), 0x5A);
    assert_eq!(nes.read(0x7FFF), 0xA5);
    // A write to ROM is dropped, and nothing answers below $6000
    nes.write(0x8000, 0x00);
    assert_eq!(nes.read(0x8000), 0xA9);
    assert_eq!(nes.read(0x4020), 0);
    assert_eq!(nes.read(0x5FFF), 0);
}

#[test]
fn three_ticks_make_a_cpu_cycle() {
    let mut nes = console(&[0xEA]);
    assert_eq!(nes.cycle, Cycle::T1);
    nes.tick().unwrap();
    assert_eq!(nes.cycle, Cycle::T2);
    assert_eq!(nes.ppu.dot, 1);
    nes.tick().unwrap();
    assert_eq!(nes.cycle, Cycle::T3);
    nes.tick().unwrap();
    assert_eq!(nes.cycle, Cycle::T1);
    assert_eq!(nes.ppu.dot, 3);
    // From inside a cycle, tick_cpu goes on to its end
    nes.tick().unwrap();
    nes.tick_cpu().unwrap();
    assert_eq!(nes.cycle, Cycle::T1);
    assert_eq!(nes.ppu.dot, 6);
    nes.tick_cpu().unwrap();
    assert_eq!(nes.ppu.dot, 9);
}

#[test]
fn frames_without_rendering_have_all_their_dots() {
    let mut nes = console(&[0x4C, 0x00, 0xC0]);
    // From power-on to the first vertical blank
    assert_eq!(nes.step_frame(), Ok(241 * 341 + 1));
    assert!(nes.ppu.is_at_frame_end());
    assert_eq!(nes.step_frame(), Ok(89342));
    assert_eq!(nes.step_frame(), Ok(89342));
    assert_eq!(nes.step_frame(), Ok(89342));
    assert!(nes.ppu.is_at_frame_end());
}

#[test]
fn odd_frames_with_rendering_drop_a_dot() {
    let mut nes = console(&[0x4C, 0x00, 0xC0]);
    nes.step_frame().unwrap();
    // Show the background
    nes.write(0x2001, 0x08);
    let first = nes.step_frame().unwrap();
    let second = nes.step_frame().unwrap();
    let third = nes.step_frame().unwrap();
    let fourth = nes.step_frame().unwrap();
    assert_eq!((first, second, third, fourth), (89342, 89341, 89342, 89341));
    // In CPU cycles a frame is 29,781 at most
    assert!(first <= 29781 * 3);
    // Sprites alone switch rendering on as well
    nes.write(0x2001, 0x10);
    assert_eq!(nes.step_frame().unwrap() + nes.step_frame().unwrap(), 89342 + 89341);
    nes.write(0x2001, 0x00);
    assert_eq!(nes.step_frame(), Ok(89342));
    assert_eq!(nes.step_frame(), Ok(89342));
}

#[test]
fn vertical_blank_raises_the_nmi() {
    // LDA #$80; STA $2000; JMP to itself
    let mut nes = console(&[0xA9, 0x80, 0x8D, 0x00, 0x20, 0x4C, 0x05, 0xC0]);
    nes.step_frame().unwrap();
    // The beam is at the dot that sets the flag
    assert_eq!(nes.ppu.ppustatus & 0x80, 0x00);
    assert_eq!(nes.cpu.nmi, Line::Idle);
    nes.tick().unwrap();
    // The PPU has just set the flag and signalled the CPU
    assert_eq!(nes.ppu.ppustatus & 0x80, 0x80);
    assert_eq!(nes.cpu.nmi, Line::Pending);
    // The signal is seen at the next poll, and taken at the next fetch: the
    // handler is at $C100
    let mut entered = false;
    for _ in 0..20 {
        nes.step_cpu_instruction().unwrap();
        if nes.cpu.pc == 0xC100 {
            entered = true;
            break;
        }
    }
    assert!(entered);
    assert_eq!(nes.cpu.nmi, Line::Idle);
}

#[test]
fn vertical_blank_without_nmi_enabled_signals_nothing() {
    let mut nes = console(&[0x4C, 0x00, 0xC0]);
    nes.step_frame().unwrap();
    nes.tick().unwrap();
    assert_eq!(nes.ppu.ppustatus & 0x80, 0x80);
    assert_eq!(nes.cpu.nmi, Line::Idle);
    // Switching the NMI on while the flag is set raises it at once
    nes.write(0x2000, 0x80);
    assert_eq!(nes.cpu.nmi, Line::Pending);
}

#[test]
fn reading_the_status_right_after_the_flag_takes_the_nmi_back() {
    let mut nes = console(&[0x4C, 0x00, 0xC0]);
    nes.write(0x2000, 0x80);
    nes.step_frame().unwrap();
    nes.tick().unwrap();
    assert_eq!((nes.ppu.scanline, nes.ppu.dot), (241, 2));
    assert_eq!(nes.cpu.nmi, Line::Pending);
    // The read sees the flag, and takes the NMI back
    let status = nes.read(0x2002);
    assert_eq!(status & 0x80, 0x80);
    assert_eq!(nes.cpu.nmi, Line::Idle);
    // Two dots later it would not have
    let mut nes = console(&[0x4C, 0x00, 0xC0]);
    nes.write(0x2000, 0x80);
    nes.step_frame().unwrap();
    nes.tick().unwrap();
    nes.tick().unwrap();
    nes.tick().unwrap();
    assert_eq!((nes.ppu.scanline, nes.ppu.dot), (241, 4));
    nes.read(0x2002);
    assert!(nes.cpu.nmi != Line::Idle);
}

/// The number of CPU cycles from the end of `STA $4014` to the opcode fetch
/// of the `NOP` after it, when `prefix` runs before the store, and whether
/// the cycle after the store was an odd one.
fn dma_cycles(prefix: &[u8]) -> (usize, bool) {
    // JMP to itself; at $C010 the prefix; LDA #$02; STA $4014; NOP
    let mut code = vec![0x4C, 0x00, 0xC0];
    code.resize(0x10, 0xEA);
    code.extend_from_slice(prefix);
    code.extend_from_slice(&[0xA9, 0x02, 0x8D, 0x14, 0x40, 0xEA]);
    let mut nes = console(&code);
    for i in 0..=255u16 {
        nes.write(0x0200 + i, i as u8);
    }
    // Copy in the vertical blank, as programs do
    nes.step_frame().unwrap();
    while !(nes.cpu.is_at_instruction() && nes.cycle == Cycle::T1) {
        nes.tick().unwrap();
    }
    nes.cpu.jump_to_pc(0xC010);
    if !prefix.is_empty() {
        nes.step_cpu_instruction().unwrap();
    }
    nes.step_cpu_instruction().unwrap();
    assert_eq!(nes.step_cpu_instruction(), Ok(4));
    assert_eq!(nes.dma.state, DMAState::Req { addr_high: 0x02 });
    let odd = nes.dma.is_odd;
    // While the copy runs the CPU stays before its opcode fetch
    let pc = nes.cpu.pc;
    let mut ticks = 0;
    while nes.cpu.is_at_instruction() {
        assert_eq!(nes.cpu.pc, pc);
        nes.tick_cpu().unwrap();
        ticks += 1;
    }
    // The last of these cycles was the fetch itself
    let ticks = ticks - 1;
    assert_eq!(nes.cpu.pc, pc + 1);
    assert_eq!(nes.dma.state, DMAState::No);
    // The page is in sprite memory
    for i in 0..=255usize {
        assert_eq!(nes.ppu.oam()[i], i as u8);
    }
    (ticks, odd)
}

#[test]
fn sprite_dma_takes_513_or_514_cycles() {
    let (ticks, odd) = dma_cycles(&[]);
    assert_eq!(ticks, if odd { 513 } else { 514 });
    // Three cycles more before the store change the alignment
    let (shifted, shifted_odd) = dma_cycles(&[0xA5, 0x00]);
    assert_eq!(shifted_odd, !odd);
    assert_eq!(shifted, if shifted_odd { 513 } else { 514 });
    assert_eq!(ticks + shifted, 513 + 514);
    // Two cycles more do not
    let (again, again_odd) = dma_cycles(&[0xEA]);
    assert_eq!((again, again_odd), (ticks, odd));
}

#[test]
fn dma_state_machine() {
    let mut dma = DMA::new();
    assert_eq!(dma, DMA { is_odd: false, state: DMAState::No });
    // Without a request the CPU runs
    assert!(dma.complete(false, 0));
    assert!(dma.is_odd);
    dma.trigger_oamdma(0x03);
    assert_eq!(dma.state, DMAState::Req { addr_high: 0x03 });
    // A request waits while the CPU writes
    assert!(dma.complete(true, 0));
    assert_eq!(dma.state, DMAState::Req { addr_high: 0x03 });
    assert!(!dma.is_odd);
    // On an even cycle a read for alignment comes first
    assert!(!dma.complete(false, 0));
    assert_eq!(dma.state, DMAState::DummyRead { addr_high: 0x03 });
    assert!(!dma.complete(false, 0xEE));
    assert_eq!(dma.state, DMAState::Read { addr_high: 0x03, addr_low: 0 });
    assert!(!dma.complete(false, 0x77));
    assert_eq!(dma.state, DMAState::Write { addr_high: 0x03, addr_low: 0, value: 0x77 });
    assert!(!dma.complete(false, 0));
    assert_eq!(dma.state, DMAState::Read { addr_high: 0x03, addr_low: 1 });
    // A reset gives the copy up
    dma.reset();
    assert!(!dma.is_odd);
    assert_eq!(dma.state, DMAState::No);
    assert!(dma.complete(false, 0));

    // On an odd cycle the copy starts at once
    let mut dma = DMA { is_odd: true, state: DMAState::Req { addr_high: 0x07 } };
    assert!(!dma.complete(false, 0));
    assert_eq!(dma.state, DMAState::Read { addr_high: 0x07, addr_low: 0 });
    // The last byte ends the copy
    let mut dma = DMA {
        is_odd: false,
        state: DMAState::Write { addr_high: 0x07, addr_low: 255, value: 1 },
    };
    assert!(!dma.complete(false, 0));
    assert_eq!(dma.state, DMAState::No);
}

#[test]
fn dma_drives_any_bus() {
    let mut nes = console(&[0xEA]);
    nes.write(0x0300, 0x42);
    nes.write(0x2003, 0x10);
    let mut dma = DMA { is_odd: true, state: DMAState::Req { addr_high: 0x03 } };
    assert!(!dma.tick(false, &mut nes));
    assert!(!dma.tick(false, &mut nes));
    assert_eq!(dma.state, DMAState::Write { addr_high: 0x03, addr_low: 0, value: 0x42 });
    assert!(!dma.tick(false, &mut nes));
    // The byte went where the sprite address pointed
    assert_eq!(nes.ppu.oam()[0x10], 0x42);
    assert_eq!(nes.ppu.oamaddr, 0x11);
}

fn console_with_controller() -> Nes<SingleStandardController<EmulatorIo>> {
    let mut nes = Nes::new(SingleStandardController::new(EmulatorIo::new()));
    nes.insert_cartridge(cartridge(&[0xEA], 0x02));
    nes
}

#[test]
fn a_machine_without_a_cartridge_answers_on_its_own_parts() {
    let mut nes = Nes::new(SingleStandardController::new(EmulatorIo::new()));
    // The controller
    nes.write(0x4016, 0x01);
    nes.board.io.io.current_key_state = StandardControllerButtons::from_bits_truncate(BUTTON_A);
    nes.write(0x4016, 0x00);
    let reads: Vec<u8> = (0..9).map(|_| nes.read(0x4016)).collect();
    assert_eq!(reads, vec![1, 0, 0, 0, 0, 0, 0, 0, 1]);
    // Work RAM, the PPU's registers and the DMA register
    nes.write(0x0123, 0x5A);
    assert_eq!(nes.read(0x0923), 0x5A);
    nes.write(0x2003, 0x10);
    nes.write(0x2004, 0x77);
    nes.write(0x2003, 0x10);
    assert_eq!(nes.read(0x2004), 0x77);
    nes.write(0x4014, 0x02);
    assert_eq!(nes.dma.state, DMAState::Req { addr_high: 0x02 });
    // The empty slot reads as zero and takes nothing
    nes.write(0x8000, 0xFF);
    assert_eq!(nes.read(0x8000), 0);
    assert_eq!(nes.read(0xFFFC), 0);
    nes.write(0x2006, 0x20);
    nes.write(0x2006, 0x00);
    nes.write(0x2007, 0x99);
    assert!(nes.vram().iter().all(|b| *b == 0));
    assert!(matches!(nes.board.cartridge, Cartridge::NotConnected));
    assert_eq!(nes.fault, None);
}

#[test]
fn reset_gives_a_sprite_dma_up() {
    let mut nes = console(&[0xEA]);
    assert_eq!(nes.step_cpu_instruction(), Ok(7));
    nes.write(0x4014, 0x02);
    nes.tick_cpu().unwrap();
    nes.tick_cpu().unwrap();
    assert!(!matches!(nes.dma.state, DMAState::No));
    nes.reset();
    assert_eq!(nes.dma, DMA { is_odd: false, state: DMAState::No });
    // The reset sequence is not held up
    assert_eq!(nes.step_cpu_instruction(), Ok(7));
    assert_eq!(nes.cpu.pc, 0xC000);
}

#[test]
fn controller_strobe() {
    let mut nes = console_with_controller();
    nes.write(0x4016, 0x01);
    nes.board.io.io.current_key_state = StandardControllerButtons::from_bits_truncate(BUTTON_A);
    nes.write(0x4016, 0x00);
    let reads: Vec<u8> = (0..9).map(|_| nes.read(0x4016)).collect();
    // A, B, SELECT, START, UP, DOWN, LEFT, RIGHT, and ones after that
    assert_eq!(reads, vec![1, 0, 0, 0, 0, 0, 0, 0, 1]);
    assert_eq!(nes.read(0x4016), 1);
    // Nothing is plugged into the second port
    assert_eq!(nes.read(0x4017), 0);
}

#[test]
fn controller_reports_the_buttons_in_order() {
    for (position, button) in [
        BUTTON_A,
        BUTTON_B,
        BUTTON_SELECT,
        BUTTON_START,
        BUTTON_UP,
        BUTTON_DOWN,
        BUTTON_LEFT,
        BUTTON_RIGHT,
    ]
    .iter()
    .enumerate()
    {
        let mut nes = console_with_controller();
        nes.board.io.io.current_key_state = StandardControllerButtons::from_bits_truncate(*button);
        nes.write(0x4016, 0x01);
        nes.write(0x4016, 0x00);
        for read in 0..8 {
            assert_eq!(nes.read(0x4016), if read == position { 1 } else { 0 });
        }
    }
}

#[test]
fn controller_latches_at_the_falling_edge() {
    let mut nes = console_with_controller();
    nes.write(0x4016, 0x01);
    assert!(nes.controller_latch);
    // While the strobe is high a read gives A as it is now
    assert_eq!(nes.read(0x4016), 0);
    nes.board.io.io.current_key_state = StandardControllerButtons::from_bits_truncate(BUTTON_A);
    assert_eq!(nes.read(0x4016), 1);
    assert_eq!(nes.read(0x4016), 1);
    nes.board.io.io.current_key_state = StandardControllerButtons::from_bits_truncate(BUTTON_B);
    nes.write(0x4016, 0x00);
    assert!(!nes.controller_latch);
    // What is pressed after the edge does not count
    nes.board.io.io.current_key_state = StandardControllerButtons::from_bits_truncate(BUTTON_A);
    assert_eq!(nes.read(0x4016), 0);
    assert_eq!(nes.read(0x4016), 1);
    // Only bit 0 of the write drives the strobe, and only a change is told
    nes.write(0x4016, 0xFE);
    assert!(!nes.controller_latch);
    assert_eq!(nes.read(0x4016), 0);
}

#[test]
fn controller_drops_impossible_pairs() {
    let mut pad = SingleStandardController::new(EmulatorIo::new());
    pad.io.current_key_state =
        StandardControllerButtons::from_bits_truncate(BUTTON_UP | BUTTON_DOWN | BUTTON_LEFT | BUTTON_RIGHT);
    pad.controller_latch_change(true);
    pad.controller_latch_change(false);
    assert_eq!(pad.latch, BUTTON_UP | BUTTON_LEFT);
    pad.io.current_key_state =
        StandardControllerButtons::from_bits_truncate(BUTTON_DOWN | BUTTON_RIGHT | BUTTON_A);
    pad.controller_latch_change(true);
    assert_eq!(pad.latch, BUTTON_UP | BUTTON_LEFT);
    pad.controller_latch_change(false);
    assert_eq!(pad.latch, BUTTON_DOWN | BUTTON_RIGHT | BUTTON_A);
    assert_eq!(pad.controller_port_1_read().bits(), 1);
    assert_eq!(pad.latch, 0x80 | 0x50);
    assert_eq!(pad.controller_port_2_read().bits(), 0);
}

#[test]
fn dummy_host() {
    let mut io = DummyIO;
    io.set_pixel(0, 0, 1, 2, 3);
    io.controller_latch_change(true);
    assert_eq!(io.controller_port_1_read().bits(), 0);
    assert_eq!(io.controller_port_2_read().bits(), 0);
}

#[test]
fn pixels_reach_the_host() {
    // Show the background with the backdrop colour $21 everywhere
    let mut nes = console_with_controller();
    nes.write(0x2006, 0x3F);
    nes.write(0x2006, 0x00);
    nes.write(0x2007, 0x21);
    nes.write(0x2001, 0x0A);
    nes.step_frame().unwrap();
    nes.step_frame().unwrap();
    let expected = covnes::nes::palette::get_rgb(0x21);
    for (row, col) in [(0u16, 0u16), (10, 17), (239, 255), (120, 128)] {
        let c = nes.get_pixel(row, col);
        assert_eq!((c.r, c.g, c.b), expected);
    }
}

#[test]
fn a_machine_from_an_image() {
    let mut image = vec![0x4E, 0x45, 0x53, 0x1A, 2, 1, 0x01, 0, 0, 0, 0, 0, 0, 0, 0, 0];
    image.extend_from_slice(&vec![0xEAu8; 32768]);
    image.extend_from_slice(&vec![0u8; 8192]);
    let mut nes = Nes::from_rom(DummyIO, RomFile::from_read(&image).unwrap()).unwrap();
    assert!(matches!(nes.board.cartridge, Cartridge::NROM(_)));
    assert_eq!(nes.cycle, Cycle::T1);
    assert_eq!(nes.fault, None);
    assert!(!nes.controller_latch);
    assert_eq!(nes.dma, DMA { is_odd: false, state: DMAState::No });
    assert!(nes.ram().iter().all(|b| *b == 0));
    assert!(nes.vram().iter().all(|b| *b == 0));
    assert!(nes.ppu.cgram().iter().all(|b| *b == 0));
    assert!(nes.ppu.oam().iter().all(|b| *b == 0));
    assert_eq!(nes.read(0x8000), 0xEA);
    image[7] = 0x40;
    assert_eq!(
        Nes::from_rom(DummyIO, RomFile::from_read(&image).unwrap()).err(),
        Some(mappers::MapperError::UnsupportedMapper(0x40))
    );
}

#[test]
fn an_instruction_takes_two_cycles_at_least() {
    // NOP, CLC, LDA #1, TAX: the shortest instructions
    let mut nes = console(&[0xEA, 0x18, 0xA9, 0x01, 0xAA]);
    assert_eq!(nes.step_cpu_instruction(), Ok(7));
    for _ in 0..4 {
        assert!(nes.cpu.is_at_instruction());
        assert_eq!(nes.step_cpu_instruction(), Ok(2));
    }
    assert_eq!(nes.cpu.pc, 0xC005);
}

#[test]
fn each_frame_changes_the_parity() {
    let mut nes = console(&[0x4C, 0x00, 0xC0]);
    // To the end of the first frame, which is even: the beam stays in it
    assert_eq!(nes.step_frame(), Ok(82182));
    assert!(!nes.ppu.odd_frame);
    nes.write(0x2001, 0x08);
    // An even frame drops no dot, an odd one with rendering on drops one
    assert_eq!(nes.step_frame(), Ok(89342));
    assert!(nes.ppu.odd_frame);
    assert_eq!(nes.step_frame(), Ok(89341));
    assert!(!nes.ppu.odd_frame);
    // The dot is dropped between dot 339 of the pre-render scanline and
    // the next frame
    nes.step_frame().unwrap();
    while !(nes.ppu.scanline == 261 && nes.ppu.dot == 338) {
        nes.tick().unwrap();
    }
    assert!(nes.ppu.odd_frame);
    nes.tick().unwrap();
    assert_eq!((nes.ppu.scanline, nes.ppu.dot), (261, 339));
    assert!(nes.ppu.perform_skip);
    nes.tick().unwrap();
    assert_eq!((nes.ppu.scanline, nes.ppu.dot), (0, 0));
    assert!(!nes.ppu.odd_frame);
    assert!(!nes.ppu.perform_skip);
    // A reset in between clears the latch
    nes.step_frame().unwrap();
    nes.step_frame().unwrap();
    while !(nes.ppu.scanline == 261 && nes.ppu.dot == 339) {
        nes.tick().unwrap();
    }
    assert!(nes.ppu.perform_skip);
    nes.reset();
    assert!(!nes.ppu.perform_skip);
    assert_eq!((nes.ppu.scanline, nes.ppu.dot), (0, 0));
}

#[test]
fn an_instruction_ends_within_eight_cycles_from_any_phase() {
    // INC $0200,X takes seven cycles
    let mut nes = console(&[0xFE, 0x00, 0x02, 0xEA]);
    assert_eq!(nes.step_cpu_instruction(), Ok(7));
    // From inside the first cycle the rest of it counts as one
    nes.tick().unwrap();
    assert_eq!(nes.cycle, Cycle::T2);
    assert_eq!(nes.step_cpu_instruction(), Ok(7));
    assert_eq!(nes.cpu.pc, 0xC003);
    // At an opcode fetch, from inside the cycle before it, one cycle ends
    // the step
    let mut nes = console(&[0xEA, 0xEA]);
    assert_eq!(nes.step_cpu_instruction(), Ok(7));
    nes.tick_cpu().unwrap();
    nes.tick().unwrap();
    nes.tick().unwrap();
    assert_eq!(nes.cycle, Cycle::T3);
    assert_eq!(nes.step_cpu_instruction(), Ok(1));
    assert!(nes.cpu.is_at_instruction());
}
