use covnes::nes::cpu::CpuHostAccess;
use covnes::nes::io::DummyIO;
use covnes::nes::mappers;
use covnes::nes::Nes;
use covnes::romfiles::RomFile;

/// A program under construction, to be placed at `$C000` of a cartridge with
/// sixteen KiB of program ROM.
struct Program {
    bytes: Vec<u8>,
}

const ORIGIN: u16 = 0xC000;

impl Program {
    fn new() -> Program {
        // Signal that the test is running.
        Program { bytes: vec![0xA9, 0x80, 0x8D, 0x00, 0x60] }
    }

    fn here(&self) -> u16 {
        ORIGIN + self.bytes.len() as u16
    }

    fn emit(&mut self, code: &[u8]) {
        self.bytes.extend_from_slice(code);
    }

    /// Fails the test with `code` unless Z is set.
    fn expect_equal(&mut self, code: u8) {
        // BEQ over the failure
        self.emit(&[0xF0, 0x08]);
        self.report(code);
    }

    /// Fails the test with `code` unless N is clear.
    fn expect_plus(&mut self, code: u8) {
        self.emit(&[0x10, 0x08]);
        self.report(code);
    }

    /// Fails the test with `code` unless N is set.
    fn expect_minus(&mut self, code: u8) {
        self.emit(&[0x30, 0x08]);
        self.report(code);
    }

    /// Stores `code` at `$6000` and stops.
    fn report(&mut self, code: u8) {
        self.emit(&[0xA9, code, 0x8D, 0x00, 0x60]);
        let here = self.here();
        self.emit(&[0x4C, here as u8, (here >> 8) as u8]);
    }

    /// Spends about `outer` times 1,285 cycles.
    fn delay(&mut self, outer: u8) {
        // LDY #outer; LDX #0; DEX; BNE -3; DEY; BNE -8
        self.emit(&[0xA0, outer, 0xA2, 0x00, 0xCA, 0xD0, 0xFD, 0x88, 0xD0, 0xF8]);
    }

    /// The image of a cartridge that holds the program, with `tail` at the
    /// end of the program ROM, just before the vectors.
    fn image(&self, tail: &[u8]) -> Vec<u8> {
        let mut prg = vec![0u8; 16384];
        prg[..self.bytes.len()].copy_from_slice(&self.bytes);
        let tail_at = 0x3FFA - tail.len();
        prg[tail_at..0x3FFA].copy_from_slice(tail);
        // NMI, reset and IRQ vectors
        prg[0x3FFA] = 0x00;
        prg[0x3FFB] = 0xC0;
        prg[0x3FFC] = 0x00;
        prg[0x3FFD] = 0xC0;
        prg[0x3FFE] = 0x00;
        prg[0x3FFF] = 0xC0;
        let mut image = vec![0x4E, 0x45, 0x53, 0x1A, 1, 1, 0, 0, 0, 0, 0, 0, 0, 0, 0, 0];
        image.extend_from_slice(&prg);
        image.extend_from_slice(&vec![0u8; 8192]);
        image
    }
}

fn do_rom(image: &[u8]) {
    // Load up the rom
    let mut rom = RomFile::from_read(image).unwrap();
    rom.provide_prg_ram = true;

    let cart = mappers::from_rom(rom).unwrap();

    let io = DummyIO;
    let mut nes = Nes::new(io);

    nes.insert_cartridge(cart);

    let mut rounds = 0;
    loop {
        for _ in 0..1000 {
            nes.tick_cpu().unwrap();
        }
        let code = nes.read(0x6000);
        if code != 0 {
            break;
        }
        rounds += 1;
        assert!(rounds < 200, "the test never started");
    }

    loop {
        for _ in 0..1000 {
            nes.tick_cpu().unwrap();
        }

        let mut status = String::new();
        let mut p = 0x6004;
        loop {
            let c = nes.read(p);
            if c == 0 {
                break;
            }

            p += 1;

            status.push(c as char);
        }

        let code = nes.read(0x6000);
        if code == 0 {
            break;
        } else if code != 0x80 {
            panic!("Status: {:2X}\n{}", code, status)
        }
        rounds += 1;
        assert!(rounds < 200, "the test never ended");
    }
}

// An indexed absolute address past $FFFF wraps around to the zero page, for
// a store and for a load.
#[test]
fn blargg_tests_m_abs_x_wrap() {
    let mut p = Program::new();
    // LDX #1; LDA #$5A; STA $FFFF,X; LDA $00; CMP #$5A
    p.emit(&[0xA2, 0x01, 0xA9, 0x5A, 0x9D, 0xFF, 0xFF, 0xA5, 0x00, 0xC9, 0x5A]);
    p.expect_equal(2);
    // LDA #$A5; STA $00; LDA #0; LDA $FFFF,X; CMP #$A5
    p.emit(&[0xA9, 0xA5, 0x85, 0x00, 0xA9, 0x00, 0xBD, 0xFF, 0xFF, 0xC9, 0xA5]);
    p.expect_equal(3);
    // LDX #2; LDA #$3C; STA $01; LDA #0; LDA $FFFF,X; CMP #$3C
    p.emit(&[0xA2, 0x02, 0xA9, 0x3C, 0x85, 0x01, 0xA9, 0x00, 0xBD, 0xFF, 0xFF, 0xC9, 0x3C]);
    p.expect_equal(4);
    p.delay(2);
    p.report(0);
    do_rom(&p.image(&[]));
}

// A branch past the end of the address space wraps around to the zero page,
// and one before its beginning to the last page.
#[test]
fn blargg_tests_m_branch_wrap() {
    let mut p = Program::new();
    // In the zero page: $00: SEC; $01: BCS to $FFE0
    p.emit(&[0xA9, 0x38, 0x85, 0x00]);
    p.emit(&[0xA9, 0xB0, 0x85, 0x01]);
    // The branch ends at $0003; $FFE0 is $23 bytes before that
    p.emit(&[0xA9, 0xDD, 0x85, 0x02]);
    // JMP $FFF0
    p.emit(&[0x4C, 0xF0, 0xFF]);
    let landed = p.here();
    p.delay(2);
    p.report(0);

    // At $FFE0: JMP landed. At $FFF0: SEC; BCS to $0000, which is $0D bytes
    // after the branch's end at $FFF3.
    let mut tail = vec![0u8; 0x1A];
    tail[0] = 0x4C;
    tail[1] = landed as u8;
    tail[2] = (landed >> 8) as u8;
    tail[0x10] = 0x38;
    tail[0x11] = 0xB0;
    tail[0x12] = 0x0D;
    do_rom(&p.image(&tail));
}

// An indexed load across a page first reads from the page before; on the
// PPU's status register that read clears the vertical-blank flag, so that
// the load itself finds it clear. A load inside the page reads once.
#[test]
fn blargg_tests_m_dummy_read() {
    let mut p = Program::new();
    // Wait for the vertical blank: BIT $2002; BPL -5
    p.emit(&[0x2C, 0x02, 0x20, 0x10, 0xFB]);
    // A frame later the flag is set again
    p.delay(24);
    // LDX #$10; LDA $20F2,X reads $2002 and then $2102
    p.emit(&[0xA2, 0x10, 0xBD, 0xF2, 0x20]);
    p.expect_plus(2);
    // Another frame later: LDX #0; LDA $2002,X reads once
    p.delay(23);
    p.emit(&[0xA2, 0x00, 0xBD, 0x02, 0x20]);
    p.expect_minus(3);
    // And the flag is clear after that read: LDA $2002
    p.emit(&[0xAD, 0x02, 0x20]);
    p.expect_plus(4);
    p.report(0);
    do_rom(&p.image(&[]));
}
