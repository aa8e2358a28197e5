//! A console with one controller and a picture in memory, ready to be driven
//! frame by frame.

use vstd::prelude::*;
use crate::nes::clock::{dots_to_next_frame_end, past_frame_end};
use crate::nes::cpu::CpuHostAccess;
use crate::nes::io::{SingleStandardController, StandardControllerButtons};
use crate::nes::mappers::Cartridge;
use crate::nes::screen::EmulatorIo;
use crate::nes::{Fault, Nes};

verus! {

/// The console together with its controller and its picture.
pub struct Emulator {
    pub nes: Nes<SingleStandardController<EmulatorIo>>,
}

impl Emulator {
    /// A console whose parts are in order.
    pub open spec fn wf(&self) -> bool {
        self.nes.wf()
    }

    /// A console at power-on with `cartridge` in its slot.
    pub fn new(cartridge: Cartridge) -> (e: Emulator)
        requires
            cartridge.wf(),
        ensures
            e.wf(),
            e.nes.board.cartridge == cartridge,
            e.nes.fault is None,
            e.nes.cpu == crate::nes::cpu::CPU::power_on(),
            e.nes.ppu.registers_clear(),
            e.nes.cycle is T1,
            e.nes.board.io.io.current_key_state.bits == 0,
            forall|i: int| 0 <= i < 256 * 240 ==> e.nes.board.io.io.pixels@[i] == (0u8, 0u8, 0u8),
    {
        let io = SingleStandardController::new(EmulatorIo::new());
        let mut nes = Nes::new(io);
        nes.insert_cartridge(cartridge);
        Emulator { nes }
    }

    /// Runs the console to the end of the frame.
    pub fn step_frame(&mut self) -> (r: Result<usize, Fault>)
        requires
            old(self).wf(),
        ensures
            final(self).wf(),
            match r {
                Ok(ticks) => {
                    &&& final(self).nes.fault is None
                    &&& final(self).nes.ppu.at_frame_end()
                    &&& 1 <= ticks <= 89342
                    &&& old(self).nes.ppu.at_frame_end() ==> ticks == 89342 || ticks == 89341
                    &&& ticks == dots_to_next_frame_end(
                        old(self).nes.ppu.scanline,
                        old(self).nes.ppu.dot,
                    ) || (ticks + 1 == dots_to_next_frame_end(
                        old(self).nes.ppu.scanline,
                        old(self).nes.ppu.dot,
                    ) && old(self).nes.ppu.odd_frame && past_frame_end(
                        old(self).nes.ppu.scanline,
                        old(self).nes.ppu.dot,
                    ))
                    &&& final(self).nes.ppu.odd_frame == if past_frame_end(
                        old(self).nes.ppu.scanline,
                        old(self).nes.ppu.dot,
                    ) {
                        !old(self).nes.ppu.odd_frame
                    } else {
                        old(self).nes.ppu.odd_frame
                    }
                },
                Err(f) => final(self).nes.fault == Some(f),
            },
            r matches Ok(ticks) ==> final(self).nes.stepped_to_frame_end(
                &old(self).nes,
                ticks as nat,
            ),
            old(self).nes.fault is Some ==> final(self).nes == old(self).nes,
            old(self).nes.fault is None ==> exists|n: nat, armed: bool| #[trigger]
                final(self).nes.ran_inside_frame(&old(self).nes, n, armed),
    {
        self.nes.step_frame()
    }

    /// Presses the reset button: the CPU starts its reset sequence, the
    /// PPU's control registers and beam are cleared, a sprite DMA is given
    /// up, memory is kept.
    pub fn reset(&mut self)
        requires
            old(self).wf(),
        ensures
            final(self).wf(),
            final(self).nes.fault is None,
            final(self).nes.cpu == old(self).nes.cpu.at(crate::nes::cpu::S::Reset),
            final(self).nes.dma == (crate::nes::dma::DMA {
                is_odd: false,
                state: crate::nes::dma::DMAState::No,
            }),
            final(self).nes.ppu == (crate::nes::ppu::PPU {
                ppuctrl: 0,
                ppumask: 0,
                scanline: 0,
                dot: 0,
                odd_frame: false,
                perform_skip: false,
                ..old(self).nes.ppu
            }),
            final(self).nes.board == old(self).nes.board,
            final(self).nes.cpu_ram == old(self).nes.cpu_ram,
            final(self).nes.cycle == old(self).nes.cycle,
            final(self).nes.controller_latch == old(self).nes.controller_latch,
    {
        self.nes.reset();
    }

    /// Holds down the buttons `buttons`, and no others.
    pub fn set_buttons(&mut self, buttons: StandardControllerButtons)
        requires
            old(self).wf(),
        ensures
            final(self).wf(),
            final(self).nes.board.io.io.current_key_state == buttons,
            final(self).nes.board.io.io.pixels == old(self).nes.board.io.io.pixels,
            final(self).nes.board.io.latch == old(self).nes.board.io.latch,
            final(self).nes.board.io.currently_high == old(self).nes.board.io.currently_high,
            final(self).nes.board.cartridge == old(self).nes.board.cartridge,
            final(self).nes.board.vram == old(self).nes.board.vram,
            final(self).nes.cpu == old(self).nes.cpu,
            final(self).nes.ppu == old(self).nes.ppu,
            final(self).nes.dma == old(self).nes.dma,
            final(self).nes.cpu_ram == old(self).nes.cpu_ram,
            final(self).nes.cycle == old(self).nes.cycle,
            final(self).nes.fault == old(self).nes.fault,
    {
        self.nes.board.io.io.current_key_state = buttons;
    }

    /// The picture, pixel by pixel: the rows from the top, each from the
    /// left, every pixel with its row, its column and its colour.
    pub fn iter_pixels(&self) -> (pixels: Vec<(u8, u8, (u8, u8, u8))>)
        ensures
            pixels@.len() == 256 * 240,
            forall|k: int|
                0 <= k < 256 * 240 ==> #[trigger] pixels@[k] == (
                    (k / 256) as u8,
                    (k % 256) as u8,
                    self.nes.board.io.io.pixels@[k],
                ),
    {
        let buffer = self.nes.board.io.io.pixels.pixels();
        let mut out: Vec<(u8, u8, (u8, u8, u8))> = Vec::new();
        let mut row: u8 = 0;
        while row < 240
            invariant
                row <= 240,
                buffer@.len() == 256 * 240,
                out@.len() == row * 256,
                forall|k: int|
                    0 <= k < row * 256 ==> #[trigger] out@[k] == (
                        (k / 256) as u8,
                        (k % 256) as u8,
                        buffer@[k],
                    ),
            decreases 240 - row,
        {
            let mut col: u16 = 0;
            while col < 256
                invariant
                    row < 240,
                    col <= 256,
                    buffer@.len() == 256 * 240,
                    out@.len() == row * 256 + col,
                    forall|k: int|
                        0 <= k < row * 256 + col ==> #[trigger] out@[k] == (
                            (k / 256) as u8,
                            (k % 256) as u8,
                            buffer@[k],
                        ),
                decreases 256 - col,
            {
                let index = row as usize * 256 + col as usize;
                out.push((row, col as u8, buffer[index]));
                col = col + 1;
            }
            row = row + 1;
        }
        out
    }
}

} // verus!
