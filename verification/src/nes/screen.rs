//! A host that keeps the picture in memory and takes its buttons from a
//! register.

use vstd::prelude::*;
use super::io::{SingleStandardController, SingleStandardControllerIO, StandardControllerButtons};
use super::Nes;

verus! {

/// The width of the picture.
pub const SCREEN_WIDTH: usize = 256;

/// The height of the picture.
pub const SCREEN_HEIGHT: usize = 240;

/// A colour as red, green and blue.
#[derive(Debug, Clone, Copy, PartialEq, Eq, Structural)]
pub struct Color {
    pub r: u8,
    pub g: u8,
    pub b: u8,
}

/// The pixels of one picture, row by row: 240 rows of 256 columns.
#[derive(Debug)]
pub struct PixelData {
    pixels: Vec<(u8, u8, u8)>,
}

/// A host with one standard controller: the picture goes to `pixels`, and
/// the buttons that are held are those of `current_key_state`.
#[derive(Debug)]
pub struct EmulatorIo {
    pub pixels: PixelData,
    pub current_key_state: StandardControllerButtons,
}

impl Color {
    /// The colour with these parts.
    pub fn rgb(r: u8, g: u8, b: u8) -> (c: Color)
        ensures
            c == (Color { r, g, b }),
    {
        Color { r, g, b }
    }
}

/// The place of the pixel in row `row` and column `col`.
pub open spec fn pixel_index(row: u16, col: u16) -> int {
    row * 256 + col
}

impl View for PixelData {
    type V = Seq<(u8, u8, u8)>;

    closed spec fn view(&self) -> Seq<(u8, u8, u8)> {
        self.pixels@
    }
}

impl PixelData {
    #[verifier::type_invariant]
    spec fn sized(&self) -> bool {
        self.pixels@.len() == 256 * 240
    }

    /// A black picture.
    pub fn new() -> (p: PixelData)
        ensures
            p@.len() == 256 * 240,
            forall|i: int| 0 <= i < 256 * 240 ==> p@[i] == (0u8, 0u8, 0u8),
    {
        let mut pixels: Vec<(u8, u8, u8)> = Vec::with_capacity(SCREEN_WIDTH * SCREEN_HEIGHT);
        let mut i: usize = 0;
        while i < SCREEN_WIDTH * SCREEN_HEIGHT
            invariant
                i <= 256 * 240,
                pixels@.len() == i,
                forall|k: int| 0 <= k < i ==> pixels@[k] == (0u8, 0u8, 0u8),
            decreases 256 * 240 - i,
        {
            pixels.push((0, 0, 0));
            i = i + 1;
        }
        PixelData { pixels }
    }

    /// The pixels, row after row.
    pub fn pixels(&self) -> (p: &Vec<(u8, u8, u8)>)
        ensures
            p@ == self@,
            p@.len() == 256 * 240,
    {
        proof {
            use_type_invariant(self);
        }
        &self.pixels
    }

    /// Colours one pixel of the picture.
    pub fn set_pixel(&mut self, row: u16, col: u16, r: u8, g: u8, b: u8)
        requires
            row < 240,
            col < 256,
        ensures
            final(self)@ == old(self)@.update(pixel_index(row, col), (r, g, b)),
    {
        proof {
            use_type_invariant(&*self);
        }
        self.pixels[row as usize * SCREEN_WIDTH + col as usize] = (r, g, b);
    }

    /// The colour of one pixel of the picture.
    pub fn get_pixel(&self, row: u16, col: u16) -> (c: Color)
        requires
            row < 240,
            col < 256,
        ensures
            (c.r, c.g, c.b) == self@[pixel_index(row, col)],
    {
        proof {
            use_type_invariant(self);
        }
        let (r, g, b) = self.pixels[row as usize * SCREEN_WIDTH + col as usize];
        Color::rgb(r, g, b)
    }
}

impl EmulatorIo {
    /// A black picture of 240 rows of 256 pixels, and no button held.
    pub fn new() -> (io: EmulatorIo)
        ensures
            io.current_key_state.bits == 0,
            io.pixels@.len() == 256 * 240,
            forall|i: int| 0 <= i < 256 * 240 ==> io.pixels@[i] == (0u8, 0u8, 0u8),
    {
        EmulatorIo { pixels: PixelData::new(), current_key_state: StandardControllerButtons::empty() }
    }
}

impl SingleStandardControllerIO for EmulatorIo {
    open spec fn buttons(&self) -> StandardControllerButtons {
        self.current_key_state
    }

    /// The pixel takes the colour, and every other pixel keeps its own.
    open spec fn shown(&self, before: &EmulatorIo, row: u16, col: u16, colour: (u8, u8, u8)) -> bool {
        &&& self.pixels@ == before.pixels@.update(pixel_index(row, col), colour)
        &&& self.current_key_state == before.current_key_state
    }

    fn set_pixel(&mut self, row: u16, col: u16, r: u8, g: u8, b: u8) {
        self.pixels.set_pixel(row, col, r, g, b);
    }

    fn poll_buttons(&self) -> (pressed: StandardControllerButtons) {
        self.current_key_state
    }
}

impl Nes<SingleStandardController<EmulatorIo>> {
    /// The pixel of the picture in row `row` and column `col`.
    pub fn get_pixel(&self, row: u16, col: u16) -> (c: Color)
        requires
            row < 240,
            col < 256,
        ensures
            (c.r, c.g, c.b) == self.board.io.io.pixels@[pixel_index(row, col)],
    {
        self.board.io.io.pixels.get_pixel(row, col)
    }
}

} // verus!
