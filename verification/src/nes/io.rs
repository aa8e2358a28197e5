//! The host: where pixels go and where controller input comes from.

use vstd::prelude::*;

verus! {

/// The bits of the buttons in `StandardControllerButtons`.
pub const BUTTON_A: u8 = 0x01;

pub const BUTTON_B: u8 = 0x02;

pub const BUTTON_SELECT: u8 = 0x04;

pub const BUTTON_START: u8 = 0x08;

pub const BUTTON_UP: u8 = 0x10;

pub const BUTTON_DOWN: u8 = 0x20;

pub const BUTTON_LEFT: u8 = 0x40;

pub const BUTTON_RIGHT: u8 = 0x80;

/// Up and down together, which a real pad cannot report.
pub const BUTTONS_UP_DOWN: u8 = 0x30;

/// Left and right together, which a real pad cannot report.
pub const BUTTONS_LEFT_RIGHT: u8 = 0xC0;

/// The data lines of a controller port that a read can raise.
pub const LINE_D0: u8 = 0x01;

pub const LINE_D3: u8 = 0x08;

pub const LINE_D4: u8 = 0x10;

/// The eight buttons of a standard controller, one bit each, A at bit 0 and
/// then B, SELECT, START, UP, DOWN, LEFT, RIGHT.
#[derive(Debug, Clone, Copy, PartialEq, Eq, Structural)]
pub struct StandardControllerButtons {
    pub bits: u8,
}

/// The data lines of a controller port that the console reads: D0, D3 and
/// D4.
#[derive(Debug, Clone, Copy, PartialEq, Eq, Structural)]
pub struct ControllerPortDataLines {
    pub bits: u8,
}

impl StandardControllerButtons {
    /// No button held.
    pub fn empty() -> (b: StandardControllerButtons)
        ensures
            b.bits == 0,
    {
        StandardControllerButtons { bits: 0 }
    }

    /// The buttons whose bits are set in `bits`.
    pub fn from_bits_truncate(bits: u8) -> (b: StandardControllerButtons)
        ensures
            b.bits == bits,
    {
        StandardControllerButtons { bits }
    }

    pub fn bits(&self) -> (bits: u8)
        ensures
            bits == self.bits,
    {
        self.bits
    }

    /// Whether every button of `mask` is pressed.
    pub fn contains(&self, mask: u8) -> (b: bool)
        ensures
            b == (self.bits & mask == mask),
    {
        self.bits & mask == mask
    }

    /// Presses the buttons of `mask`.
    pub fn insert(&mut self, mask: u8)
        ensures
            final(self).bits == old(self).bits | mask,
    {
        self.bits = self.bits | mask;
    }

    /// Lets go of the buttons of `mask`.
    pub fn remove(&mut self, mask: u8)
        ensures
            final(self).bits == old(self).bits & !mask,
    {
        self.bits = self.bits & !mask;
    }
}

impl ControllerPortDataLines {
    /// No line raised.
    pub fn empty() -> (l: ControllerPortDataLines)
        ensures
            l.bits == 0,
    {
        ControllerPortDataLines { bits: 0 }
    }

    /// The lines that `bits` names; bits that stand for no line are dropped.
    pub fn from_bits_truncate(bits: u8) -> (l: ControllerPortDataLines)
        ensures
            l.bits == bits & 0x19,
    {
        ControllerPortDataLines { bits: bits & 0x19 }
    }

    pub fn bits(&self) -> (bits: u8)
        ensures
            bits == self.bits,
    {
        self.bits
    }
}

/// What the machine asks of its host. A host says in three relations what
/// each request does to it.
pub trait IO {
    /// Whether `self` is the host `before` after it was given the colour of
    /// the pixel in row `row` and column `col`.
    spec fn shown(&self, before: &Self, row: u16, col: u16, colour: (u8, u8, u8)) -> bool;

    /// Whether `self` is the host `before` after it was told that the
    /// controller strobe line went to `value`.
    spec fn strobed(&self, before: &Self, value: bool) -> bool;

    /// Whether `self` is the host `before` after a read of a controller
    /// port, the second one if `second`, that it answered with `lines`.
    spec fn answered(&self, before: &Self, second: bool, lines: ControllerPortDataLines) -> bool;

    /// Shows the pixel in row `row` (0 to 239) and column `col` (0 to 255).
    fn set_pixel(&mut self, row: u16, col: u16, r: u8, g: u8, b: u8)
        requires
            row < 240,
            col < 256,
        ensures
            final(self).shown(old(self), row, col, (r, g, b)),
    ;

    /// Tells the host that the controller strobe line changed. It is called
    /// on a change only, not on every write to `$4016`.
    fn controller_latch_change(&mut self, value: bool)
        ensures
            final(self).strobed(old(self), value),
    ;

    /// A read of the first controller port.
    fn controller_port_1_read(&mut self) -> (lines: ControllerPortDataLines)
        ensures
            final(self).answered(old(self), false, lines),
    ;

    /// A read of the second controller port.
    fn controller_port_2_read(&mut self) -> (lines: ControllerPortDataLines)
        ensures
            final(self).answered(old(self), true, lines),
    ;
}

/// A host that shows nothing and has no controllers.
#[derive(Debug, Clone, Copy)]
pub struct DummyIO;

impl IO for DummyIO {
    open spec fn shown(&self, before: &DummyIO, row: u16, col: u16, colour: (u8, u8, u8)) -> bool {
        true
    }

    open spec fn strobed(&self, before: &DummyIO, value: bool) -> bool {
        true
    }

    /// No line is ever raised.
    open spec fn answered(
        &self,
        before: &DummyIO,
        second: bool,
        lines: ControllerPortDataLines,
    ) -> bool {
        lines.bits == 0
    }

    fn set_pixel(&mut self, _row: u16, _col: u16, _r: u8, _g: u8, _b: u8) {
    }

    fn controller_latch_change(&mut self, _value: bool) {
    }

    fn controller_port_1_read(&mut self) -> (lines: ControllerPortDataLines) {
        ControllerPortDataLines::empty()
    }

    fn controller_port_2_read(&mut self) -> (lines: ControllerPortDataLines) {
        ControllerPortDataLines::empty()
    }
}

/// What a host with one standard controller provides; the latch and shift
/// register of the controller are then modelled by
/// `SingleStandardController`.
pub trait SingleStandardControllerIO {
    /// The buttons that are held down.
    spec fn buttons(&self) -> StandardControllerButtons;

    /// Whether `self` is the host `before` after it was given the colour of
    /// the pixel in row `row` and column `col`.
    spec fn shown(&self, before: &Self, row: u16, col: u16, colour: (u8, u8, u8)) -> bool;

    /// Shows the pixel in row `row` (0 to 239) and column `col` (0 to 255).
    /// The buttons stay as they are.
    fn set_pixel(&mut self, row: u16, col: u16, r: u8, g: u8, b: u8)
        requires
            row < 240,
            col < 256,
        ensures
            final(self).shown(old(self), row, col, (r, g, b)),
            final(self).buttons() == old(self).buttons(),
    ;

    /// The buttons that are held down.
    fn poll_buttons(&self) -> (pressed: StandardControllerButtons)
        ensures
            pressed == self.buttons(),
    ;
}

/// One standard controller in port 1 and nothing in port 2.
pub struct SingleStandardController<I: SingleStandardControllerIO> {
    pub io: I,
    pub currently_high: bool,
    pub latch: u8,
}

/// The buttons as the controller latches them: a real pad cannot have up and
/// down, or left and right, pressed together, so down resp. right is dropped
/// from such a pair.
pub open spec fn latched(bits: u8) -> u8 {
    let vertical = if bits & 0x30 == 0x30 {
        bits & !0x20u8
    } else {
        bits
    };
    if vertical & 0xC0 == 0xC0 {
        vertical & !0x80u8
    } else {
        vertical
    }
}

/// The shift register after one read: a one comes in at the top, as in an
/// official pad.
pub open spec fn shifted_out(latch: u8) -> u8 {
    (latch >> 1) | 0x80
}

/// The shift register after `n` reads.
pub open spec fn after_reads(latch: u8, n: nat) -> u8
    decreases n,
{
    if n == 0 {
        latch
    } else {
        after_reads(shifted_out(latch), (n - 1) as nat)
    }
}

impl<I: SingleStandardControllerIO> SingleStandardController<I> {
    /// A controller on port 1 of `io`, with nothing latched and the strobe
    /// line low.
    pub fn new(io: I) -> (c: SingleStandardController<I>)
        ensures
            c.io == io,
            !c.currently_high,
            c.latch == 0,
    {
        SingleStandardController { io, currently_high: false, latch: 0 }
    }

    /// Takes over the strobe line; on its fall the buttons `pressed` are
    /// latched.
    pub fn strobe(&mut self, value: bool, pressed: StandardControllerButtons)
        ensures
            final(self).io == old(self).io,
            final(self).currently_high == value,
            final(self).latch == if value {
                old(self).latch
            } else {
                latched(pressed.bits)
            },
    {
        self.currently_high = value;
        if !value {
            // High-low transition ==> Latch current buttons
            let mut buttons = pressed;

            // Remove impossible combinations
            if buttons.contains(BUTTONS_UP_DOWN) {
                buttons.remove(BUTTON_DOWN);
            }
            if buttons.contains(BUTTONS_LEFT_RIGHT) {
                buttons.remove(BUTTON_RIGHT);
            }
            self.latch = buttons.bits();
        }
    }

    /// The level of D0 on a read of port 1. While the strobe is high this
    /// is the A button as it is now; else the low bit of the shift register,
    /// which then moves on.
    pub fn serial_read(&mut self, pressed: StandardControllerButtons) -> (bit: bool)
        ensures
            final(self).io == old(self).io,
            final(self).currently_high == old(self).currently_high,
            old(self).currently_high ==> bit == (pressed.bits & 0x01 == 0x01) && final(self).latch
                == old(self).latch,
            !old(self).currently_high ==> bit == (old(self).latch & 1 == 1) && final(self).latch
                == shifted_out(old(self).latch),
    {
        if self.currently_high {
            // We return the current A value - no need to check for impossible combinations with A
            pressed.contains(BUTTON_A)
        } else {
            let latch = self.latch;
            // Official NES controllers return 1 after emptying latch
            self.latch = (latch >> 1) | 0x80;
            latch & 1 == 1
        }
    }
}

impl<I: SingleStandardControllerIO> IO for SingleStandardController<I> {
    /// The pixel goes to the host; the controller and the buttons stay as
    /// they are.
    open spec fn shown(
        &self,
        before: &SingleStandardController<I>,
        row: u16,
        col: u16,
        colour: (u8, u8, u8),
    ) -> bool {
        &&& self.io.shown(&before.io, row, col, colour)
        &&& self.io.buttons() == before.io.buttons()
        &&& self.currently_high == before.currently_high
        &&& self.latch == before.latch
    }

    /// The controller follows the strobe line, and on its fall latches the
    /// buttons that are held.
    open spec fn strobed(&self, before: &SingleStandardController<I>, value: bool) -> bool {
        &&& self.io == before.io
        &&& self.currently_high == value
        &&& self.latch == if value {
            before.latch
        } else {
            latched(before.io.buttons().bits)
        }
    }

    /// On the first port D0 gives, while the strobe is high, the A button
    /// as it is now, and else the low bit of the shift register, which then
    /// moves on. Nothing is plugged into the second port.
    open spec fn answered(
        &self,
        before: &SingleStandardController<I>,
        second: bool,
        lines: ControllerPortDataLines,
    ) -> bool {
        if second {
            *self == *before && lines.bits == 0
        } else {
            &&& self.io == before.io
            &&& self.currently_high == before.currently_high
            &&& lines.bits == if before.currently_high {
                before.io.buttons().bits & 0x01
            } else {
                before.latch & 1
            }
            &&& self.latch == if before.currently_high {
                before.latch
            } else {
                shifted_out(before.latch)
            }
        }
    }

    fn set_pixel(&mut self, row: u16, col: u16, r: u8, g: u8, b: u8) {
        self.io.set_pixel(row, col, r, g, b);
    }

    fn controller_latch_change(&mut self, value: bool) {
        let pressed = self.io.poll_buttons();
        self.strobe(value, pressed);
    }

    fn controller_port_1_read(&mut self) -> (lines: ControllerPortDataLines) {
        let pressed = self.io.poll_buttons();
        let bit = self.serial_read(pressed);
        proof {
            let p = pressed.bits;
            let l = old(self).latch;
            assert((p & 0x01 == 0x01) == (p & 0x01 == 1) && (p & 0x01 == 1 || p & 0x01 == 0) && (l & 1
                == 1 || l & 1 == 0)) by (bit_vector);
        }
        // D3 and D4 are not driven in this configuration.
        if bit {
            ControllerPortDataLines { bits: LINE_D0 }
        } else {
            ControllerPortDataLines::empty()
        }
    }

    fn controller_port_2_read(&mut self) -> (lines: ControllerPortDataLines) {
        // Not connected - this is always 0
        ControllerPortDataLines::empty()
    }
}

/// After eight reads the shift register holds ones only, and keeps doing so.
proof fn lemma_register_runs_out(latch: u8, n: nat)
    requires
        n >= 8,
    ensures
        after_reads(latch, n) == 0xFF,
    decreases n,
{
    reveal_with_fuel(after_reads, 9);
    if n == 8 {
        let l1 = shifted_out(latch);
        let l2 = shifted_out(l1);
        let l3 = shifted_out(l2);
        let l4 = shifted_out(l3);
        let l5 = shifted_out(l4);
        let l6 = shifted_out(l5);
        let l7 = shifted_out(l6);
        let l8 = shifted_out(l7);
        assert(after_reads(latch, 8) == l8);
        assert(((((((((latch >> 1 | 0x80u8) >> 1 | 0x80u8) >> 1 | 0x80u8) >> 1 | 0x80u8) >> 1 | 0x80u8)
            >> 1 | 0x80u8) >> 1 | 0x80u8) >> 1 | 0x80u8) == 0xFFu8) by (bit_vector);
    } else {
        lemma_register_runs_out(shifted_out(latch), (n - 1) as nat);
    }
}

/// The reads that follow a latch return the buttons in the order A, B,
/// SELECT, START, UP, DOWN, LEFT, RIGHT: read number `n`, counted from zero,
/// returns bit `n` of what was latched, and every read after the eighth
/// returns one.
pub proof fn lemma_reads_in_button_order(latch: u8, n: nat)
    ensures
        n < 8 ==> (after_reads(latch, n) & 1 == 1) == (latch & (1u8 << (n as u8)) != 0),
        n >= 8 ==> after_reads(latch, n) & 1 == 1,
{
    reveal_with_fuel(after_reads, 9);
    if n >= 8 {
        lemma_register_runs_out(latch, n);
        assert(0xFFu8 & 1 == 1) by (bit_vector);
    } else {
        let l1 = shifted_out(latch);
        let l2 = shifted_out(l1);
        let l3 = shifted_out(l2);
        let l4 = shifted_out(l3);
        let l5 = shifted_out(l4);
        let l6 = shifted_out(l5);
        let l7 = shifted_out(l6);
        assert(after_reads(latch, 0) == latch);
        assert(after_reads(latch, 1) == l1);
        assert(after_reads(latch, 2) == l2);
        assert(after_reads(latch, 3) == l3);
        assert(after_reads(latch, 4) == l4);
        assert(after_reads(latch, 5) == l5);
        assert(after_reads(latch, 6) == l6);
        assert(after_reads(latch, 7) == l7);
        assert({
            &&& (latch & 1 == 1) == (latch & (1u8 << 0u8) != 0)
            &&& (l1 & 1 == 1) == (latch & (1u8 << 1u8) != 0)
            &&& (l2 & 1 == 1) == (latch & (1u8 << 2u8) != 0)
            &&& (l3 & 1 == 1) == (latch & (1u8 << 3u8) != 0)
            &&& (l4 & 1 == 1) == (latch & (1u8 << 4u8) != 0)
            &&& (l5 & 1 == 1) == (latch & (1u8 << 5u8) != 0)
            &&& (l6 & 1 == 1) == (latch & (1u8 << 6u8) != 0)
            &&& (l7 & 1 == 1) == (latch & (1u8 << 7u8) != 0)
        }) by (bit_vector)
            requires
                l1 == (latch >> 1) | 0x80u8,
                l2 == (l1 >> 1) | 0x80u8,
                l3 == (l2 >> 1) | 0x80u8,
                l4 == (l3 >> 1) | 0x80u8,
                l5 == (l4 >> 1) | 0x80u8,
                l6 == (l5 >> 1) | 0x80u8,
                l7 == (l6 >> 1) | 0x80u8,
        ;
    }
}

} // verus!
