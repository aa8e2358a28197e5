//! The sections of an input line.

use vstd::prelude::*;
use super::{Error, GamepadInput, InputDevice, Problem, ZapperInput};

verus! {

/// Whether a character of a gamepad's input stands for a button that is
/// held: any but a dot and a space.
pub open spec fn held(c: u8) -> bool {
    c != 0x2E && c != 0x20
}

/// The buttons that the first `n` characters of a gamepad's input write, as
/// a number: each character adds a bit at the bottom.
pub open spec fn gamepad_bits(input: Seq<u8>, n: int) -> int
    decreases n,
{
    if n <= 0 {
        0
    } else {
        (gamepad_bits(input, n - 1) * 2) % 256 + if held(input[n - 1]) {
            1int
        } else {
            0
        }
    }
}

/// The input of a gamepad: eight characters, of which the first stands for
/// the button at bit 7 and the last for the one at bit 0.
pub fn parse_gamepad_input(input: &[u8], line_no: i32, section: &'static str) -> (r: Result<
    GamepadInput,
    Error,
>)
    ensures
        match r {
            Ok(buttons) => input@.len() == 8 && buttons.bits == gamepad_bits(input@, 8),
            Err(e) => input@.len() != 8 && e@ == (Problem::BadGamepadInput {
                line_no: line_no as int,
                section,
            }),
        },
{
    if input.len() != 8 {
        return Err(Error::BadGamepadInput { line_no, section });
    }
    let mut v: u8 = 0;
    let mut i: usize = 0;
    while i < 8
        invariant
            i <= 8,
            input@.len() == 8,
            v == gamepad_bits(input@, i as int),
        decreases 8 - i,
    {
        v = (v % 128) * 2;
        let c = input[i];
        if c != 0x2E && c != 0x20 {
            v = v + 1;
        }
        i = i + 1;
    }
    Ok(GamepadInput::from_bits_truncate(v))
}

/// The input of a zapper, which is not read: every such input is refused.
pub fn parse_zapper_input(_input: &[u8], line_no: i32, section: &'static str) -> (r: Result<
    ZapperInput,
    Error,
>)
    ensures
        r matches Err(e) && e@ == (Problem::BadZapperInput { line_no: line_no as int, section }),
{
    Err(Error::BadZapperInput { line_no, section })
}

/// The input of a port without a device, which must be empty.
pub fn parse_no_controller_input_input(input: &[u8], line_no: i32, section: &'static str) -> (r:
    Result<(), Error>)
    ensures
        match r {
            Ok(()) => input@.len() == 0,
            Err(e) => input@.len() != 0 && e@ == (Problem::BadNoInputInput {
                line_no: line_no as int,
                section,
            }),
        },
{
    if input.len() != 0 {
        return Err(Error::BadNoInputInput { line_no, section });
    }
    Ok(())
}

/// The problem with `input` as the input of a device of kind `kind`, if
/// there is one.
pub open spec fn device_problem(kind: int, input: Seq<u8>, line_no: int, section: &'static str) -> Option<
    Problem,
> {
    if kind == 0 {
        if input.len() != 0 {
            Some(Problem::BadNoInputInput { line_no, section })
        } else {
            None
        }
    } else if kind == 1 {
        if input.len() != 8 {
            Some(Problem::BadGamepadInput { line_no, section })
        } else {
            None
        }
    } else {
        Some(Problem::BadZapperInput { line_no, section })
    }
}

impl InputDevice {
    /// The input of the gamepad frame by frame, as the bits of its buttons;
    /// empty for another device.
    pub open spec fn gamepad_frames(&self) -> Seq<int> {
        match self {
            InputDevice::Gamepad(v) => Seq::new(v@.len(), |i: int| v@[i].bits as int),
            _ => Seq::empty(),
        }
    }
}

/// Reads `input` as one more frame of input of `input_device`.
pub fn parse_input_for_input_device(
    input_device: &mut InputDevice,
    input: &[u8],
    line_no: i32,
    section: &'static str,
) -> (r: Result<(), Error>)
    ensures
        final(input_device).kind() == old(input_device).kind(),
        match r {
            Ok(()) => {
                &&& device_problem(old(input_device).kind(), input@, line_no as int, section) is None
                &&& final(input_device).gamepad_frames() == if old(input_device).kind() == 1 {
                    old(input_device).gamepad_frames().push(gamepad_bits(input@, 8))
                } else {
                    old(input_device).gamepad_frames()
                }
            },
            Err(e) => {
                &&& device_problem(old(input_device).kind(), input@, line_no as int, section)
                    == Some(e@)
                &&& final(input_device).gamepad_frames() == old(input_device).gamepad_frames()
            },
        },
{
    match input_device {
        InputDevice::NotConnected => {
            parse_no_controller_input_input(input, line_no, section)?;
        },
        InputDevice::Gamepad(entries) => {
            let buttons = parse_gamepad_input(input, line_no, section)?;
            let ghost before = entries@;
            entries.push(buttons);
            proof {
                assert(Seq::new(entries@.len(), |i: int| entries@[i].bits as int) =~= Seq::new(
                    before.len(),
                    |i: int| before[i].bits as int,
                ).push(gamepad_bits(input@, 8)));
            }
        },
        InputDevice::Zapper(entries) => {
            let shot = parse_zapper_input(input, line_no, section)?;
            entries.push(shot);
        },
    }
    Ok(())
}

} // verus!
