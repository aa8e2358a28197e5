//! Movies in the FM2 format: a header of keys and values, and one line of
//! input for each frame.

use vstd::prelude::*;
use crate::nes::io::StandardControllerButtons;

pub mod fields;
pub mod header;
pub mod input;
pub mod movie;
pub mod playback;
pub mod text;

pub use fields::{
    input_device, optional, optional_bool_or_false, optional_int, required, required_int,
};
pub use header::Header;
pub use input::{
    parse_gamepad_input, parse_input_for_input_device, parse_no_controller_input_input,
    parse_zapper_input,
};

verus! {

/// The bits of the commands that a frame can carry.
pub const COMMAND_SOFT_RESET: u8 = 0x1;

pub const COMMAND_HARD_RESET: u8 = 0x2;

pub const COMMAND_FDS_DISK_INSERT: u8 = 0x4;

pub const COMMAND_FDS_DISK_SELECT: u8 = 0x8;

pub const COMMAND_VS_INSERT_COIN: u8 = 0x16;

/// Every bit that stands for a command.
pub const COMMAND_ALL: u8 = 0x1F;

/// What a frame asks of the console besides its input.
#[derive(Debug, Clone, Copy, PartialEq, Eq, Structural)]
pub struct Command {
    pub bits: u8,
}

pub type GamepadInput = StandardControllerButtons;

/// What a light gun reports in one frame.
#[derive(Debug, Clone, Copy, PartialEq, Eq, Structural)]
pub struct ZapperInput {
    pub x: u16,
    pub y: u16,
    pub mouse_button_pressed: bool,
    pub q: u8,
    pub z: u8,
}

/// What is plugged into a port, with its input frame by frame.
#[derive(Debug)]
pub enum InputDevice {
    NotConnected,
    Gamepad(Vec<GamepadInput>),
    Zapper(Vec<ZapperInput>),
}

/// What is plugged into the console, with its input frame by frame.
#[derive(Debug)]
pub enum ControllerConfiguration {
    Fourscore(Vec<[GamepadInput; 4]>),
    Ports { port0: InputDevice, port1: InputDevice },
}

/// A movie: its header fields and the input of every frame.
#[derive(Debug)]
pub struct FM2File {
    pub version: i32,
    pub emu_version: i32,
    pub rerecord_count: Option<i32>,
    pub pal_flag: bool,
    pub new_ppu: bool,
    pub fds: bool,
    pub controllers: ControllerConfiguration,
    pub port2: (),
    pub binary: bool,
    pub length: Option<i32>,
    pub rom_filename: Vec<u8>,
    pub comment: Option<Vec<u8>>,
    pub subtitle: Option<Vec<u8>>,
    pub guid: Vec<u8>,
    pub rom_checksum: Vec<u8>,
    pub savestate: Option<Vec<u8>>,
    pub commands: Vec<Command>,
}

/// Why a movie was refused.
#[derive(Debug)]
#[allow(inconsistent_fields)]
pub enum Error {
    /// No input lines were found.
    NoInput,
    /// A line of the header has no space between key and value.
    MalformedHeaderLine { line_no: i32 },
    /// A key occurs for the second time.
    DuplicateKey { key: Vec<u8>, line_no: i32 },
    /// A key that every movie has is not in the header.
    RequiredKeyNotFound { key: &'static str },
    /// The value of a key is no number of 32 bits.
    NotAnInteger { key: &'static str, value: Vec<u8> },
    /// The value of a key is a number other than 0 and 1.
    NotABool { key: &'static str, value: i32 },
    /// The value of a key names no input device.
    BadInputDevice { key: &'static str },
    /// The value of a key names an expansion port device, of which none is
    /// known.
    BadPort2 { key: &'static str },
    /// The movie is stored in the binary format.
    NoBinaryPlease,
    /// An input line has the wrong number of sections, or does not begin and
    /// end with a bar.
    BadInputLine { line_no: i32 },
    /// The commands of an input line are no number, or a negative one.
    BadCommands { line_no: i32 },
    /// The input of a gamepad is not eight characters long.
    BadGamepadInput { line_no: i32, section: &'static str },
    /// The input of a zapper, which is not read.
    BadZapperInput { line_no: i32, section: &'static str },
    /// A port without a device has input.
    BadNoInputInput { line_no: i32, section: &'static str },
}

/// An error with its byte strings as mathematical sequences.
#[allow(inconsistent_fields)]
pub ghost enum Problem {
    NoInput,
    MalformedHeaderLine { line_no: int },
    DuplicateKey { key: Seq<u8>, line_no: int },
    RequiredKeyNotFound { key: &'static str },
    NotAnInteger { key: &'static str, value: Seq<u8> },
    NotABool { key: &'static str, value: int },
    BadInputDevice { key: &'static str },
    BadPort2 { key: &'static str },
    NoBinaryPlease,
    BadInputLine { line_no: int },
    BadCommands { line_no: int },
    BadGamepadInput { line_no: int, section: &'static str },
    BadZapperInput { line_no: int, section: &'static str },
    BadNoInputInput { line_no: int, section: &'static str },
}

impl View for Error {
    type V = Problem;

    open spec fn view(&self) -> Problem {
        match self {
            Error::NoInput => Problem::NoInput,
            Error::MalformedHeaderLine { line_no } => Problem::MalformedHeaderLine {
                line_no: *line_no as int,
            },
            Error::DuplicateKey { key, line_no } => Problem::DuplicateKey {
                key: key@,
                line_no: *line_no as int,
            },
            Error::RequiredKeyNotFound { key } => Problem::RequiredKeyNotFound { key: *key },
            Error::NotAnInteger { key, value } => Problem::NotAnInteger { key: *key, value: value@ },
            Error::NotABool { key, value } => Problem::NotABool { key: *key, value: *value as int },
            Error::BadInputDevice { key } => Problem::BadInputDevice { key: *key },
            Error::BadPort2 { key } => Problem::BadPort2 { key: *key },
            Error::NoBinaryPlease => Problem::NoBinaryPlease,
            Error::BadInputLine { line_no } => Problem::BadInputLine { line_no: *line_no as int },
            Error::BadCommands { line_no } => Problem::BadCommands { line_no: *line_no as int },
            Error::BadGamepadInput { line_no, section } => Problem::BadGamepadInput {
                line_no: *line_no as int,
                section: *section,
            },
            Error::BadZapperInput { line_no, section } => Problem::BadZapperInput {
                line_no: *line_no as int,
                section: *section,
            },
            Error::BadNoInputInput { line_no, section } => Problem::BadNoInputInput {
                line_no: *line_no as int,
                section: *section,
            },
        }
    }
}

impl Command {
    /// The commands that `bits` names; bits that stand for no command are
    /// dropped.
    pub fn from_bits_truncate(bits: u8) -> (c: Command)
        ensures
            c.bits == bits & COMMAND_ALL,
    {
        Command { bits: bits & COMMAND_ALL }
    }

    pub fn bits(&self) -> (bits: u8)
        ensures
            bits == self.bits,
    {
        self.bits
    }

    /// Whether every command of `mask` is asked for.
    pub fn contains(&self, mask: u8) -> (b: bool)
        ensures
            b == (self.bits & mask == mask),
    {
        self.bits & mask == mask
    }
}

} // verus!
