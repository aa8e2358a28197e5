//! Playing a movie back: which movies can be played, and what each frame
//! asks of the console.

use vstd::prelude::*;
use super::{
    Command, ControllerConfiguration, FM2File, GamepadInput, InputDevice, COMMAND_SOFT_RESET,
};
use crate::nes::io::StandardControllerButtons;

verus! {

/// Why a movie cannot be played.
#[derive(Debug, Clone, Copy, PartialEq, Eq, Structural)]
pub enum Unsupported {
    /// The movie was made for PAL timing or for the disk system.
    PalOrFds,
    /// The movie uses a fourscore.
    Fourscore,
    /// The movie has no controller in its first port.
    NoController,
    /// The movie has a zapper in its first port.
    Zapper,
}

/// What a frame of a movie asks of the console.
#[derive(Debug, Clone, Copy, PartialEq, Eq, Structural)]
pub struct FrameInput {
    /// Whether the console is reset before the frame.
    pub reset: bool,
    /// The buttons that are held during the frame.
    pub buttons: GamepadInput,
}

/// A movie that is being played: the frames that are left, the next one
/// last.
#[derive(Debug)]
pub struct MoviePlayer {
    pub commands: Vec<Command>,
    pub buttons: Vec<GamepadInput>,
}

/// A copy of `v` in the opposite order.
pub fn reversed<T: Copy>(v: &Vec<T>) -> (out: Vec<T>)
    ensures
        out@ == v@.reverse(),
{
    let mut out: Vec<T> = Vec::new();
    let mut i = v.len();
    while i > 0
        invariant
            i <= v@.len(),
            out@.len() == v@.len() - i,
            forall|k: int| 0 <= k < out@.len() ==> out@[k] == v@[v@.len() - 1 - k],
        decreases i,
    {
        i = i - 1;
        out.push(v[i]);
    }
    proof {
        assert(out@ =~= v@.reverse());
    }
    out
}

/// Why `movie` cannot be played, if it cannot: it must be made for NTSC
/// timing and for a cartridge, and hold the input of a gamepad in its first
/// port.
pub open spec fn unsupported(movie: &FM2File) -> Option<Unsupported> {
    if movie.pal_flag || movie.fds {
        Some(Unsupported::PalOrFds)
    } else {
        match movie.controllers {
            ControllerConfiguration::Fourscore(_) => Some(Unsupported::Fourscore),
            ControllerConfiguration::Ports { port0, .. } => match port0 {
                InputDevice::NotConnected => Some(Unsupported::NoController),
                InputDevice::Gamepad(_) => None,
                InputDevice::Zapper(_) => Some(Unsupported::Zapper),
            },
        }
    }
}

/// The buttons of the first port, frame by frame, for a movie that can be
/// played.
pub open spec fn first_port(movie: &FM2File) -> Seq<GamepadInput> {
    match movie.controllers {
        ControllerConfiguration::Ports { port0: InputDevice::Gamepad(b), .. } => b@,
        _ => Seq::empty(),
    }
}

impl MoviePlayer {
    /// Gets a movie ready to be played from its first frame.
    pub fn new(movie: FM2File) -> (r: Result<MoviePlayer, Unsupported>)
        ensures
            match r {
                Ok(player) => {
                    &&& unsupported(&movie) is None
                    &&& player.commands@ == movie.commands@.reverse()
                    &&& player.buttons@ == first_port(&movie).reverse()
                },
                Err(e) => unsupported(&movie) == Some(e),
            },
    {
        if movie.pal_flag || movie.fds {
            return Err(Unsupported::PalOrFds);
        }
        let buttons = match &movie.controllers {
            ControllerConfiguration::Fourscore(_) => {
                return Err(Unsupported::Fourscore);
            },
            ControllerConfiguration::Ports { port0, .. } => match port0 {
                InputDevice::NotConnected => {
                    return Err(Unsupported::NoController);
                },
                InputDevice::Gamepad(b) => reversed(b),
                InputDevice::Zapper(_) => {
                    return Err(Unsupported::Zapper);
                },
            },
        };
        let commands = reversed(&movie.commands);
        Ok(MoviePlayer { commands, buttons })
    }

    /// Takes the next frame off the movie. The console is reset where the
    /// frame's commands ask for a soft reset; after the last frame no button
    /// is held.
    pub fn next_frame(&mut self) -> (input: FrameInput)
        ensures
            final(self).commands@ == if old(self).commands@.len() > 0 {
                old(self).commands@.drop_last()
            } else {
                old(self).commands@
            },
            final(self).buttons@ == if old(self).buttons@.len() > 0 {
                old(self).buttons@.drop_last()
            } else {
                old(self).buttons@
            },
            input.reset == (old(self).commands@.len() > 0 && old(self).commands@.last().bits
                & COMMAND_SOFT_RESET == COMMAND_SOFT_RESET),
            input.buttons.bits == if old(self).buttons@.len() > 0 {
                old(self).buttons@.last().bits
            } else {
                0
            },
    {
        let reset = match self.commands.pop() {
            Some(c) => c.contains(COMMAND_SOFT_RESET),
            None => false,
        };
        let buttons = match self.buttons.pop() {
            Some(b) => b,
            None => StandardControllerButtons::empty(),
        };
        FrameInput { reset, buttons }
    }
}

} // verus!
