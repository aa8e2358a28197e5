//! The conditions on which the machine stops.

use vstd::prelude::*;

verus! {

/// Why a cycle could not be carried out. None of these is recovered from: the
/// program that ran is broken, or the machine was driven where nothing is
/// mapped.
#[derive(Debug, Clone, Copy, PartialEq, Eq, Structural)]
pub enum Fault {
    /// The CPU fetched a byte that is no instruction.
    IllegalOpcode(u8),
    /// The CPU read from the test-mode registers at `$4018`-`$401F`.
    UnmappedRead(u16),
    /// The CPU wrote to the test-mode registers at `$4018`-`$401F`.
    UnmappedWrite(u16),
}

} // verus!
