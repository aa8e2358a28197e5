//! The processor status register.

use vstd::prelude::*;

verus! {

/// One bit of the status register.
#[derive(Debug, Clone, Copy, PartialEq, Eq, Structural)]
pub enum Flag {
    N,
    V,
    D,
    I,
    Z,
    C,
}

/// The six status flags that exist in the processor. Bits 4 and 5 of the
/// status byte have no storage: they only appear in the copy that is pushed to
/// the stack.
#[derive(Debug, Clone, Copy, PartialEq, Eq, Structural)]
pub struct Flags {
    pub n: bool,
    pub v: bool,
    pub d: bool,
    pub i: bool,
    pub z: bool,
    pub c: bool,
}

impl Flag {
    /// The position of the flag in the status byte.
    pub open spec fn mask(self) -> u8 {
        match self {
            Flag::N => 0x80,
            Flag::V => 0x40,
            Flag::D => 0x08,
            Flag::I => 0x04,
            Flag::Z => 0x02,
            Flag::C => 0x01,
        }
    }
}

impl Flags {
    /// The status byte in which every flag is clear.
    pub open spec fn none() -> Flags {
        Flags { n: false, v: false, d: false, i: false, z: false, c: false }
    }

    /// The status byte: N at bit 7, V at 6, D at 3, I at 2, Z at 1, C at 0.
    pub open spec fn to_bits(self) -> u8 {
        ((if self.n { 0x80int } else { 0 }) + (if self.v { 0x40int } else { 0 })
            + (if self.d { 0x08int } else { 0 }) + (if self.i { 0x04int } else { 0 })
            + (if self.z { 0x02int } else { 0 }) + (if self.c { 0x01int } else { 0 })) as u8
    }

    /// The flags held by a status byte; bits 4 and 5 are dropped.
    pub open spec fn of_bits(value: u8) -> Flags {
        Flags {
            n: value & 0x80 != 0,
            v: value & 0x40 != 0,
            d: value & 0x08 != 0,
            i: value & 0x04 != 0,
            z: value & 0x02 != 0,
            c: value & 0x01 != 0,
        }
    }

    /// Whether `flag` is set.
    pub open spec fn has(self, flag: Flag) -> bool {
        match flag {
            Flag::N => self.n,
            Flag::V => self.v,
            Flag::D => self.d,
            Flag::I => self.i,
            Flag::Z => self.z,
            Flag::C => self.c,
        }
    }

    /// These flags with `flag` replaced by `value`.
    pub open spec fn with(self, flag: Flag, value: bool) -> Flags {
        match flag {
            Flag::N => Flags { n: value, ..self },
            Flag::V => Flags { v: value, ..self },
            Flag::D => Flags { d: value, ..self },
            Flag::I => Flags { i: value, ..self },
            Flag::Z => Flags { z: value, ..self },
            Flag::C => Flags { c: value, ..self },
        }
    }

    /// These flags with Z and N taken from the byte `value`: Z when it is
    /// zero, N when it is negative as a signed byte.
    pub open spec fn with_zn(self, value: u8) -> Flags {
        Flags { z: value == 0, n: value >= 128, ..self }
    }

    /// No flag set.
    pub fn empty() -> (f: Flags)
        ensures
            f == Flags::none(),
    {
        Flags { n: false, v: false, d: false, i: false, z: false, c: false }
    }

    /// The flags at their places in the status byte.
    pub fn bits(&self) -> (value: u8)
        ensures
            value == self.to_bits(),
    {
        let mut value: u8 = 0;
        if self.n {
            value = value + 0x80;
        }
        if self.v {
            value = value + 0x40;
        }
        if self.d {
            value = value + 0x08;
        }
        if self.i {
            value = value + 0x04;
        }
        if self.z {
            value = value + 0x02;
        }
        if self.c {
            value = value + 0x01;
        }
        value
    }

    /// The flags of a status byte; bits 4 and 5 are dropped.
    pub fn from_bits_truncate(value: u8) -> (f: Flags)
        ensures
            f == Flags::of_bits(value),
    {
        Flags {
            n: value & 0x80 != 0,
            v: value & 0x40 != 0,
            d: value & 0x08 != 0,
            i: value & 0x04 != 0,
            z: value & 0x02 != 0,
            c: value & 0x01 != 0,
        }
    }

    /// Whether `flag` is set.
    pub fn contains(&self, flag: Flag) -> (b: bool)
        ensures
            b == self.has(flag),
    {
        match flag {
            Flag::N => self.n,
            Flag::V => self.v,
            Flag::D => self.d,
            Flag::I => self.i,
            Flag::Z => self.z,
            Flag::C => self.c,
        }
    }

    /// Replaces one flag.
    pub fn set(&mut self, flag: Flag, value: bool)
        ensures
            *final(self) == old(self).with(flag, value),
    {
        match flag {
            Flag::N => self.n = value,
            Flag::V => self.v = value,
            Flag::D => self.d = value,
            Flag::I => self.i = value,
            Flag::Z => self.z = value,
            Flag::C => self.c = value,
        }
    }

    /// Sets one flag.
    pub fn insert(&mut self, flag: Flag)
        ensures
            *final(self) == old(self).with(flag, true),
    {
        self.set(flag, true)
    }

    /// Clears one flag.
    pub fn remove(&mut self, flag: Flag)
        ensures
            *final(self) == old(self).with(flag, false),
    {
        self.set(flag, false)
    }
}

/// Reading the flags back from their own status byte gives the same flags.
pub proof fn lemma_flags_round_trip(f: Flags)
    ensures
        Flags::of_bits(f.to_bits()) == f,
{
    let (n, v, d, i, z, c) = (f.n, f.v, f.d, f.i, f.z, f.c);
    let b: u8 = f.to_bits();
    assert(b == (if n { 0x80u8 } else { 0 }) + (if v { 0x40u8 } else { 0 }) + (if d { 0x08u8 } else { 0 })
        + (if i { 0x04u8 } else { 0 }) + (if z { 0x02u8 } else { 0 }) + (if c { 0x01u8 } else { 0 }));
    assert((b & 0x80 != 0) == n && (b & 0x40 != 0) == v && (b & 0x08 != 0) == d && (b & 0x04 != 0) == i
        && (b & 0x02 != 0) == z && (b & 0x01 != 0) == c) by (bit_vector)
        requires
            b == (if n { 0x80u8 } else { 0 }) + (if v { 0x40u8 } else { 0 }) + (if d { 0x08u8 } else { 0 })
                + (if i { 0x04u8 } else { 0 }) + (if z { 0x02u8 } else { 0 }) + (if c { 0x01u8 } else { 0 }),
    ;
}

/// The status byte of the flags read from `value` is `value` without bits 4
/// and 5.
pub proof fn lemma_flags_of_bits(value: u8)
    ensures
        Flags::of_bits(value).to_bits() == value & 0xCF,
{
    let f = Flags::of_bits(value);
    let b: u8 = f.to_bits();
    let (n, v, d, i, z, c) = (f.n, f.v, f.d, f.i, f.z, f.c);
    assert(b == value & 0xCF) by (bit_vector)
        requires
            n == (value & 0x80 != 0),
            v == (value & 0x40 != 0),
            d == (value & 0x08 != 0),
            i == (value & 0x04 != 0),
            z == (value & 0x02 != 0),
            c == (value & 0x01 != 0),
            b == (if n { 0x80u8 } else { 0 }) + (if v { 0x40u8 } else { 0 }) + (if d { 0x08u8 } else { 0 })
                + (if i { 0x04u8 } else { 0 }) + (if z { 0x02u8 } else { 0 }) + (if c { 0x01u8 } else { 0 }),
    ;
}

} // verus!
