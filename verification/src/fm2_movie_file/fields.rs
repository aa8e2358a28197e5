//! The values of a header by their keys, read as what they stand for.

use vstd::prelude::*;
use vstd::string::StringSliceAdditionalSpecFns;
use super::header::{lookup, without, Header};
use super::text::{number, parse_number};
use super::{Error, InputDevice, Problem};

verus! {

/// The number that `pairs` gives to `key`, which must be there.
pub open spec fn int_field(pairs: Seq<(Seq<u8>, Seq<u8>)>, key: &'static str) -> Result<int, Problem> {
    match lookup(pairs, key.spec_bytes()) {
        None => Err(Problem::RequiredKeyNotFound { key }),
        Some(s) => match number(s) {
            Some(n) => Ok(n),
            None => Err(Problem::NotAnInteger { key, value: s }),
        },
    }
}

/// The number that `pairs` gives to `key`, if the key is there.
pub open spec fn optional_int_field(pairs: Seq<(Seq<u8>, Seq<u8>)>, key: &'static str) -> Result<
    Option<int>,
    Problem,
> {
    match lookup(pairs, key.spec_bytes()) {
        None => Ok(None),
        Some(s) => match number(s) {
            Some(n) => Ok(Some(n)),
            None => Err(Problem::NotAnInteger { key, value: s }),
        },
    }
}

/// The truth value that `pairs` gives to `key`: 1 for true, 0 or no value at
/// all for false.
pub open spec fn bool_field(pairs: Seq<(Seq<u8>, Seq<u8>)>, key: &'static str) -> Result<
    bool,
    Problem,
> {
    match optional_int_field(pairs, key) {
        Err(e) => Err(e),
        Ok(None) => Ok(false),
        Ok(Some(n)) => if n == 0 {
            Ok(false)
        } else if n == 1 {
            Ok(true)
        } else {
            Err(Problem::NotABool { key, value: n })
        },
    }
}

/// The input device that `pairs` gives to `key`, as its number: 0 for none,
/// 1 for a gamepad, 2 for a zapper.
pub open spec fn device_field(pairs: Seq<(Seq<u8>, Seq<u8>)>, key: &'static str) -> Result<
    int,
    Problem,
> {
    match int_field(pairs, key) {
        Err(e) => Err(e),
        Ok(n) => if 0 <= n <= 2 {
            Ok(n)
        } else {
            Err(Problem::BadInputDevice { key })
        },
    }
}

impl InputDevice {
    /// The number that stands for the kind of device in a header.
    pub open spec fn kind(&self) -> int {
        match self {
            InputDevice::NotConnected => 0,
            InputDevice::Gamepad(_) => 1,
            InputDevice::Zapper(_) => 2,
        }
    }

    /// The number of frames of input that the device holds.
    pub open spec fn frames(&self) -> int {
        match self {
            InputDevice::NotConnected => 0,
            InputDevice::Gamepad(v) => v@.len() as int,
            InputDevice::Zapper(v) => v@.len() as int,
        }
    }
}

/// Whether `value` is the byte string `model`, or both are absent.
pub open spec fn same_optional(value: Option<Vec<u8>>, model: Option<Seq<u8>>) -> bool {
    match value {
        Some(v) => model == Some(v@),
        None => model is None,
    }
}

/// Takes the value of `key` out of the header, if it is there.
pub fn optional(map: &mut Header, key: &'static str) -> (value: Option<Vec<u8>>)
    requires
        old(map).wf(),
    ensures
        final(map).wf(),
        final(map).model() == without(old(map).model(), key.spec_bytes()),
        same_optional(value, lookup(old(map).model(), key.spec_bytes())),
{
    map.remove(key.as_bytes())
}

/// Takes the value of `key` out of the header; the key must be there.
pub fn required(map: &mut Header, key: &'static str) -> (r: Result<Vec<u8>, Error>)
    requires
        old(map).wf(),
    ensures
        final(map).wf(),
        final(map).model() == without(old(map).model(), key.spec_bytes()),
        match r {
            Ok(v) => lookup(old(map).model(), key.spec_bytes()) == Some(v@),
            Err(e) => lookup(old(map).model(), key.spec_bytes()) is None && e@
                == (Problem::RequiredKeyNotFound { key }),
        },
{
    match optional(map, key) {
        Some(x) => Ok(x),
        None => Err(Error::RequiredKeyNotFound { key }),
    }
}

/// Takes the value of `key` out of the header, as a number; the key must be
/// there.
pub fn required_int(map: &mut Header, key: &'static str) -> (r: Result<i32, Error>)
    requires
        old(map).wf(),
    ensures
        final(map).wf(),
        final(map).model() == without(old(map).model(), key.spec_bytes()),
        match r {
            Ok(n) => int_field(old(map).model(), key) == Ok::<int, Problem>(n as int),
            Err(e) => int_field(old(map).model(), key) == Err::<int, Problem>(e@),
        },
{
    let v = required(map, key)?;
    match parse_number(v.as_slice()) {
        Some(n) => Ok(n),
        None => Err(Error::NotAnInteger { key, value: v }),
    }
}

/// Takes the value of `key` out of the header, as a number, if the key is
/// there.
pub fn optional_int(map: &mut Header, key: &'static str) -> (r: Result<Option<i32>, Error>)
    requires
        old(map).wf(),
    ensures
        final(map).wf(),
        final(map).model() == without(old(map).model(), key.spec_bytes()),
        match r {
            Ok(Some(n)) => optional_int_field(old(map).model(), key) == Ok::<Option<int>, Problem>(
                Some(n as int),
            ),
            Ok(None) => optional_int_field(old(map).model(), key) == Ok::<Option<int>, Problem>(
                None,
            ),
            Err(e) => optional_int_field(old(map).model(), key) == Err::<Option<int>, Problem>(e@),
        },
{
    match optional(map, key) {
        None => Ok(None),
        Some(v) => match parse_number(v.as_slice()) {
            Some(n) => Ok(Some(n)),
            None => Err(Error::NotAnInteger { key, value: v }),
        },
    }
}

/// Takes the value of `key` out of the header, as a truth value: 1 for
/// true, 0 or no value at all for false.
pub fn optional_bool_or_false(map: &mut Header, key: &'static str) -> (r: Result<bool, Error>)
    requires
        old(map).wf(),
    ensures
        final(map).wf(),
        final(map).model() == without(old(map).model(), key.spec_bytes()),
        match r {
            Ok(b) => bool_field(old(map).model(), key) == Ok::<bool, Problem>(b),
            Err(e) => bool_field(old(map).model(), key) == Err::<bool, Problem>(e@),
        },
{
    let v = optional_int(map, key)?;
    match v {
        None => Ok(false),
        Some(x) => {
            if x == 0 {
                Ok(false)
            } else if x == 1 {
                Ok(true)
            } else {
                Err(Error::NotABool { key, value: x })
            }
        },
    }
}

/// Takes the value of `key` out of the header, as an input device without
/// input yet: 0 for none, 1 for a gamepad, 2 for a zapper.
pub fn input_device(map: &mut Header, key: &'static str) -> (r: Result<InputDevice, Error>)
    requires
        old(map).wf(),
    ensures
        final(map).wf(),
        final(map).model() == without(old(map).model(), key.spec_bytes()),
        match r {
            Ok(d) => device_field(old(map).model(), key) == Ok::<int, Problem>(d.kind())
                && d.frames() == 0,
            Err(e) => device_field(old(map).model(), key) == Err::<int, Problem>(e@),
        },
{
    let v = required_int(map, key)?;
    if v == 0 {
        Ok(InputDevice::NotConnected)
    } else if v == 1 {
        Ok(InputDevice::Gamepad(Vec::new()))
    } else if v == 2 {
        Ok(InputDevice::Zapper(Vec::new()))
    } else {
        Err(Error::BadInputDevice { key })
    }
}

} // verus!
