//! Reading a movie: the header up to the first input line, what its keys
//! say, and the input lines.

use vstd::prelude::*;
use vstd::string::StringSliceAdditionalSpecFns;
use super::fields::{
    bool_field, device_field, input_device, int_field, optional, optional_bool_or_false,
    optional_int, optional_int_field, required, required_int, same_optional,
};
use super::header::{has_key, lookup, without, Header};
use super::input::{
    device_problem, gamepad_bits, parse_gamepad_input, parse_input_for_input_device,
};
use super::text::{
    copy, fields_from, find, find_byte, lines_from, number, parse_number, split_fields,
    split_lines, PIPE, SPACE,
};
use super::{Command, ControllerConfiguration, Error, FM2File, Problem};

verus! {

/// The lines of a file as mathematical sequences.
pub open spec fn lines_model(lines: Seq<Vec<u8>>) -> Seq<Seq<u8>> {
    Seq::new(lines.len(), |i: int| lines[i]@)
}

/// Whether a line is an input line: one that starts with a bar.
pub open spec fn is_input_line(line: Seq<u8>) -> bool {
    line.len() > 0 && line[0] == PIPE
}

/// The key of a header line: what stands before its first space.
pub open spec fn key_of(line: Seq<u8>) -> Seq<u8> {
    line.subrange(0, find(line, SPACE, 0))
}

/// The value of a header line: what stands after its first space.
pub open spec fn value_of(line: Seq<u8>) -> Seq<u8> {
    line.subrange(find(line, SPACE, 0) + 1, line.len() as int)
}

/// The keys and values of the first `n` lines.
pub open spec fn header_pairs(lines: Seq<Seq<u8>>, n: int) -> Seq<(Seq<u8>, Seq<u8>)> {
    Seq::new(n as nat, |i: int| (key_of(lines[i]), value_of(lines[i])))
}

/// The number of header lines from line `from` on up to the first input
/// line, or to the end of the file.
pub open spec fn header_lines_from(lines: Seq<Seq<u8>>, from: int) -> int
    decreases lines.len() - from,
{
    if from < 0 || from >= lines.len() || is_input_line(lines[from]) {
        0
    } else {
        1 + header_lines_from(lines, from + 1)
    }
}

/// The problem with the header from line `from` on, if there is one: the
/// first header line without a space or with a key that a line before it
/// has, and else that there is no input line after the header.
pub open spec fn header_problem_from(lines: Seq<Seq<u8>>, from: int) -> Option<Problem>
    decreases lines.len() - from,
{
    if from < 0 || from >= lines.len() {
        Some(Problem::NoInput)
    } else if is_input_line(lines[from]) {
        None
    } else if find(lines[from], SPACE, 0) >= lines[from].len() {
        Some(Problem::MalformedHeaderLine { line_no: from + 1 })
    } else if has_key(header_pairs(lines, from), key_of(lines[from])) {
        Some(Problem::DuplicateKey { key: key_of(lines[from]), line_no: from + 1 })
    } else {
        header_problem_from(lines, from + 1)
    }
}

/// What the keys of a header say.
pub ghost struct Fields {
    pub version: int,
    pub emu_version: int,
    pub rerecord_count: Option<int>,
    pub pal_flag: bool,
    pub new_ppu: bool,
    pub fds: bool,
    pub fourscore: bool,
    pub port0: int,
    pub port1: int,
    pub binary: bool,
    pub length: Option<int>,
    pub rom_filename: Seq<u8>,
    pub comment: Option<Seq<u8>>,
    pub subtitle: Option<Seq<u8>>,
    pub guid: Seq<u8>,
    pub rom_checksum: Seq<u8>,
    pub savestate: Option<Seq<u8>>,
}

/// The header after the keys up to `fourscore` have been taken out.
#[verifier::opaque]
pub open spec fn after_flags(pairs: Seq<(Seq<u8>, Seq<u8>)>) -> Seq<(Seq<u8>, Seq<u8>)> {
    let rest1 = without(pairs, "version".spec_bytes());
    let rest2 = without(rest1, "emuVersion".spec_bytes());
    let rest3 = without(rest2, "rerecordCount".spec_bytes());
    let rest4 = without(rest3, "palFlag".spec_bytes());
    let rest5 = without(rest4, "NewPPU".spec_bytes());
    let rest6 = without(rest5, "fds".spec_bytes());
    without(rest6, "fourscore".spec_bytes())
}

/// The error of a result, if it is one.
pub open spec fn problem_of<T>(r: Result<T, Problem>) -> Option<Problem> {
    match r {
        Ok(_) => None,
        Err(e) => Some(e),
    }
}

/// The first of two problems: `a`, or `b` where `a` is none.
pub open spec fn or_else(a: Option<Problem>, b: Option<Problem>) -> Option<Problem> {
    if a is Some {
        a
    } else {
        b
    }
}

/// The problem with the keys up to `fourscore`, if there is one.
#[verifier::opaque]
pub open spec fn flags_problem(pairs: Seq<(Seq<u8>, Seq<u8>)>) -> Option<Problem> {
    let rest1 = without(pairs, "version".spec_bytes());
    let rest2 = without(rest1, "emuVersion".spec_bytes());
    let rest3 = without(rest2, "rerecordCount".spec_bytes());
    let rest4 = without(rest3, "palFlag".spec_bytes());
    let rest5 = without(rest4, "NewPPU".spec_bytes());
    let rest6 = without(rest5, "fds".spec_bytes());
    or_else(
        problem_of(int_field(pairs, "version")),
        or_else(
            problem_of(int_field(rest1, "emuVersion")),
            or_else(
                problem_of(optional_int_field(rest2, "rerecordCount")),
                or_else(
                    problem_of(bool_field(rest3, "palFlag")),
                    or_else(
                        problem_of(bool_field(rest4, "NewPPU")),
                        or_else(
                            problem_of(bool_field(rest5, "fds")),
                            problem_of(bool_field(rest6, "fourscore")),
                        ),
                    ),
                ),
            ),
        ),
    )
}

/// The header after the keys of the ports have been taken out of what
/// `after_flags` left: `port0` and `port1` are read where no fourscore is
/// used, `port2`, `binary` and `length` always.
#[verifier::opaque]
pub open spec fn after_ports(q: Seq<(Seq<u8>, Seq<u8>)>, fourscore: bool) -> Seq<(Seq<u8>, Seq<u8>)> {
    let q2 = if fourscore {
        q
    } else {
        without(without(q, "port0".spec_bytes()), "port1".spec_bytes())
    };
    let q3 = without(q2, "port2".spec_bytes());
    let q4 = without(q3, "binary".spec_bytes());
    without(q4, "length".spec_bytes())
}

/// The problem with the keys of the ports, if there is one. The only
/// expansion port device is none, number 0.
#[verifier::opaque]
pub open spec fn ports_problem(q: Seq<(Seq<u8>, Seq<u8>)>, fourscore: bool) -> Option<Problem> {
    let q1 = without(q, "port0".spec_bytes());
    let q2 = if fourscore {
        q
    } else {
        without(q1, "port1".spec_bytes())
    };
    let q3 = without(q2, "port2".spec_bytes());
    let q4 = without(q3, "binary".spec_bytes());
    or_else(
        if fourscore {
            None
        } else {
            or_else(problem_of(device_field(q, "port0")), problem_of(device_field(q1, "port1")))
        },
        or_else(
            problem_of(int_field(q2, "port2")),
            or_else(
                if int_field(q2, "port2") != Ok::<int, Problem>(0) {
                    Some(Problem::BadPort2 { key: "port2" })
                } else {
                    None
                },
                or_else(
                    problem_of(bool_field(q3, "binary")),
                    problem_of(optional_int_field(q4, "length")),
                ),
            ),
        ),
    )
}

/// The problem with the keys that hold text, in what `after_ports` left, if
/// there is one: the name of the ROM, the identifier of the movie and the
/// checksum of the ROM must be there, and a movie in the binary format is
/// refused once they are.
#[verifier::opaque]
pub open spec fn texts_problem(r: Seq<(Seq<u8>, Seq<u8>)>, binary: bool) -> Option<Problem> {
    let r1 = without(r, "romFilename".spec_bytes());
    let r2 = without(r1, "comment".spec_bytes());
    let r3 = without(r2, "subtitle".spec_bytes());
    let r4 = without(r3, "guid".spec_bytes());
    if lookup(r, "romFilename".spec_bytes()) is None {
        Some(Problem::RequiredKeyNotFound { key: "romFilename" })
    } else if lookup(r3, "guid".spec_bytes()) is None {
        Some(Problem::RequiredKeyNotFound { key: "guid" })
    } else if lookup(r4, "romChecksum".spec_bytes()) is None {
        Some(Problem::RequiredKeyNotFound { key: "romChecksum" })
    } else if binary {
        Some(Problem::NoBinaryPlease)
    } else {
        None
    }
}

/// The problem with what the keys of a header say, if there is one.
#[verifier::opaque]
pub open spec fn fields_problem(pairs: Seq<(Seq<u8>, Seq<u8>)>) -> Option<Problem> {
    let q = after_flags(pairs);
    let fourscore = fields_of(pairs).fourscore;
    or_else(
        flags_problem(pairs),
        or_else(
            ports_problem(q, fourscore),
            texts_problem(after_ports(q, fourscore), fields_of(pairs).binary),
        ),
    )
}

/// What the keys of a header say, for a header without a problem.
#[verifier::opaque]
pub open spec fn fields_of(pairs: Seq<(Seq<u8>, Seq<u8>)>) -> Fields {
    let rest1 = without(pairs, "version".spec_bytes());
    let rest2 = without(rest1, "emuVersion".spec_bytes());
    let rest3 = without(rest2, "rerecordCount".spec_bytes());
    let rest4 = without(rest3, "palFlag".spec_bytes());
    let rest5 = without(rest4, "NewPPU".spec_bytes());
    let rest6 = without(rest5, "fds".spec_bytes());
    let q = without(rest6, "fourscore".spec_bytes());
    let fourscore = bool_field(rest6, "fourscore")->Ok_0;
    let q1 = without(q, "port0".spec_bytes());
    let q2 = if fourscore {
        q
    } else {
        without(q1, "port1".spec_bytes())
    };
    let q3 = without(q2, "port2".spec_bytes());
    let q4 = without(q3, "binary".spec_bytes());
    let r = without(q4, "length".spec_bytes());
    let r1 = without(r, "romFilename".spec_bytes());
    let r2 = without(r1, "comment".spec_bytes());
    let r3 = without(r2, "subtitle".spec_bytes());
    let r4 = without(r3, "guid".spec_bytes());
    let r5 = without(r4, "romChecksum".spec_bytes());
    Fields {
        version: int_field(pairs, "version")->Ok_0,
        emu_version: int_field(rest1, "emuVersion")->Ok_0,
        rerecord_count: optional_int_field(rest2, "rerecordCount")->Ok_0,
        pal_flag: bool_field(rest3, "palFlag")->Ok_0,
        new_ppu: bool_field(rest4, "NewPPU")->Ok_0,
        fds: bool_field(rest5, "fds")->Ok_0,
        fourscore,
        port0: device_field(q, "port0")->Ok_0,
        port1: device_field(q1, "port1")->Ok_0,
        binary: bool_field(q3, "binary")->Ok_0,
        length: optional_int_field(q4, "length")->Ok_0,
        rom_filename: lookup(r, "romFilename".spec_bytes())->0,
        comment: lookup(r1, "comment".spec_bytes()),
        subtitle: lookup(r2, "subtitle".spec_bytes()),
        guid: lookup(r3, "guid".spec_bytes())->0,
        rom_checksum: lookup(r4, "romChecksum".spec_bytes())->0,
        savestate: lookup(r5, "savestate".spec_bytes()),
    }
}

/// The commands that a section of an input line asks for: the section
/// writes a number that is not negative, of which the remainder by 255 is
/// taken for the bits.
pub open spec fn command_bits(section: Seq<u8>) -> Option<u8> {
    match number(section) {
        Some(v) => if v >= 0 {
            Some(((v % 255) as u8) & 0x1F)
        } else {
            None
        },
        None => None,
    }
}

/// The problem with an input line, if there is one. The line holds, between
/// bars, the commands, the input of each port, and a section for the
/// expansion port that must not be empty; with a fourscore the ports are
/// four gamepads, of which the fourth is read from the section of the third.
pub open spec fn input_line_problem(
    line: Seq<u8>,
    line_no: int,
    fourscore: bool,
    port0: int,
    port1: int,
) -> Option<Problem> {
    let parts = fields_from(line, PIPE, 0);
    let expected = if fourscore {
        8int
    } else {
        6
    };
    if parts.len() != expected {
        Some(Problem::BadInputLine { line_no })
    } else if parts[0].len() != 0 || parts[expected - 1].len() != 0 || parts[expected - 2].len()
        == 0 {
        Some(Problem::BadInputLine { line_no })
    } else if command_bits(parts[1]) is None {
        Some(Problem::BadCommands { line_no })
    } else if fourscore {
        if parts[2].len() != 8 {
            Some(Problem::BadGamepadInput { line_no, section: "player1" })
        } else if parts[3].len() != 8 {
            Some(Problem::BadGamepadInput { line_no, section: "player2" })
        } else if parts[4].len() != 8 {
            Some(Problem::BadGamepadInput { line_no, section: "player3" })
        } else {
            None
        }
    } else if device_problem(port0, parts[2], line_no, "port0") is Some {
        device_problem(port0, parts[2], line_no, "port0")
    } else {
        device_problem(port1, parts[3], line_no, "port1")
    }
}

/// The number of input lines that are read: all from the first input line
/// on, or as many as the header's `length` says, if that is at least one and
/// there are as many.
pub open spec fn input_count(available: int, length: Option<int>) -> int {
    match length {
        Some(x) => if 1 <= x <= available {
            x
        } else {
            available
        },
        None => available,
    }
}

/// The problem with the input lines `from` to `to - 1`, if there is one:
/// that of the first line that has one.
pub open spec fn input_problem_from(
    lines: Seq<Seq<u8>>,
    from: int,
    to: int,
    fourscore: bool,
    port0: int,
    port1: int,
) -> Option<Problem>
    decreases to - from,
{
    if from >= to {
        None
    } else if input_line_problem(lines[from], from + 1, fourscore, port0, port1) is Some {
        input_line_problem(lines[from], from + 1, fourscore, port0, port1)
    } else {
        input_problem_from(lines, from + 1, to, fourscore, port0, port1)
    }
}

/// The problem with a movie, if there is one: with its header, with what
/// the keys of the header say, or with its input lines, in this order.
pub open spec fn movie_problem(lines: Seq<Seq<u8>>) -> Option<Problem> {
    let n = header_lines_from(lines, 0);
    let pairs = header_pairs(lines, n);
    let f = fields_of(pairs);
    if header_problem_from(lines, 0) is Some {
        header_problem_from(lines, 0)
    } else if fields_problem(pairs) is Some {
        fields_problem(pairs)
    } else {
        input_problem_from(
            lines,
            n,
            n + input_count(lines.len() - n, f.length),
            f.fourscore,
            if f.fourscore {
                0
            } else {
                f.port0
            },
            if f.fourscore {
                0
            } else {
                f.port1
            },
        )
    }
}

/// What the keys up to `fourscore` say.
pub struct HeaderFlags {
    pub version: i32,
    pub emu_version: i32,
    pub rerecord_count: Option<i32>,
    pub pal_flag: bool,
    pub new_ppu: bool,
    pub fds: bool,
    pub fourscore: bool,
}

/// What the keys of the ports say.
pub struct HeaderPorts {
    pub controllers: ControllerConfiguration,
    pub binary: bool,
    pub length: Option<i32>,
}

/// What the keys that hold text say.
pub struct HeaderTexts {
    pub rom_filename: Vec<u8>,
    pub comment: Option<Vec<u8>>,
    pub subtitle: Option<Vec<u8>>,
    pub guid: Vec<u8>,
    pub rom_checksum: Vec<u8>,
    pub savestate: Option<Vec<u8>>,
}

/// Whether `value` is the number `model`, or both are absent.
pub open spec fn same_number(value: Option<i32>, model: Option<int>) -> bool {
    match value {
        Some(v) => model == Some(v as int),
        None => model is None,
    }
}

impl ControllerConfiguration {
    /// Whether a fourscore is used.
    pub open spec fn fourscore(&self) -> bool {
        self is Fourscore
    }

    /// The kind of device in port 0, where no fourscore is used.
    pub open spec fn port0_kind(&self) -> int {
        match self {
            ControllerConfiguration::Ports { port0, .. } => port0.kind(),
            _ => 0,
        }
    }

    /// The kind of device in port 1, where no fourscore is used.
    pub open spec fn port1_kind(&self) -> int {
        match self {
            ControllerConfiguration::Ports { port1, .. } => port1.kind(),
            _ => 0,
        }
    }

    /// Whether no input is held yet.
    pub open spec fn without_input(&self) -> bool {
        match self {
            ControllerConfiguration::Fourscore(v) => v@.len() == 0,
            ControllerConfiguration::Ports { port0, port1 } => port0.frames() == 0 && port1.frames()
                == 0,
        }
    }

    /// Whether the input that is held is that of the `count` input lines
    /// from line `first` on.
    pub open spec fn holds_input(&self, lines: Seq<Seq<u8>>, first: int, count: int) -> bool {
        match self {
            ControllerConfiguration::Fourscore(v) => {
                &&& v@.len() == count
                &&& forall|k: int, player: int|
                    0 <= k < count && 0 <= player < 4 ==> (#[trigger] v@[k][player]).bits
                        == gamepad_bits(
                        fields_from(lines[first + k], PIPE, 0)[if player == 3 {
                            4
                        } else {
                            2 + player
                        }],
                        8,
                    )
            },
            ControllerConfiguration::Ports { port0, port1 } => {
                &&& port0.kind() == 1 ==> port0.gamepad_frames() == Seq::new(
                    count as nat,
                    |k: int| gamepad_bits(fields_from(lines[first + k], PIPE, 0)[2], 8),
                )
                &&& port1.kind() == 1 ==> port1.gamepad_frames() == Seq::new(
                    count as nat,
                    |k: int| gamepad_bits(fields_from(lines[first + k], PIPE, 0)[3], 8),
                )
                &&& port0.kind() != 1 ==> port0.frames() == 0
                &&& port1.kind() != 1 ==> port1.frames() == 0
            },
        }
    }
}

fn read_flags(map: &mut Header) -> (r: Result<HeaderFlags, Error>)
    requires
        old(map).wf(),
    ensures
        final(map).wf(),
        match r {
            Ok(f) => {
                let model = fields_of(old(map).model());
                &&& flags_problem(old(map).model()) is None
                &&& final(map).model() == after_flags(old(map).model())
                &&& f.version == model.version
                &&& f.emu_version == model.emu_version
                &&& same_number(f.rerecord_count, model.rerecord_count)
                &&& f.pal_flag == model.pal_flag
                &&& f.new_ppu == model.new_ppu
                &&& f.fds == model.fds
                &&& f.fourscore == model.fourscore
            },
            Err(e) => flags_problem(old(map).model()) == Some(e@),
        },
{
    reveal(after_flags);
    reveal(flags_problem);
    reveal(fields_of);
    let version = required_int(map, "version")?;
    let emu_version = required_int(map, "emuVersion")?;
    let rerecord_count = optional_int(map, "rerecordCount")?;
    let pal_flag = optional_bool_or_false(map, "palFlag")?;
    let new_ppu = optional_bool_or_false(map, "NewPPU")?;
    let fds = optional_bool_or_false(map, "fds")?;
    let fourscore = optional_bool_or_false(map, "fourscore")?;
    Ok(HeaderFlags { version, emu_version, rerecord_count, pal_flag, new_ppu, fds, fourscore })
}

fn read_ports(map: &mut Header, fourscore: bool) -> (r: Result<HeaderPorts, Error>)
    requires
        old(map).wf(),
    ensures
        final(map).wf(),
        match r {
            Ok(p) => {
                let q = old(map).model();
                let q1 = without(q, "port0".spec_bytes());
                let q2 = if fourscore {
                    q
                } else {
                    without(q1, "port1".spec_bytes())
                };
                let q3 = without(q2, "port2".spec_bytes());
                let q4 = without(q3, "binary".spec_bytes());
                &&& ports_problem(q, fourscore) is None
                &&& final(map).model() == after_ports(q, fourscore)
                &&& p.controllers.fourscore() == fourscore
                &&& p.controllers.without_input()
                &&& !fourscore ==> p.controllers.port0_kind() == device_field(q, "port0")->Ok_0
                    && p.controllers.port1_kind() == device_field(q1, "port1")->Ok_0
                &&& p.binary == bool_field(q3, "binary")->Ok_0
                &&& same_number(p.length, optional_int_field(q4, "length")->Ok_0)
            },
            Err(e) => ports_problem(old(map).model(), fourscore) == Some(e@),
        },
{
    reveal(after_ports);
    reveal(ports_problem);
    let controllers = if fourscore {
        ControllerConfiguration::Fourscore(Vec::new())
    } else {
        let port0 = input_device(map, "port0")?;
        let port1 = input_device(map, "port1")?;
        ControllerConfiguration::Ports { port0, port1 }
    };
    let port2 = required_int(map, "port2")?;
    if port2 != 0 {
        return Err(Error::BadPort2 { key: "port2" });
    }
    let binary = optional_bool_or_false(map, "binary")?;
    let length = optional_int(map, "length")?;
    Ok(HeaderPorts { controllers, binary, length })
}

fn read_texts(map: &mut Header, binary: bool) -> (r: Result<HeaderTexts, Error>)
    requires
        old(map).wf(),
    ensures
        final(map).wf(),
        match r {
            Ok(t) => {
                let r0 = old(map).model();
                let r1 = without(r0, "romFilename".spec_bytes());
                let r2 = without(r1, "comment".spec_bytes());
                let r3 = without(r2, "subtitle".spec_bytes());
                let r4 = without(r3, "guid".spec_bytes());
                let r5 = without(r4, "romChecksum".spec_bytes());
                &&& texts_problem(r0, binary) is None
                &&& lookup(r0, "romFilename".spec_bytes()) == Some(t.rom_filename@)
                &&& same_optional(t.comment, lookup(r1, "comment".spec_bytes()))
                &&& same_optional(t.subtitle, lookup(r2, "subtitle".spec_bytes()))
                &&& lookup(r3, "guid".spec_bytes()) == Some(t.guid@)
                &&& lookup(r4, "romChecksum".spec_bytes()) == Some(t.rom_checksum@)
                &&& same_optional(t.savestate, lookup(r5, "savestate".spec_bytes()))
            },
            Err(e) => texts_problem(old(map).model(), binary) == Some(e@),
        },
{
    reveal(texts_problem);
    let rom_filename = required(map, "romFilename")?;
    let comment = optional(map, "comment");
    let subtitle = optional(map, "subtitle");
    let guid = required(map, "guid")?;
    let rom_checksum = required(map, "romChecksum")?;
    let savestate = optional(map, "savestate");
    if binary {
        return Err(Error::NoBinaryPlease);
    }
    Ok(HeaderTexts { rom_filename, comment, subtitle, guid, rom_checksum, savestate })
}

/// Reads the header: the lines up to the first input line.
fn read_header(lines: &Vec<Vec<u8>>) -> (r: Result<(Header, usize), Error>)
    requires
        lines@.len() < 0x7FFF_FFFF,
    ensures
        match r {
            Ok((header, n)) => {
                &&& header_problem_from(lines_model(lines@), 0) is None
                &&& n == header_lines_from(lines_model(lines@), 0)
                &&& n < lines@.len()
                &&& header.wf()
                &&& header.model() == header_pairs(lines_model(lines@), n as int)
            },
            Err(e) => header_problem_from(lines_model(lines@), 0) == Some(e@),
        },
{
    let ghost model = lines_model(lines@);
    let mut header = Header::new();
    let mut i: usize = 0;
    while i < lines.len()
        invariant
            i <= lines@.len() < 0x7FFF_FFFF,
            model == lines_model(lines@),
            header.wf(),
            header.model() == header_pairs(model, i as int),
            header_problem_from(model, 0) == header_problem_from(model, i as int),
            header_lines_from(model, 0) == i + header_lines_from(model, i as int),
        decreases lines@.len() - i,
    {
        let line = lines[i].as_slice();
        proof {
            assert(model[i as int] == line@);
        }
        if line.len() > 0 && line[0] == PIPE {
            return Ok((header, i));
        }
        let space = find_byte(line, SPACE, 0);
        if space >= line.len() {
            return Err(Error::MalformedHeaderLine { line_no: (i + 1) as i32 });
        }
        let key = copy(line, 0, space);
        let value = copy(line, space + 1, line.len());
        if header.contains_key(key.as_slice()) {
            return Err(Error::DuplicateKey { key, line_no: (i + 1) as i32 });
        }
        header.insert(key, value);
        i = i + 1;
        proof {
            assert(header.model() =~= header_pairs(model, i as int));
        }
    }
    Err(Error::NoInput)
}

/// Reads one input line into `commands` and `controllers`.
fn read_input_line(
    line: &[u8],
    line_no: i32,
    commands: &mut Vec<Command>,
    controllers: &mut ControllerConfiguration,
) -> (r: Result<(), Error>)
    ensures
        final(controllers).fourscore() == old(controllers).fourscore(),
        final(controllers).port0_kind() == old(controllers).port0_kind(),
        final(controllers).port1_kind() == old(controllers).port1_kind(),
        match r {
            Ok(()) => {
                let parts = fields_from(line@, PIPE, 0);
                &&& input_line_problem(
                    line@,
                    line_no as int,
                    old(controllers).fourscore(),
                    old(controllers).port0_kind(),
                    old(controllers).port1_kind(),
                ) is None
                &&& final(commands)@.len() == old(commands)@.len() + 1
                &&& final(commands)@.drop_last() == old(commands)@
                &&& Some(final(commands)@.last().bits) == command_bits(parts[1])
                &&& final(controllers).extended(old(controllers), parts)
            },
            Err(e) => input_line_problem(
                line@,
                line_no as int,
                old(controllers).fourscore(),
                old(controllers).port0_kind(),
                old(controllers).port1_kind(),
            ) == Some(e@),
        },
{
    let parts = split_fields(line, PIPE);
    let expected_sections: usize = match controllers {
        ControllerConfiguration::Fourscore(_) => 8,
        ControllerConfiguration::Ports { .. } => 6,
    };
    if parts.len() != expected_sections {
        return Err(Error::BadInputLine { line_no });
    }
    // Ensure it goes like "|A|B|C|D|"

    if parts[0].len() != 0 || parts[parts.len() - 1].len() != 0 || parts[parts.len() - 2].len()
        == 0 {
        return Err(Error::BadInputLine { line_no });
    }
    let command = match parse_number(parts[1].as_slice()) {
        Some(v) => {
            if v >= 0 {
                Command::from_bits_truncate((v % 255) as u8)
            } else {
                return Err(Error::BadCommands { line_no });
            }
        },
        None => {
            return Err(Error::BadCommands { line_no });
        },
    };
    let ghost before = commands@;
    match controllers {
        ControllerConfiguration::Fourscore(values) => {
            let rest1 = parse_gamepad_input(parts[2].as_slice(), line_no, "player1")?;
            let rest2 = parse_gamepad_input(parts[3].as_slice(), line_no, "player2")?;
            let rest3 = parse_gamepad_input(parts[4].as_slice(), line_no, "player3")?;
            let rest4 = parse_gamepad_input(parts[4].as_slice(), line_no, "player4")?;
            let ghost held = values@;
            values.push([rest1, rest2, rest3, rest4]);
            proof {
                assert(values@.drop_last() =~= held);
            }
        },
        ControllerConfiguration::Ports { port0, port1 } => {
            parse_input_for_input_device(port0, parts[2].as_slice(), line_no, "port0")?;
            parse_input_for_input_device(port1, parts[3].as_slice(), line_no, "port1")?;
        },
    }
    commands.push(command);
    proof {
        assert(commands@.drop_last() =~= before);
    }
    Ok(())
}

impl ControllerConfiguration {
    /// Whether `self` is `before` with the input of one more line, of which
    /// `parts` are the sections.
    pub open spec fn extended(&self, before: &ControllerConfiguration, parts: Seq<Seq<u8>>) -> bool {
        match (self, before) {
            (ControllerConfiguration::Fourscore(v), ControllerConfiguration::Fourscore(b)) => {
                &&& v@.len() == b@.len() + 1
                &&& v@.drop_last() == b@
                &&& v@.last()[0].bits == gamepad_bits(parts[2], 8)
                &&& v@.last()[1].bits == gamepad_bits(parts[3], 8)
                &&& v@.last()[2].bits == gamepad_bits(parts[4], 8)
                &&& v@.last()[3].bits == gamepad_bits(parts[4], 8)
            },
            (
                ControllerConfiguration::Ports { port0, port1 },
                ControllerConfiguration::Ports { port0: b0, port1: b1 },
            ) => {
                &&& port0.kind() == b0.kind()
                &&& port1.kind() == b1.kind()
                &&& port0.gamepad_frames() == if b0.kind() == 1 {
                    b0.gamepad_frames().push(gamepad_bits(parts[2], 8))
                } else {
                    b0.gamepad_frames()
                }
                &&& port1.gamepad_frames() == if b1.kind() == 1 {
                    b1.gamepad_frames().push(gamepad_bits(parts[3], 8))
                } else {
                    b1.gamepad_frames()
                }
                &&& port0.kind() != 1 ==> port0.frames() == b0.frames()
                &&& port1.kind() != 1 ==> port1.frames() == b1.frames()
            },
            _ => false,
        }
    }
}

/// The input lines are at most as many as the bytes that hold them.
pub proof fn lemma_lines_bound(data: Seq<u8>, from: int)
    requires
        0 <= from,
    ensures
        lines_from(data, from).len() <= if from <= data.len() {
            data.len() - from
        } else {
            0
        },
    decreases data.len() - from,
{
    let end = find(data, super::text::NEWLINE, from);
    if from < data.len() && end >= from && end < data.len() {
        lemma_lines_bound(data, end + 1);
    }
}

/// Reads the input lines from line `first` on.
fn read_input(
    lines: &Vec<Vec<u8>>,
    first: usize,
    length: Option<i32>,
    controllers: ControllerConfiguration,
) -> (r: Result<(Vec<Command>, ControllerConfiguration), Error>)
    requires
        first < lines@.len() < 0x7FFF_FFFF,
        controllers.without_input(),
    ensures
        match r {
            Ok((commands, held)) => {
                let model = lines_model(lines@);
                let count = input_count(
                    lines@.len() - first,
                    match length {
                        Some(x) => Some(x as int),
                        None => None,
                    },
                );
                &&& input_problem_from(
                    model,
                    first as int,
                    first + count,
                    controllers.fourscore(),
                    controllers.port0_kind(),
                    controllers.port1_kind(),
                ) is None
                &&& held.fourscore() == controllers.fourscore()
                &&& held.port0_kind() == controllers.port0_kind()
                &&& held.port1_kind() == controllers.port1_kind()
                &&& held.holds_input(model, first as int, count)
                &&& commands@.len() == count
                &&& forall|k: int|
                    0 <= k < count ==> Some((#[trigger] commands@[k]).bits) == command_bits(
                        fields_from(model[first + k], PIPE, 0)[1],
                    )
            },
            Err(e) => {
                let model = lines_model(lines@);
                let count = input_count(
                    lines@.len() - first,
                    match length {
                        Some(x) => Some(x as int),
                        None => None,
                    },
                );
                input_problem_from(
                    model,
                    first as int,
                    first + count,
                    controllers.fourscore(),
                    controllers.port0_kind(),
                    controllers.port1_kind(),
                ) == Some(e@)
            },
        },
{
    let ghost model = lines_model(lines@);
    let ghost wanted: Option<int> = match length {
        Some(x) => Some(x as int),
        None => None,
    };
    let ghost count = input_count(lines@.len() - first, wanted);
    let ghost to = first + count;
    let ghost fourscore = controllers.fourscore();
    let ghost kind0 = controllers.port0_kind();
    let ghost kind1 = controllers.port1_kind();
    let mut held = controllers;
    let mut commands: Vec<Command> = Vec::new();
    let mut entries: i32 = 0;
    let mut i: usize = first;
    let ghost start = held;
    proof {
        match start {
            ControllerConfiguration::Fourscore(v) => {},
            ControllerConfiguration::Ports { port0, port1 } => {
                assert(port0.gamepad_frames() =~= Seq::new(
                    0,
                    |k: int| gamepad_bits(fields_from(model[first + k], PIPE, 0)[2], 8),
                ));
                assert(port1.gamepad_frames() =~= Seq::new(
                    0,
                    |k: int| gamepad_bits(fields_from(model[first + k], PIPE, 0)[3], 8),
                ));
            },
        }
    }
    loop
        invariant_except_break
            i < to,
        invariant
            first <= i <= to <= lines@.len() < 0x7FFF_FFFF,
            model == lines_model(lines@),
            wanted == match length {
                Some(x) => Some(x as int),
                None => None,
            },
            count == input_count(lines@.len() - first, wanted),
            to == first + count,
            entries == i - first,
            commands@.len() == entries,
            fourscore == controllers.fourscore(),
            kind0 == controllers.port0_kind(),
            kind1 == controllers.port1_kind(),
            held.fourscore() == fourscore,
            held.port0_kind() == kind0,
            held.port1_kind() == kind1,
            input_problem_from(model, first as int, to, fourscore, kind0, kind1)
                == input_problem_from(model, i as int, to, fourscore, kind0, kind1),
            held.holds_input(model, first as int, entries as int),
            forall|k: int|
                0 <= k < entries ==> Some((#[trigger] commands@[k]).bits) == command_bits(
                    fields_from(model[first + k], PIPE, 0)[1],
                ),
        ensures
            i == to,
        decreases lines@.len() - i,
    {
        let ghost before = held;
        let ghost commands_before = commands@;
        let line = lines[i].as_slice();
        proof {
            assert(model[i as int] == line@);
            assert(input_problem_from(model, i as int, to, fourscore, kind0, kind1) == if input_line_problem(
                model[i as int],
                i + 1,
                fourscore,
                kind0,
                kind1,
            ) is Some {
                input_line_problem(model[i as int], i + 1, fourscore, kind0, kind1)
            } else {
                input_problem_from(model, i + 1, to, fourscore, kind0, kind1)
            });
        }
        match read_input_line(line, (i + 1) as i32, &mut commands, &mut held) {
            Ok(()) => {},
            Err(e) => {
                proof {
                    assert(input_line_problem(model[i as int], i + 1, fourscore, kind0, kind1)
                        == Some(e@));
                    assert(input_problem_from(model, i as int, to, fourscore, kind0, kind1) == Some(
                        e@,
                    ));
                    assert(input_problem_from(model, first as int, to, fourscore, kind0, kind1)
                        == Some(e@));
                }
                return Err(e);
            },
        }
        let ghost after = held;
        proof {
            let parts = fields_from(line@, PIPE, 0);
            assert(held.extended(&before, parts));
            assert forall|k: int| 0 <= k < entries + 1 implies Some((#[trigger] commands@[k]).bits)
                == command_bits(fields_from(model[first + k], PIPE, 0)[1]) by {
                if k < entries {
                    assert(commands@[k] == commands_before[k]);
                }
            }
            match (after, before) {
                (ControllerConfiguration::Fourscore(v), ControllerConfiguration::Fourscore(b)) => {
                    assert forall|k: int, player: int|
                        0 <= k < entries + 1 && 0 <= player < 4 implies (
                    #[trigger] v@[k][player]).bits == gamepad_bits(
                        fields_from(model[first + k], PIPE, 0)[if player == 3 {
                            4
                        } else {
                            2 + player
                        }],
                        8,
                    ) by {
                        if k < entries {
                            assert(v@[k] == b@[k]);
                        }
                    }
                },
                (
                    ControllerConfiguration::Ports { port0, port1 },
                    ControllerConfiguration::Ports { port0: b0, port1: b1 },
                ) => {
                    if port0.kind() == 1 {
                        assert(port0.gamepad_frames() =~= Seq::new(
                            (entries + 1) as nat,
                            |k: int| gamepad_bits(fields_from(model[first + k], PIPE, 0)[2], 8),
                        ));
                    }
                    if port1.kind() == 1 {
                        assert(port1.gamepad_frames() =~= Seq::new(
                            (entries + 1) as nat,
                            |k: int| gamepad_bits(fields_from(model[first + k], PIPE, 0)[3], 8),
                        ));
                    }
                },
                _ => {},
            }
        }
        i = i + 1;
        entries = entries + 1;
        if let Some(x) = length {
            if x == entries {
                break ;
            }
        }
        if i >= lines.len() {
            break ;
        }
    }
    Ok((commands, held))
}

impl FM2File {
    /// Whether this is the movie that `lines` hold, for lines without a
    /// problem: the header says what `fields_of` reads from it, and the
    /// commands and the input are those of the input lines that are read.
    pub open spec fn describes(&self, lines: Seq<Seq<u8>>) -> bool {
        let n = header_lines_from(lines, 0);
        let f = fields_of(header_pairs(lines, n));
        let count = input_count(lines.len() - n, f.length);
        &&& self.version == f.version
        &&& self.emu_version == f.emu_version
        &&& same_number(self.rerecord_count, f.rerecord_count)
        &&& self.pal_flag == f.pal_flag
        &&& self.new_ppu == f.new_ppu
        &&& self.fds == f.fds
        &&& self.controllers.fourscore() == f.fourscore
        &&& !f.fourscore ==> self.controllers.port0_kind() == f.port0
            && self.controllers.port1_kind() == f.port1
        &&& !self.binary
        &&& same_number(self.length, f.length)
        &&& self.rom_filename@ == f.rom_filename
        &&& same_optional(self.comment, f.comment)
        &&& same_optional(self.subtitle, f.subtitle)
        &&& self.guid@ == f.guid
        &&& self.rom_checksum@ == f.rom_checksum
        &&& same_optional(self.savestate, f.savestate)
        &&& self.controllers.holds_input(lines, n, count)
        &&& self.commands@.len() == count
        &&& forall|k: int|
            0 <= k < count ==> Some((#[trigger] self.commands@[k]).bits) == command_bits(
                fields_from(lines[n + k], PIPE, 0)[1],
            )
    }

    /// Reads a movie from the bytes of its file.
    pub fn parse(data: &[u8]) -> (r: Result<FM2File, Error>)
        requires
            data@.len() < 0x7FFF_FFFF,
        ensures
            match r {
                Ok(movie) => movie_problem(lines_from(data@, 0)) is None && movie.describes(
                    lines_from(data@, 0),
                ),
                Err(e) => movie_problem(lines_from(data@, 0)) == Some(e@),
            },
    {
        let lines = split_lines(data);
        proof {
            lemma_lines_bound(data@, 0);
            assert(lines_model(lines@) =~= lines_from(data@, 0));
        }
        // Parse the header key/value
        let (header_map, first) = read_header(&lines)?;
        let (flags, ports, texts) = read_fields(header_map)?;
        let length = ports.length;
        let binary = ports.binary;
        let (commands, controllers) = read_input(&lines, first, length, ports.controllers)?;
        Ok(
            FM2File {
                version: flags.version,
                emu_version: flags.emu_version,
                rerecord_count: flags.rerecord_count,
                pal_flag: flags.pal_flag,
                new_ppu: flags.new_ppu,
                fds: flags.fds,
                controllers,
                port2: (),
                binary,
                length,
                rom_filename: texts.rom_filename,
                comment: texts.comment,
                subtitle: texts.subtitle,
                guid: texts.guid,
                rom_checksum: texts.rom_checksum,
                savestate: texts.savestate,
                commands,
            },
        )
    }
}

/// Reads what the keys of a header say.
#[verifier::rlimit(50)]
fn read_fields(header: Header) -> (r: Result<(HeaderFlags, HeaderPorts, HeaderTexts), Error>)
    requires
        header.wf(),
    ensures
        match r {
            Ok((flags, ports, texts)) => {
                let f = fields_of(header.model());
                &&& fields_problem(header.model()) is None
                &&& flags.version == f.version
                &&& flags.emu_version == f.emu_version
                &&& same_number(flags.rerecord_count, f.rerecord_count)
                &&& flags.pal_flag == f.pal_flag
                &&& flags.new_ppu == f.new_ppu
                &&& flags.fds == f.fds
                &&& ports.controllers.fourscore() == f.fourscore
                &&& ports.controllers.without_input()
                &&& !f.fourscore ==> ports.controllers.port0_kind() == f.port0
                    && ports.controllers.port1_kind() == f.port1
                &&& !ports.binary
                &&& same_number(ports.length, f.length)
                &&& texts.rom_filename@ == f.rom_filename
                &&& same_optional(texts.comment, f.comment)
                &&& same_optional(texts.subtitle, f.subtitle)
                &&& texts.guid@ == f.guid
                &&& texts.rom_checksum@ == f.rom_checksum
                &&& same_optional(texts.savestate, f.savestate)
            },
            Err(e) => fields_problem(header.model()) == Some(e@),
        },
{
    reveal(fields_problem);
    reveal(fields_of);
    reveal(after_flags);
    reveal(after_ports);
    reveal(flags_problem);
    reveal(ports_problem);
    reveal(texts_problem);
    let mut header_map = header;
    let flags = read_flags(&mut header_map)?;
    let ports = read_ports(&mut header_map, flags.fourscore)?;
    let texts = read_texts(&mut header_map, ports.binary)?;
    Ok((flags, ports, texts))
}

} // verus!
