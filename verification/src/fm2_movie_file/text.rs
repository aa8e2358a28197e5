//! Lines, fields and numbers in the bytes of a movie file.

use vstd::prelude::*;

verus! {

/// The bytes that delimit lines and fields.
pub const NEWLINE: u8 = 0x0A;

pub const CARRIAGE_RETURN: u8 = 0x0D;

pub const SPACE: u8 = 0x20;

pub const PIPE: u8 = 0x7C;

/// The place of the first `byte` in `s` at or after `from`, or the length of
/// `s` where there is none.
pub open spec fn find(s: Seq<u8>, byte: u8, from: int) -> int
    decreases s.len() - from,
{
    if from >= s.len() {
        s.len() as int
    } else if s[from] == byte {
        from
    } else {
        find(s, byte, from + 1)
    }
}

/// The line that starts at `from`: the bytes up to the next line feed, and
/// without the carriage return before a line feed.
pub open spec fn line_at(data: Seq<u8>, from: int) -> Seq<u8> {
    let end = find(data, NEWLINE, from);
    if end < data.len() && from < end && data[end - 1] == CARRIAGE_RETURN {
        data.subrange(from, end - 1)
    } else {
        data.subrange(from, end)
    }
}

/// The lines of `data` from `from` on. A line ends at a line feed or at the
/// end of the data; after a last line feed no line follows.
pub open spec fn lines_from(data: Seq<u8>, from: int) -> Seq<Seq<u8>>
    decreases data.len() - from,
{
    let end = find(data, NEWLINE, from);
    if from < 0 || from >= data.len() || end < from {
        Seq::empty()
    } else if end >= data.len() {
        seq![line_at(data, from)]
    } else {
        seq![line_at(data, from)] + lines_from(data, end + 1)
    }
}

/// The fields of `s` from `from` on, where `sep` stands between two fields:
/// one more than there are separators.
pub open spec fn fields_from(s: Seq<u8>, sep: u8, from: int) -> Seq<Seq<u8>>
    decreases s.len() - from,
{
    let end = find(s, sep, from);
    if from < 0 || end >= s.len() || end < from {
        seq![s.subrange(from, s.len() as int)]
    } else {
        seq![s.subrange(from, end)] + fields_from(s, sep, end + 1)
    }
}

/// Whether `b` is a decimal digit.
pub open spec fn is_digit(b: u8) -> bool {
    0x30 <= b <= 0x39
}

/// The number that the decimal digits `digits` write, or `None` where a
/// byte of them is no digit.
pub open spec fn decimal(digits: Seq<u8>) -> Option<int>
    decreases digits.len(),
{
    if digits.len() == 0 {
        Some(0)
    } else if !is_digit(digits.last()) {
        None
    } else {
        match decimal(digits.drop_last()) {
            Some(n) => Some(n * 10 + (digits.last() - 0x30)),
            None => None,
        }
    }
}

/// The number that `s` writes: an optional sign and then at least one
/// decimal digit, and nothing else. `None` where `s` is not of that form, or
/// writes a number that does not fit in 32 bits.
pub open spec fn number(s: Seq<u8>) -> Option<int> {
    let negative = s.len() > 0 && s[0] == 0x2D;
    let signed = s.len() > 0 && (s[0] == 0x2D || s[0] == 0x2B);
    let digits = if signed {
        s.subrange(1, s.len() as int)
    } else {
        s
    };
    if digits.len() == 0 {
        None
    } else {
        match decimal(digits) {
            Some(n) => {
                let value = if negative {
                    -n
                } else {
                    n
                };
                if -0x8000_0000 <= value <= 0x7FFF_FFFF {
                    Some(value)
                } else {
                    None
                }
            },
            None => None,
        }
    }
}

pub fn find_byte(s: &[u8], byte: u8, from: usize) -> (at: usize)
    requires
        from <= s.len(),
    ensures
        at == find(s@, byte, from as int),
        from <= at <= s.len(),
        at < s.len() ==> s[at as int] == byte,
{
    let mut i = from;
    while i < s.len() && s[i] != byte
        invariant
            from <= i <= s.len(),
            find(s@, byte, from as int) == find(s@, byte, i as int),
        decreases s.len() - i,
    {
        i = i + 1;
    }
    i
}

/// A copy of the bytes of `s` from `from` up to `to`.
pub fn copy(s: &[u8], from: usize, to: usize) -> (out: Vec<u8>)
    requires
        from <= to <= s.len(),
    ensures
        out@ == s@.subrange(from as int, to as int),
{
    let mut out: Vec<u8> = Vec::new();
    let mut i = from;
    while i < to
        invariant
            from <= i <= to <= s.len(),
            out@ == s@.subrange(from as int, i as int),
        decreases to - i,
    {
        out.push(s[i]);
        i = i + 1;
        proof {
            assert(out@ =~= s@.subrange(from as int, i as int));
        }
    }
    out
}

/// Whether two byte strings are the same.
pub fn same_bytes(a: &[u8], b: &[u8]) -> (same: bool)
    ensures
        same == (a@ == b@),
{
    if a.len() != b.len() {
        return false;
    }
    let mut i: usize = 0;
    while i < a.len()
        invariant
            i <= a.len(),
            a.len() == b.len(),
            a@.subrange(0, i as int) == b@.subrange(0, i as int),
        decreases a.len() - i,
    {
        if a[i] != b[i] {
            return false;
        }
        i = i + 1;
        proof {
            assert(a@.subrange(0, i as int) =~= a@.subrange(0, i - 1).push(a@[i - 1]));
            assert(b@.subrange(0, i as int) =~= b@.subrange(0, i - 1).push(b@[i - 1]));
        }
    }
    proof {
        assert(a@ =~= a@.subrange(0, a.len() as int));
        assert(b@ =~= b@.subrange(0, b.len() as int));
    }
    true
}

/// The lines of `data`.
pub fn split_lines(data: &[u8]) -> (lines: Vec<Vec<u8>>)
    ensures
        lines@.len() == lines_from(data@, 0).len(),
        forall|i: int| 0 <= i < lines@.len() ==> (#[trigger] lines@[i])@ == lines_from(data@, 0)[i],
{
    let mut lines: Vec<Vec<u8>> = Vec::new();
    let mut from: usize = 0;
    while from < data.len()
        invariant
            from <= data.len(),
            lines_from(data@, 0).len() == lines@.len() + lines_from(data@, from as int).len(),
            forall|i: int|
                0 <= i < lines@.len() ==> (#[trigger] lines@[i])@ == lines_from(data@, 0)[i],
            forall|i: int|
                0 <= i < lines_from(data@, from as int).len() ==> lines_from(data@, 0)[lines@.len()
                    + i] == #[trigger] lines_from(data@, from as int)[i],
        decreases data.len() - from,
    {
        let end = find_byte(data, NEWLINE, from);
        let line = if end < data.len() && from < end && data[end - 1] == CARRIAGE_RETURN {
            copy(data, from, end - 1)
        } else {
            copy(data, from, end)
        };
        proof {
            let rest = if end < data.len() {
                lines_from(data@, end + 1)
            } else {
                Seq::empty()
            };
            assert(lines_from(data@, end as int + 1).len() == 0 || end < data.len());
            assert(lines_from(data@, from as int) =~= seq![line_at(data@, from as int)] + rest);
            assert(lines_from(data@, 0)[lines@.len() as int] == lines_from(data@, from as int)[0]);
            assert forall|i: int| 0 <= i < rest.len() implies lines_from(data@, 0)[lines@.len() + 1
                + i] == #[trigger] rest[i] by {
                assert(lines_from(data@, from as int)[i + 1] == rest[i]);
            }
        }
        lines.push(line);
        from = if end < data.len() {
            end + 1
        } else {
            end
        };
    }
    lines
}

/// The fields of `s` that `sep` separates.
pub fn split_fields(s: &[u8], sep: u8) -> (fields: Vec<Vec<u8>>)
    ensures
        fields@.len() == fields_from(s@, sep, 0).len(),
        fields@.len() >= 1,
        forall|i: int|
            0 <= i < fields@.len() ==> (#[trigger] fields@[i])@ == fields_from(s@, sep, 0)[i],
{
    let mut fields: Vec<Vec<u8>> = Vec::new();
    let mut from: usize = 0;
    loop
        invariant_except_break
            fields_from(s@, sep, 0).len() == fields@.len() + fields_from(s@, sep, from as int).len(),
            forall|i: int|
                0 <= i < fields_from(s@, sep, from as int).len() ==> fields_from(
                    s@,
                    sep,
                    0,
                )[fields@.len() + i] == #[trigger] fields_from(s@, sep, from as int)[i],
        invariant
            from <= s.len(),
            forall|i: int|
                0 <= i < fields@.len() ==> (#[trigger] fields@[i])@ == fields_from(s@, sep, 0)[i],
        ensures
            fields@.len() == fields_from(s@, sep, 0).len(),
            fields@.len() >= 1,
        decreases s.len() - from,
    {
        let end = find_byte(s, sep, from);
        let field = copy(s, from, end);
        proof {
            assert(fields_from(s@, sep, 0)[fields@.len() as int] == fields_from(s@, sep, from as int)[0]);
            if end < s.len() {
                let rest = fields_from(s@, sep, end + 1);
                assert(fields_from(s@, sep, from as int) =~= seq![s@.subrange(from as int, end as int)]
                    + rest);
                assert forall|i: int| 0 <= i < rest.len() implies fields_from(s@, sep, 0)[fields@.len()
                    + 1 + i] == #[trigger] rest[i] by {
                    assert(fields_from(s@, sep, from as int)[i + 1] == rest[i]);
                }
            } else {
                assert(fields_from(s@, sep, from as int).len() == 1);
            }
        }
        fields.push(field);
        if end >= s.len() {
            break ;
        }
        from = end + 1;
    }
    fields
}

/// The number that `s` writes, if it writes one.
pub fn parse_number(s: &[u8]) -> (value: Option<i32>)
    ensures
        match value {
            Some(v) => number(s@) == Some(v as int),
            None => number(s@) is None,
        },
{
    let negative = s.len() > 0 && s[0] == 0x2D;
    let start: usize = if s.len() > 0 && (s[0] == 0x2D || s[0] == 0x2B) {
        1
    } else {
        0
    };
    let ghost digits = s@.subrange(start as int, s.len() as int);
    proof {
        if start == 0 {
            assert(digits =~= s@);
        }
    }
    if start == s.len() {
        return None;
    }
    // The magnitude, which for a negative number may be one more than the
    // largest positive number
    let mut magnitude: u64 = 0;
    let mut i = start;
    while i < s.len()
        invariant
            start <= i <= s.len(),
            digits == s@.subrange(start as int, s.len() as int),
            digits.len() == s.len() - start,
            start == 0 ==> digits == s@,
            start == if s@.len() > 0 && (s@[0] == 0x2D || s@[0] == 0x2B) {
                1usize
            } else {
                0usize
            },
            decimal(digits.subrange(0, i - start)) == Some(magnitude as int),
            magnitude <= 0x8000_0000,
        decreases s.len() - i,
    {
        let b = s[i];
        proof {
            let upto = digits.subrange(0, i - start + 1);
            assert(upto.drop_last() =~= digits.subrange(0, i - start));
            assert(upto.last() == b);
            if !is_digit(b) || magnitude * 10 + (b - 0x30) > 0x8000_0000 {
                lemma_decimal_grows(digits, i - start + 1);
            }
        }
        if b < 0x30 || b > 0x39 {
            proof {
                assert(digits.subrange(0, digits.len() as int) =~= digits);
            }
            return None;
        }
        magnitude = magnitude * 10 + (b - 0x30) as u64;
        if magnitude > 0x8000_0000 {
            proof {
                assert(digits.subrange(0, digits.len() as int) =~= digits);
            }
            return None;
        }
        i = i + 1;
    }
    proof {
        assert(digits.subrange(0, digits.len() as int) =~= digits);
    }
    if negative {
        if magnitude == 0x8000_0000 {
            Some(i32::MIN)
        } else {
            Some(-(magnitude as i32))
        }
    } else if magnitude > 0x7FFF_FFFF {
        None
    } else {
        Some(magnitude as i32)
    }
}

/// Digits that follow a number can only make it larger, and a byte that is
/// no digit spoils the number whatever follows: if the first `n` bytes write
/// no number, or one above a bound, so do all of them.
pub proof fn lemma_decimal_grows(digits: Seq<u8>, n: int)
    requires
        0 <= n <= digits.len(),
    ensures
        decimal(digits.subrange(0, n)) is None ==> decimal(digits) is None,
        decimal(digits) matches Some(all) ==> (decimal(digits.subrange(0, n)) matches Some(part)
            && 0 <= part <= all),
    decreases digits.len() - n,
{
    if n == digits.len() {
        assert(digits.subrange(0, n) =~= digits);
        lemma_decimal_not_negative(digits);
    } else {
        lemma_decimal_grows(digits, n + 1);
        let longer = digits.subrange(0, n + 1);
        assert(longer.drop_last() =~= digits.subrange(0, n));
        lemma_decimal_not_negative(digits.subrange(0, n));
    }
}

/// A number written in digits is not negative.
pub proof fn lemma_decimal_not_negative(digits: Seq<u8>)
    ensures
        decimal(digits) matches Some(n) ==> n >= 0,
    decreases digits.len(),
{
    if digits.len() > 0 {
        lemma_decimal_not_negative(digits.drop_last());
    }
}

} // verus!
