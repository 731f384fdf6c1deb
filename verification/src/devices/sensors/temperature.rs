//! A one-wire temperature probe, as the kernel exposes it in a file.
use crate::traits::sensor::SensorError;
use vstd::prelude::*;
use vstd::string::*;

verus! {

/// The path of the file in which the kernel exposes the probe with the
/// identifier `device_id`.
pub open spec fn device_file(device_id: Seq<char>) -> Seq<char> {
    "/sys/bus/w1/devices/"@ + device_id + "/w1_slave"@
}

/// Whether the two characters `t=` stand at position `k` of `data`. The
/// kernel writes the temperature, in thousandths of a degree Celsius, right
/// after them.
pub open spec fn marker_at(data: Seq<char>, k: int) -> bool {
    0 <= k && k + 1 < data.len() && data[k] == 't' && data[k + 1] == '='
}

/// Whether `k` is the first position of `data` at which `t=` stands.
pub open spec fn first_marker_at(data: Seq<char>, k: int) -> bool {
    marker_at(data, k) && forall|j: int| 0 <= j < k ==> !marker_at(data, j)
}

/// Whether `c` is white space: a character with the Unicode property
/// `White_Space`.
pub open spec fn is_space(c: char) -> bool {
    let code: u32 = c as u32;
    ||| 0x09 <= code <= 0x0D
    ||| code == 0x20
    ||| code == 0x85
    ||| code == 0xA0
    ||| code == 0x1680
    ||| 0x2000 <= code <= 0x200A
    ||| code == 0x2028
    ||| code == 0x2029
    ||| code == 0x202F
    ||| code == 0x205F
    ||| code == 0x3000
}

/// `text` without the white space it begins with.
pub open spec fn trim_start(text: Seq<char>) -> Seq<char>
    decreases text.len(),
{
    if text.len() > 0 && is_space(text[0]) {
        trim_start(text.drop_first())
    } else {
        text
    }
}

/// `text` without the white space it ends with.
pub open spec fn trim_end(text: Seq<char>) -> Seq<char>
    decreases text.len(),
{
    if text.len() > 0 && is_space(text.last()) {
        trim_end(text.drop_last())
    } else {
        text
    }
}

/// `text` without the white space at both ends.
pub open spec fn trimmed(text: Seq<char>) -> Seq<char> {
    trim_end(trim_start(text))
}

/// The text of the error for raw output that holds no `t=`.
pub open spec fn no_marker_text() -> Seq<char> {
    "Formato inesperado en w1_slave"@
}

/// What precedes the system's message in the error for a file that could
/// not be read.
pub open spec fn file_error_prefix() -> Seq<char> {
    "Error leyendo archivo: "@
}

/// What precedes the parser's message in the error for a temperature that
/// is no number.
pub open spec fn parse_error_prefix() -> Seq<char> {
    "parse: "@
}

/// The characters of `text`, one by one.
fn chars_of(text: &str) -> (chars: Vec<char>)
    ensures
        chars@ == text@,
{
    let mut chars: Vec<char> = Vec::new();
    for c in it: text.chars()
        invariant
            it.seq() == text@,
            chars@ == it.seq().take(it.index() as int),
    {
        chars.push(c);
    }
    chars
}

/// Whether `c` is white space.
fn is_space_char(c: char) -> (space: bool)
    ensures
        space == is_space(c),
{
    let code: u32 = c as u32;
    (0x09 <= code && code <= 0x0D) || code == 0x20 || code == 0x85 || code == 0xA0 || code
        == 0x1680 || (0x2000 <= code && code <= 0x200A) || code == 0x2028 || code == 0x2029
        || code == 0x202F || code == 0x205F || code == 0x3000
}

/// The first position at which `t=` stands in `chars`, if there is one.
fn find_marker(chars: &Vec<char>) -> (found: Option<usize>)
    ensures
        match found {
            Some(k) => first_marker_at(chars@, k as int),
            None => forall|k: int| !marker_at(chars@, k),
        },
{
    let len: usize = chars.len();
    if len < 2 {
        return None;
    }
    let mut k: usize = 0;
    while k < len - 1
        invariant
            len == chars.len(),
            len >= 2,
            forall|j: int| 0 <= j < k ==> !marker_at(chars@, j),
        decreases len - k,
    {
        if chars[k] == 't' && chars[k + 1] == '=' {
            return Some(k);
        }
        k += 1;
    }
    None
}

/// The bounds of what is left of `chars` from position `start` on when the
/// white space at both ends is taken away.
fn trim_bounds(chars: &Vec<char>, start: usize) -> (bounds: (usize, usize))
    requires
        start <= chars.len(),
    ensures
        start <= bounds.0 <= bounds.1 <= chars.len(),
        chars@.subrange(bounds.0 as int, bounds.1 as int) == trimmed(
            chars@.skip(start as int),
        ),
{
    let mut from: usize = start;
    while from < chars.len() && is_space_char(chars[from])
        invariant
            start <= from <= chars.len(),
            trim_start(chars@.skip(start as int)) == trim_start(chars@.skip(from as int)),
        decreases chars.len() - from,
    {
        assert(chars@.skip(from as int).drop_first() =~= chars@.skip(from + 1));
        from += 1;
    }
    let mut to: usize = chars.len();
    assert(chars@.subrange(from as int, to as int) =~= chars@.skip(from as int));
    while from < to && is_space_char(chars[to - 1])
        invariant
            from <= to <= chars.len(),
            trim_end(chars@.skip(from as int)) == trim_end(
                chars@.subrange(from as int, to as int),
            ),
        decreases to - from,
    {
        assert(chars@.subrange(from as int, to as int).drop_last() =~= chars@.subrange(
            from as int,
            to - 1,
        ));
        to -= 1;
    }
    (from, to)
}

/// A temperature probe on the one-wire bus, known by the file that holds its
/// raw output.
#[derive(Debug, PartialEq, Eq)]
pub struct Temperature {
    device_path: String,
}

impl Temperature {
    /// The path of the file that holds the probe's raw output.
    pub closed spec fn spec_device_path(&self) -> Seq<char> {
        self.device_path@
    }

    /// The probe with the identifier `device_id`, such as
    /// `28-00000abcdef`. Every identifier is accepted.
    pub fn new(device_id: &str) -> (made: Result<Self, SensorError>)
        ensures
            made matches Ok(probe) && probe.spec_device_path() == device_file(device_id@),
    {
        let device_path = String::from_str("/sys/bus/w1/devices/").concat(device_id).concat(
            "/w1_slave",
        );
        Ok(Temperature { device_path })
    }

    /// The path of the file that holds the probe's raw output.
    pub fn device_path(&self) -> (path: &str)
        ensures
            path@ == self.spec_device_path(),
    {
        self.device_path.as_str()
    }

    /// The read error for a raw-output file that could not be read, where
    /// `detail` is the system's message.
    pub fn file_error(detail: &str) -> (error: SensorError)
        ensures
            error matches SensorError::ReadError(text) && text@ == file_error_prefix() + detail@,
    {
        SensorError::ReadError(String::from_str("Error leyendo archivo: ").concat(detail))
    }

    /// The read error for a temperature that is no number, where `detail`
    /// is the parser's message.
    pub fn parse_error(detail: &str) -> (error: SensorError)
        ensures
            error matches SensorError::ReadError(text) && text@ == parse_error_prefix() + detail@,
    {
        SensorError::ReadError(String::from_str("parse: ").concat(detail))
    }

    /// The temperature as the kernel wrote it into the raw output `data`:
    /// what follows the first `t=`, without the white space around it. Raw
    /// output that holds no `t=` is a read error.
    pub fn raw_reading(data: &str) -> (found: Result<String, SensorError>)
        ensures
            match found {
                Ok(text) => exists|k: int|
                    first_marker_at(data@, k) && text@ == trimmed(#[trigger] data@.skip(k + 2)),
                Err(SensorError::ReadError(text)) => text@ == no_marker_text() && forall|k: int|
                    !marker_at(data@, k),
            },
    {
        let chars = chars_of(data);
        match find_marker(&chars) {
            Some(k) => {
                let (from, to): (usize, usize) = trim_bounds(&chars, k + 2);
                Ok(String::from_str(data.substring_char(from, to)))
            },
            None => Err(SensorError::ReadError(String::from_str("Formato inesperado en w1_slave"))),
        }
    }
}

} // verus!
