//! Log routing: severity translation and parsing of the code location the
//! native runtime attaches to each log event.
//!
//! The native logger hands every event to a callback as C strings; the
//! embedder reads them into plain bytes and this module makes the verified
//! decisions: which host level a native severity maps to, and how the
//! "file:line function" location string splits into its parts.

use vstd::prelude::*;

verus! {

/// The ASCII space that separates "file:line" from the function name.
pub const SPACE: u8 = 32;

/// The ASCII colon that separates the file from the line number.
pub const COLON: u8 = 58;

/// Minimum severity of the native runtime's own logging.
#[derive(Clone, Copy, Debug, PartialEq, Eq, Structural)]
pub enum LoggingLevel {
    /// Verbose log level.
    Verbose,
    /// Info log level.
    Info,
    /// Warning log level.
    Warning,
    /// Error log level.
    Error,
    /// Fatal log level.
    Fatal,
}

/// The severity value the native ABI uses for each logging level.
pub open spec fn spec_logging_level_to_raw(level: LoggingLevel) -> u32 {
    match level {
        LoggingLevel::Verbose => 0,
        LoggingLevel::Info => 1,
        LoggingLevel::Warning => 2,
        LoggingLevel::Error => 3,
        LoggingLevel::Fatal => 4,
    }
}

impl LoggingLevel {
    /// The severity value passed across the native ABI for this level.
    pub fn to_raw(self) -> (raw: u32)
        ensures
            raw == spec_logging_level_to_raw(self),
    {
        match self {
            LoggingLevel::Verbose => 0,
            LoggingLevel::Info => 1,
            LoggingLevel::Warning => 2,
            LoggingLevel::Error => 3,
            LoggingLevel::Fatal => 4,
        }
    }
}

/// The host-side level a forwarded native log event is emitted at.
#[derive(Clone, Copy, Debug, PartialEq, Eq, Structural)]
pub enum HostLogLevel {
    Trace,
    Debug,
    Info,
    Warn,
    Error,
}

/// How a native severity maps to a host level: verbose events become
/// traces, fatal events become errors, and an unknown severity is
/// forwarded at the informational level rather than dropped.
pub open spec fn spec_map_severity(severity: u32) -> HostLogLevel {
    if severity == 0 {
        HostLogLevel::Trace
    } else if severity == 1 {
        HostLogLevel::Debug
    } else if severity == 2 {
        HostLogLevel::Info
    } else if severity == 3 {
        HostLogLevel::Warn
    } else if severity == 4 {
        HostLogLevel::Error
    } else {
        HostLogLevel::Info
    }
}

/// Map a native severity to the host level it is forwarded at.
pub fn map_severity(severity: u32) -> (level: HostLogLevel)
    ensures
        level == spec_map_severity(severity),
{
    if severity == 0 {
        HostLogLevel::Trace
    } else if severity == 1 {
        HostLogLevel::Debug
    } else if severity == 2 {
        HostLogLevel::Info
    } else if severity == 3 {
        HostLogLevel::Warn
    } else if severity == 4 {
        HostLogLevel::Error
    } else {
        HostLogLevel::Info
    }
}

/// The first position of `c` in `s` at or after `i`, or `s.len()` when `c`
/// does not occur there.
pub open spec fn spec_first_index_from(s: Seq<u8>, c: u8, i: int) -> int
    decreases s.len() - i,
{
    if i < 0 || i >= s.len() {
        s.len() as int
    } else if s[i] == c {
        i
    } else {
        spec_first_index_from(s, c, i + 1)
    }
}

/// The first position of `c` in `s`, or `s.len()` when `c` does not occur.
pub open spec fn spec_first_index(s: Seq<u8>, c: u8) -> int {
    spec_first_index_from(s, c, 0)
}

/// Find the first occurrence of a byte, from a starting position.
fn find_byte_from(v: &Vec<u8>, c: u8, start: usize) -> (r: usize)
    requires
        start <= v@.len(),
    ensures
        r == spec_first_index_from(v@, c, start as int),
        start <= r <= v@.len(),
        r < v@.len() ==> v@[r as int] == c,
    decreases v@.len() - start,
{
    if start == v.len() {
        start
    } else if v[start] == c {
        start
    } else {
        find_byte_from(v, c, start + 1)
    }
}

/// Copy the bytes of `v` between `a` and `b`.
fn subvec(v: &Vec<u8>, a: usize, b: usize) -> (r: Vec<u8>)
    requires
        a <= b <= v@.len(),
    ensures
        r@ == v@.subrange(a as int, b as int),
{
    let mut r: Vec<u8> = Vec::new();
    let mut i: usize = a;
    while i < b
        invariant
            a <= i <= b <= v@.len(),
            r@.len() == i - a,
            forall|j: int| 0 <= j < i - a ==> r@[j] == v@[a + j],
        decreases b - i,
    {
        r.push(v[i]);
        i = i + 1;
    }
    proof {
        assert(r@ =~= v@.subrange(a as int, b as int));
    }
    r
}

/// The "file:line" part of a location string: everything before the first
/// space.
pub open spec fn spec_file_and_line(s: Seq<u8>) -> Seq<u8> {
    s.subrange(0, spec_first_index(s, SPACE))
}

/// The file part of a location string: the "file:line" part up to its
/// first colon.
pub open spec fn spec_location_file(s: Seq<u8>) -> Seq<u8> {
    spec_file_and_line(s).subrange(0, spec_first_index(spec_file_and_line(s), COLON))
}

/// The line-number part of a location string: between the first and second
/// colon of the "file:line" part, absent when it has no colon.
pub open spec fn spec_location_line(s: Seq<u8>) -> Option<Seq<u8>> {
    let p = spec_file_and_line(s);
    let co = spec_first_index(p, COLON);
    if co < p.len() {
        let rest = p.subrange(co + 1, p.len() as int);
        Option::Some(rest.subrange(0, spec_first_index(rest, COLON)))
    } else {
        Option::None
    }
}

/// The function part of a location string: the word after the first space,
/// absent when there is no space.
pub open spec fn spec_location_function(s: Seq<u8>) -> Option<Seq<u8>> {
    let sp = spec_first_index(s, SPACE);
    if sp < s.len() {
        let rest = s.subrange(sp + 1, s.len() as int);
        Option::Some(rest.subrange(0, spec_first_index(rest, SPACE)))
    } else {
        Option::None
    }
}

/// The parts of the code location the native runtime attaches to a log
/// event, parsed from its "file:line function" form.  A missing part is
/// `None`; presentation text for missing parts belongs to the host's
/// logging, not to this layer.
#[derive(Debug)]
pub struct CodeLocation {
    pub file: Vec<u8>,
    pub line_number: Option<Vec<u8>>,
    pub function: Option<Vec<u8>>,
}

impl CodeLocation {
    /// Split a location string into file, line number and function.
    pub fn parse(loc: &Vec<u8>) -> (r: CodeLocation)
        ensures
            r.file@ == spec_location_file(loc@),
            r.line_number is Some <==> spec_location_line(loc@) is Some,
            r.line_number matches Some(l) ==> spec_location_line(loc@) matches Some(sl) && l@
                == sl,
            r.function is Some <==> spec_location_function(loc@) is Some,
            r.function matches Some(f) ==> spec_location_function(loc@) matches Some(sf) && f@
                == sf,
    {
        let sp = find_byte_from(loc, SPACE, 0);
        let part1 = subvec(loc, 0, sp);
        let co = find_byte_from(&part1, COLON, 0);
        let file = subvec(&part1, 0, co);
        let line_number: Option<Vec<u8>> = if co < part1.len() {
            let rest = subvec(&part1, co + 1, part1.len());
            let co2 = find_byte_from(&rest, COLON, 0);
            Option::Some(subvec(&rest, 0, co2))
        } else {
            Option::None
        };
        let function: Option<Vec<u8>> = if sp < loc.len() {
            let rest = subvec(loc, sp + 1, loc.len());
            let sp2 = find_byte_from(&rest, SPACE, 0);
            Option::Some(subvec(&rest, 0, sp2))
        } else {
            Option::None
        };
        CodeLocation { file, line_number, function }
    }
}

/// One native log event as plain values, with the verified translations
/// applied: the host level for its severity and its parsed code location.
/// Category, log id and message pass through unchanged for the host's
/// logging to format.
#[derive(Debug)]
pub struct LogRecord {
    pub level: HostLogLevel,
    pub category: Vec<u8>,
    pub logid: Vec<u8>,
    pub location: CodeLocation,
    pub message: Vec<u8>,
}

/// Translate one native log event: map its severity and parse its code
/// location.
pub fn build_log_record(
    severity: u32,
    category: Vec<u8>,
    logid: Vec<u8>,
    code_location: &Vec<u8>,
    message: Vec<u8>,
) -> (r: LogRecord)
    ensures
        r.level == spec_map_severity(severity),
        r.category == category,
        r.logid == logid,
        r.location.file@ == spec_location_file(code_location@),
        r.message == message,
{
    let level = map_severity(severity);
    let location = CodeLocation::parse(code_location);
    LogRecord { level, category, logid, location, message }
}

} // verus!
