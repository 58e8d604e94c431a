//! The current UTC time as text, for export footers and snapshot names.
use vstd::prelude::*;

verus! {

/// Format of the time shown in exported documents.
pub const DISPLAY_STAMP_FORMAT: &'static str = "%Y-%m-%d %H:%M:%S UTC";

/// Format of the time embedded in database snapshot file names.
pub const FILE_STAMP_FORMAT: &'static str = "%Y%m%d_%H%M%S";

/// Seconds from the epoch to the first instant of the year 10000; before it
/// a year has four digits.
pub const YEAR_10000_SECS: u64 = 253402300800;

/// The largest second count that fits an `i64`.
pub const MAX_SECS: u64 = 9223372036854775807;

/// The formats this library hands to the clock; both are well formed, so
/// formatting with them never fails.
pub open spec fn is_stamp_format(f: Seq<char>) -> bool {
    f == DISPLAY_STAMP_FORMAT@ || f == FILE_STAMP_FORMAT@
}

pub open spec fn is_digit(c: char) -> bool {
    '0' <= c && c <= '9'
}

/// Every character is a digit, a `+` (a year past 9999), or one that occurs
/// in the format.
pub open spec fn stamp_chars(s: Seq<char>, fmt: Seq<char>) -> bool {
    forall|i: int| 0 <= i < s.len() ==> is_digit(#[trigger] s[i]) || s[i] == '+' || fmt.contains(s[i])
}

/// `YYYY-MM-DD HH:MM:SS UTC`.
pub open spec fn display_shape(s: Seq<char>) -> bool {
    &&& s.len() == 23
    &&& forall|i: int|
        0 <= i < 19 && i != 4 && i != 7 && i != 10 && i != 13 && i != 16 ==> is_digit(#[trigger] s[i])
    &&& s[4] == '-' && s[7] == '-' && s[10] == ' ' && s[13] == ':' && s[16] == ':'
    &&& s[19] == ' ' && s[20] == 'U' && s[21] == 'T' && s[22] == 'C'
}

/// `YYYYMMDD_HHMMSS`.
pub open spec fn file_shape(s: Seq<char>) -> bool {
    &&& s.len() == 15
    &&& forall|i: int| 0 <= i < 15 && i != 8 ==> is_digit(#[trigger] s[i])
    &&& s[8] == '_'
}

pub open spec fn four_digit_shape(s: Seq<char>, fmt: Seq<char>) -> bool {
    &&& fmt == DISPLAY_STAMP_FORMAT@ ==> display_shape(s)
    &&& fmt == FILE_STAMP_FORMAT@ ==> file_shape(s)
}

/// What holds of every time text the clock gives in `fmt`: it has the
/// characters above, and the format's fixed shape unless the year has more
/// than four digits, in which case it starts with `+`.
pub open spec fn clock_text(s: Seq<char>, fmt: Seq<char>) -> bool {
    &&& stamp_chars(s, fmt)
    &&& (four_digit_shape(s, fmt) || (s.len() > 0 && s[0] == '+'))
}

/// Relies on std's `SystemTime::now` and `SystemTime::duration_since` with
/// `UNIX_EPOCH`: whole seconds since the epoch, `None` when the clock reads
/// before it. The value depends on the clock, so nothing more is claimed.
#[verifier::external_body]
fn unix_seconds() -> (r: Option<u64>) {
    std::time::SystemTime::now().duration_since(std::time::UNIX_EPOCH).ok().map(|d| d.as_secs())
}

/// Relies on chrono's `DateTime::<Utc>::from_timestamp` and `DateTime::format`:
/// the UTC time `secs` seconds after the epoch, written in `fmt`, or `None`
/// past chrono's range. Fields are zero padded; a year of four digits or
/// fewer is padded to four, a longer one is written with a leading `+`.
#[verifier::external_body]
fn format_utc(secs: u64, fmt: &str) -> (r: Option<String>)
    requires
        is_stamp_format(fmt@),
        secs <= MAX_SECS,
    ensures
        secs < YEAR_10000_SECS ==> r is Some,
        r is Some ==> stamp_chars(r->Some_0@, fmt@),
        r is Some && secs < YEAR_10000_SECS ==> four_digit_shape(r->Some_0@, fmt@),
        r is Some && secs >= YEAR_10000_SECS ==> r->Some_0@.len() > 0 && r->Some_0@[0] == '+',
{
    chrono::DateTime::from_timestamp(secs as i64, 0).map(|t| t.format(fmt).to_string())
}

/// The UTC time `secs` seconds after the epoch written in `fmt`: always
/// written before the year 10000, with the format's fixed shape there.
pub fn format_stamp(secs: u64, fmt: &str) -> (r: Option<String>)
    requires
        is_stamp_format(fmt@),
    ensures
        secs < YEAR_10000_SECS ==> r is Some && four_digit_shape(r->Some_0@, fmt@),
        r is Some ==> clock_text(r->Some_0@, fmt@),
{
    if secs <= MAX_SECS {
        format_utc(secs, fmt)
    } else {
        None
    }
}

/// The current UTC time written in `fmt`, or `None` when the clock reads
/// before the epoch or past what can be written.
pub fn utc_now_text(fmt: &str) -> (r: Option<String>)
    requires
        is_stamp_format(fmt@),
    ensures
        r is Some ==> clock_text(r->Some_0@, fmt@),
{
    match unix_seconds() {
        None => None,
        Some(secs) => format_stamp(secs, fmt),
    }
}

} // verus!
