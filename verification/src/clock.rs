use vstd::prelude::*;

use crate::protocol::LogEntry;

verus! {

/// The layout of every timestamp the tools print: ISO 8601 in UTC, to the
/// second.
pub const TIMESTAMP_LAYOUT: &'static str = "%Y-%m-%dT%H:%M:%SZ";

/// The first second that chrono can represent (January 1 of the year
/// -262143, UTC) in Unix time.
pub const EARLIEST_TIMESTAMP: i64 = -8334601228800;

/// The last second that chrono can represent (December 31 of the year 262142,
/// UTC) in Unix time.
pub const LATEST_TIMESTAMP: i64 = 8210266876799;

/// The first second of the year 0 in Unix time: from here to
/// `LAST_FOUR_DIGIT_YEAR` the year is written with exactly four digits.
pub const FIRST_FOUR_DIGIT_YEAR: i64 = -62167219200;

/// The last second of the year 9999 in Unix time.
pub const LAST_FOUR_DIGIT_YEAR: i64 = 253402300799;

/// The length of a timestamp whose year has four digits:
/// `YYYY-MM-DDTHH:MM:SSZ`.
pub const TIMESTAMP_WIDTH: usize = 20;

/// What chrono writes for the UTC instant `secs` seconds after the Unix epoch
/// under the strftime `layout`.
pub uninterp spec fn chrono_utc_text(secs: i64, layout: Seq<char>) -> Seq<char>;

/// chrono's `DateTime::<Utc>::from_timestamp(secs, 0)`, formatted with
/// `format(layout).to_string()`. `from_timestamp` answers `None` only out of
/// chrono's range (years -262143 to 262142, `EARLIEST_TIMESTAMP` to
/// `LATEST_TIMESTAMP`), so every instant in it has a text, which is named, not
/// stated, but for its width: chrono writes a year from 0 to 9999 with four
/// digits (zero-padded) and every other field of the layout with two, so such
/// a text has `TIMESTAMP_WIDTH` characters. The layout is held to the tools'
/// own, under which formatting cannot fail.
#[verifier::external_body]
fn chrono_format_utc(secs: i64, layout: &str) -> (r: Option<String>)
    requires
        layout@ == TIMESTAMP_LAYOUT@,
    ensures
        EARLIEST_TIMESTAMP <= secs <= LATEST_TIMESTAMP ==> r is Some,
        r matches Some(t) ==> t@ == chrono_utc_text(secs, layout@),
        r matches Some(t) ==> (FIRST_FOUR_DIGIT_YEAR <= secs <= LAST_FOUR_DIGIT_YEAR ==> t@.len()
            == TIMESTAMP_WIDTH),
{
    match chrono::DateTime::<chrono::Utc>::from_timestamp(secs, 0) {
        Some(t) => Some(t.format(layout).to_string()),
        None => None,
    }
}

/// The printed form of the instant `secs`.
pub open spec fn timestamp_of(secs: i64) -> Seq<char> {
    chrono_utc_text(secs, TIMESTAMP_LAYOUT@)
}

/// Writes the instant `secs` (Unix time) as `YYYY-MM-DDTHH:MM:SSZ`.
pub fn timestamp_text(secs: i64) -> (t: String)
    requires
        EARLIEST_TIMESTAMP <= secs <= LATEST_TIMESTAMP,
    ensures
        t@ == timestamp_of(secs),
        FIRST_FOUR_DIGIT_YEAR <= secs <= LAST_FOUR_DIGIT_YEAR ==> t@.len() == TIMESTAMP_WIDTH,
{
    match chrono_format_utc(secs, TIMESTAMP_LAYOUT) {
        Some(t) => t,
        None => {
            assert(false);
            String::new()
        },
    }
}

/// A log line: timestamp, level in brackets, scope, two spaces, message.
pub open spec fn log_line_of(secs: i64, level: Seq<char>, scope: Seq<char>, message: Seq<char>) -> Seq<char> {
    timestamp_of(secs) + " ["@ + level + "] "@ + scope + "  "@ + message
}

/// Renders `entry` as logged at the instant `secs`.
pub fn log_line(secs: i64, entry: &LogEntry) -> (l: String)
    requires
        EARLIEST_TIMESTAMP <= secs <= LATEST_TIMESTAMP,
    ensures
        l@ == log_line_of(secs, entry.level@, entry.scope@, entry.message@),
{
    let mut l = timestamp_text(secs);
    l.append(" [");
    l.append(entry.level.as_str());
    l.append("] ");
    l.append(entry.scope.as_str());
    l.append("  ");
    l.append(entry.message.as_str());
    l
}

} // verus!
