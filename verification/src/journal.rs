//! Journal entries: the row that the store holds and the entry read back
//! from it, with its time as a point on the UTC time line.

use vstd::prelude::*;
use vstd::string::*;

verus! {

/// A point in time: whole seconds since 1970-01-01 00:00:00 UTC, and the
/// nanoseconds since that second began.
#[derive(Debug, Clone, Copy, PartialEq, Eq)]
pub struct Timestamp {
    pub secs: i64,
    pub nanos: u32,
}

/// A journal entry as the store holds it: three texts.
#[derive(Debug, Clone, PartialEq, Eq)]
pub struct JournalRow {
    pub created_at: String,
    pub decision: String,
    pub why: String,
}

/// A journal entry.
#[derive(Debug, Clone, PartialEq, Eq)]
pub struct JournalEntry {
    pub created_at: Timestamp,
    pub decision: String,
    pub why: String,
}

/// The point in time that a text denotes when read as a date and time with
/// an offset from UTC, in seconds and nanoseconds; `None` if it denotes none.
pub uninterp spec fn parsed_utc(s: Seq<char>) -> Option<(i64, u32)>;

/// The RFC 3339 text of a point in time; `None` if the calendar does not
/// reach that far.
pub uninterp spec fn rfc3339_of(secs: i64, nanos: u32) -> Option<Seq<char>>;

/// A pair of seconds and nanoseconds as a `Timestamp`.
pub open spec fn stamp_of(parsed: Option<(i64, u32)>) -> Option<Timestamp> {
    match parsed {
        Some(pair) => Some(Timestamp { secs: pair.0, nanos: pair.1 }),
        None => None,
    }
}

/// The time of an entry: the one its row gives if that could be read, else
/// the time of reading.
pub open spec fn time_of(parsed: Option<Timestamp>, now: Timestamp) -> Timestamp {
    match parsed {
        Some(t) => t,
        None => now,
    }
}

/// Calls chrono's `str::parse::<DateTime<Utc>>` and, on success, reads the
/// result with `DateTime::timestamp` and `DateTime::timestamp_subsec_nanos`.
/// Whether the text parses and to which point in time depends on the text
/// alone; the contract gives that the name `parsed_utc` and says no more.
#[verifier::external_body]
pub(crate) fn parse_utc(s: &str) -> (parsed: Option<Timestamp>)
    ensures
        parsed == stamp_of(parsed_utc(s@)),
{
    match s.parse::<chrono::DateTime<chrono::Utc>>() {
        Ok(d) => Some(Timestamp { secs: d.timestamp(), nanos: d.timestamp_subsec_nanos() }),
        Err(_) => None,
    }
}

/// Calls chrono's `DateTime::from_timestamp` and, where that yields a date,
/// `DateTime::to_rfc3339` on it. The text depends on the two numbers alone;
/// the contract gives it the name `rfc3339_of` and says no more.
#[verifier::external_body]
pub(crate) fn to_rfc3339(t: Timestamp) -> (text: Option<String>)
    ensures
        match text {
            Some(s) => rfc3339_of(t.secs, t.nanos) == Some(s@),
            None => rfc3339_of(t.secs, t.nanos) is None,
        },
{
    match chrono::DateTime::from_timestamp(t.secs, t.nanos) {
        Some(d) => Some(d.to_rfc3339()),
        None => None,
    }
}

/// The entry for a row whose time was read as `parsed`: it keeps the row's
/// two texts, and where the time could not be read it takes `now`.
pub fn entry_with(parsed: Option<Timestamp>, decision: String, why: String, now: Timestamp) -> (entry:
    JournalEntry)
    ensures
        entry.created_at == time_of(parsed, now),
        entry.decision == decision,
        entry.why == why,
{
    let created_at = match parsed {
        Some(t) => t,
        None => now,
    };
    JournalEntry { created_at, decision, why }
}

/// The entry that a stored row stands for. Its time is the one that the row
/// denotes, or `now` where the row's time cannot be read.
pub fn entry_from_row(row: JournalRow, now: Timestamp) -> (entry: JournalEntry)
    ensures
        entry.created_at == time_of(stamp_of(parsed_utc(row.created_at@)), now),
        entry.decision == row.decision,
        entry.why == row.why,
{
    let parsed = parse_utc(row.created_at.as_str());
    entry_with(parsed, row.decision, row.why, now)
}

/// The row to store for a decision taken at `now`, if the calendar reaches
/// that far: the time as RFC 3339 text, then the two texts as given.
pub fn new_row(now: Timestamp, decision: &str, why: &str) -> (row: Option<JournalRow>)
    ensures
        match row {
            Some(r) => {
                &&& rfc3339_of(now.secs, now.nanos) == Some(r.created_at@)
                &&& r.decision@ == decision@
                &&& r.why@ == why@
            },
            None => rfc3339_of(now.secs, now.nanos) is None,
        },
{
    match to_rfc3339(now) {
        Some(created_at) => Some(
            JournalRow { created_at, decision: decision.to_owned(), why: why.to_owned() },
        ),
        None => None,
    }
}

} // verus!
