//! The shutdown audit entry: a line of the backend's log, written by the host
//! when it ends the backend itself, in the log's own format
//! `<timestamp> - <LEVEL> - <message>`.

use vstd::prelude::*;
use crate::decimal::{decimal, decimal_text, padded, padded_decimal};

verus! {

/// A local date and time of day, as the clock gives them.
#[derive(Clone, Copy, Debug, PartialEq, Eq, Structural)]
pub struct Timestamp {
    pub year: i32,
    pub month: u32,
    pub day: u32,
    pub hour: u32,
    pub minute: u32,
    pub second: u32,
    /// Nanoseconds since the whole second; from one to two billion during a
    /// leap second.
    pub nanosecond: u32,
}

impl Timestamp {
    /// Every field within the range of a calendar date and a time of day.
    pub open spec fn wf(&self) -> bool {
        &&& 1 <= self.month <= 12
        &&& 1 <= self.day <= 31
        &&& self.hour < 24
        &&& self.minute < 60
        &&& self.second < 60
        &&& self.nanosecond < 2_000_000_000
    }
}

/// Relies on chrono's `From<SystemTime>` for `DateTime<Local>`, which takes a
/// clock before 1970 as a negative timestamp rather than failing, and on the
/// `Datelike` and `Timelike` accessors of its result, whose documentation
/// gives the ranges of `wf`.
#[verifier::external_body]
fn local_now() -> (r: Timestamp)
    ensures
        r.wf(),
{
    let now = chrono::DateTime::<chrono::Local>::from(std::time::SystemTime::now());
    Timestamp {
        year: chrono::Datelike::year(&now),
        month: chrono::Datelike::month(&now),
        day: chrono::Datelike::day(&now),
        hour: chrono::Timelike::hour(&now),
        minute: chrono::Timelike::minute(&now),
        second: chrono::Timelike::second(&now),
        nanosecond: chrono::Timelike::nanosecond(&now),
    }
}

/// The year in at least four digits; a sign before years outside 0 to 9999.
pub open spec fn year_text(y: i32) -> Seq<char> {
    if 0 <= y <= 9999 {
        padded(y as nat, 4)
    } else if y < 0 {
        seq!['-'] + padded((-y) as nat, 4)
    } else {
        seq!['+'] + padded(y as nat, 4)
    }
}

/// The second of the minute; 60 during a leap second.
pub open spec fn second_of(ts: Timestamp) -> nat {
    (ts.second + ts.nanosecond / 1_000_000_000) as nat
}

/// Milliseconds of the second, from zero to 999.
pub open spec fn millis_of(ts: Timestamp) -> nat {
    ((ts.nanosecond / 1_000_000) % 1000) as nat
}

/// `YYYY-MM-DD HH:MM:SS,mmm`.
pub open spec fn stamp_text(ts: Timestamp) -> Seq<char> {
    year_text(ts.year) + seq!['-'] + padded(ts.month as nat, 2) + seq!['-'] + padded(
        ts.day as nat,
        2,
    ) + seq![' '] + padded(ts.hour as nat, 2) + seq![':'] + padded(ts.minute as nat, 2) + seq![
        ':',
    ] + padded(second_of(ts), 2) + seq![','] + padded(millis_of(ts), 3)
}

/// One line of the log: timestamp, level and message, ended by a line feed.
pub open spec fn log_line(ts: Timestamp, level: Seq<char>, message: Seq<char>) -> Seq<char> {
    stamp_text(ts) + " - "@ + level + " - "@ + message + seq!['\n']
}

/// The message that records a shutdown of the backend by the host.
pub open spec fn close_message(pid: u32) -> Seq<char> {
    "Server stopped by closing the application | PID: "@ + decimal(pid as nat)
}

/// The audit line for ending process `pid` at `ts`.
pub open spec fn close_entry(ts: Timestamp, pid: u32) -> Seq<char> {
    log_line(ts, "INFO"@, close_message(pid))
}

/// Writes `ts` as `YYYY-MM-DD HH:MM:SS,mmm`.
pub fn format_timestamp(ts: &Timestamp) -> (r: String)
    ensures
        r@ == stamp_text(*ts),
{
    proof {
        reveal_strlit("-");
        reveal_strlit("+");
        reveal_strlit(" ");
        reveal_strlit(":");
        reveal_strlit(",");
    }
    let mut r = if 0 <= ts.year && ts.year <= 9999 {
        padded_decimal(ts.year as u64, 4)
    } else if ts.year < 0 {
        let mut s = String::from_str("-");
        let magnitude = padded_decimal((-(ts.year as i64)) as u64, 4);
        s.append(magnitude.as_str());
        s
    } else {
        let mut s = String::from_str("+");
        let magnitude = padded_decimal(ts.year as u64, 4);
        s.append(magnitude.as_str());
        s
    };
    assert(r@ =~= year_text(ts.year));
    r.append("-");
    r.append(padded_decimal(ts.month as u64, 2).as_str());
    r.append("-");
    r.append(padded_decimal(ts.day as u64, 2).as_str());
    r.append(" ");
    r.append(padded_decimal(ts.hour as u64, 2).as_str());
    r.append(":");
    r.append(padded_decimal(ts.minute as u64, 2).as_str());
    r.append(":");
    r.append(padded_decimal(ts.second as u64 + (ts.nanosecond / 1_000_000_000) as u64, 2).as_str());
    r.append(",");
    r.append(padded_decimal(((ts.nanosecond / 1_000_000) % 1000) as u64, 3).as_str());
    assert(r@ =~= stamp_text(*ts));
    r
}

/// The audit line for ending process `pid` at `ts`.
pub fn close_log_entry(ts: &Timestamp, pid: u32) -> (r: String)
    ensures
        r@ == close_entry(*ts, pid),
{
    let mut r = format_timestamp(ts);
    proof {
        reveal_strlit("\n");
    }
    r.append(" - ");
    r.append("INFO");
    r.append(" - ");
    r.append("Server stopped by closing the application | PID: ");
    r.append(decimal_text(pid as u64).as_str());
    r.append("\n");
    assert(r@ =~= close_entry(*ts, pid));
    r
}

/// The audit line for ending process `pid` now, by the local clock.
pub fn close_log_entry_now(pid: u32) -> (r: String)
    ensures
        exists|ts: Timestamp| ts.wf() && r@ == close_entry(ts, pid),
{
    let ts = local_now();
    close_log_entry(&ts, pid)
}

} // verus!
