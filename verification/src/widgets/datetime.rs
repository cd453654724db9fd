//! Clock events and the schedule of minute updates.

use std::fmt::Write;

use vstd::prelude::*;

use crate::time::{Duration, NANOS_PER_SEC};

verus! {

#[derive(Debug)]
pub struct DateTimeChanged;

#[derive(Debug)]
pub struct DateTimeTick;

/// The texts shown by the clock.
#[derive(Debug, Clone, PartialEq, Eq)]
pub struct DateTimeUpdate {
    pub time: String,
    pub date: String,
}

/// Source of the clock's minute updates.
#[derive(Debug, Clone)]
pub struct DateTime;

/// Nanoseconds past the minute at which an update is scheduled.
pub const UPDATE_OFFSET_NANOS: u32 = 100_000_000;

/// The start of the first whole minute after `secs` seconds, in seconds.
pub open spec fn next_minute(secs: nat) -> nat {
    (secs / 60 + 1) * 60
}

/// Name for the text chrono writes for the instant `secs` seconds and
/// `nanos` nanoseconds after the epoch, seen at the fixed offset of `offset`
/// seconds east of UTC, with the strftime format `fmt`. `None` when the
/// offset is a day or more, the instant is outside chrono's range, the format
/// has an invalid specifier, or chrono's writer reports an error. Offset
/// specifiers (`%z`, `%:z`, `%Z`, `%+`) write `offset`.
pub uninterp spec fn strftime_text(secs: int, nanos: nat, offset: int, fmt: Seq<char>) -> Option<Seq<char>>;

/// Name for the upper-case form of `s` that `str::to_uppercase` gives.
pub uninterp spec fn upper_case(s: Seq<char>) -> Seq<char>;

/// Calls `chrono::FixedOffset::east_opt`, `chrono::DateTime::from_timestamp`,
/// `DateTime::with_timezone`, `StrftimeItems::parse` and
/// `DateTime::format_with_items`, and writes the result into a `String`: the
/// date and time at the given offset, or `None` when the offset or timestamp
/// is out of range, the format does not parse, or writing fails.
/// Trusted: the text is a function of the four arguments alone; its form is
/// not stated.
#[verifier::external_body]
fn format_timestamp(secs: i64, nanos: u32, offset_secs: i32, fmt: &str) -> (t: Option<String>)
    ensures
        match t {
            Some(s) => strftime_text(secs as int, nanos as nat, offset_secs as int, fmt@) == Some(s@),
            None => strftime_text(secs as int, nanos as nat, offset_secs as int, fmt@) is None,
        },
{
    let offset = chrono::FixedOffset::east_opt(offset_secs)?;
    let at = chrono::DateTime::from_timestamp(secs, nanos)?.with_timezone(&offset);
    let items = chrono::format::StrftimeItems::new(fmt).parse().ok()?;
    let mut text = String::new();
    write!(text, "{}", at.format_with_items(items.iter())).ok()?;
    Some(text)
}

/// Calls `str::to_uppercase`. Trusted: the result is the Unicode upper-case
/// mapping of `s`, a function of `s` alone; the mapping is not stated.
#[verifier::external_body]
fn to_upper_case(s: &str) -> (u: String)
    ensures
        u@ == upper_case(s@),
{
    s.to_uppercase()
}

/// The strftime format of the clock's time line.
pub const TIME_FORMAT: &'static str = "%H:%M";

/// The strftime format of the clock's date line.
pub const DATE_FORMAT: &'static str = "%a %d";

/// What `DateTime::format` gives for an instant seen at a UTC offset.
pub open spec fn clock_text(secs: int, nanos: nat, offset: int, fmt: Seq<char>) -> Option<Seq<char>> {
    match strftime_text(secs, nanos, offset, fmt) {
        Some(t) => Some(upper_case(t)),
        None => None,
    }
}

impl DateTime {
    pub fn new() -> (d: DateTime) {
        DateTime
    }

    /// The instant `secs` seconds and `nanos` nanoseconds after the epoch,
    /// seen at `offset_secs` seconds east of UTC (the local time zone's
    /// offset at that instant), written with the strftime format `fmt` and
    /// put in upper case; `None` when chrono cannot write it.
    pub fn format(secs: i64, nanos: u32, offset_secs: i32, fmt: &str) -> (t: Option<String>)
        ensures
            match t {
                Some(s) => clock_text(secs as int, nanos as nat, offset_secs as int, fmt@) == Some(s@),
                None => clock_text(secs as int, nanos as nat, offset_secs as int, fmt@) is None,
            },
    {
        match format_timestamp(secs, nanos, offset_secs, fmt) {
            Some(text) => Some(to_upper_case(text.as_str())),
            None => None,
        }
    }

    /// The clock's texts for an instant seen at a UTC offset: the time line
    /// and the date line.
    pub fn update(secs: i64, nanos: u32, offset_secs: i32) -> (u: Option<DateTimeUpdate>)
        ensures
            match u {
                Some(u) => clock_text(secs as int, nanos as nat, offset_secs as int, TIME_FORMAT@)
                    == Some(u.time@) && clock_text(secs as int, nanos as nat, offset_secs as int,
                    DATE_FORMAT@) == Some(u.date@),
                None => clock_text(secs as int, nanos as nat, offset_secs as int, TIME_FORMAT@)
                    is None || clock_text(secs as int, nanos as nat, offset_secs as int,
                    DATE_FORMAT@) is None,
            },
    {
        let time = Self::format(secs, nanos, offset_secs, TIME_FORMAT)?;
        let date = Self::format(secs, nanos, offset_secs, DATE_FORMAT)?;
        Some(DateTimeUpdate { time, date })
    }

    /// The wall-clock deadline, as a span since the epoch, for the next
    /// minute update: the start of the next whole minute after `since_epoch`
    /// plus a tenth of a second.
    pub fn next_deadline(&self, since_epoch: Duration) -> (d: Duration)
        requires
            next_minute(since_epoch@ / (NANOS_PER_SEC as nat)) <= u64::MAX,
        ensures
            d@ == next_minute(since_epoch@ / (NANOS_PER_SEC as nat)) * (NANOS_PER_SEC as nat)
                + UPDATE_OFFSET_NANOS,
    {
        let current_secs = since_epoch.as_secs();
        let next_minute_secs = (current_secs / 60 + 1) * 60;
        Duration::new(next_minute_secs, UPDATE_OFFSET_NANOS)
    }
}

impl Default for DateTime {
    fn default() -> (d: DateTime) {
        DateTime
    }
}

/// Law: the next deadline lies strictly after `since_epoch`, and no more than
/// a minute and a tenth of a second after it.
pub proof fn lemma_deadline_within_next_minute(since_epoch: nat)
    ensures
        since_epoch < next_minute(since_epoch / (NANOS_PER_SEC as nat)) * (NANOS_PER_SEC as nat)
            + UPDATE_OFFSET_NANOS,
        next_minute(since_epoch / (NANOS_PER_SEC as nat)) * (NANOS_PER_SEC as nat)
            + UPDATE_OFFSET_NANOS <= since_epoch + 60 * (NANOS_PER_SEC as nat)
            + UPDATE_OFFSET_NANOS,
{
    let n = NANOS_PER_SEC as int;
    let s = since_epoch as int / n;
    vstd::arithmetic::div_mod::lemma_fundamental_div_mod(since_epoch as int, n);
    vstd::arithmetic::div_mod::lemma_fundamental_div_mod(s, 60);
    vstd::arithmetic::div_mod::lemma_mod_bound(since_epoch as int, n);
    vstd::arithmetic::div_mod::lemma_mod_bound(s, 60);
    let m = (s / 60 + 1) * 60;
    assert(s < m <= s + 60) by (nonlinear_arith)
        requires
            s == 60 * (s / 60) + s % 60,
            0 <= s % 60 < 60,
            m == (s / 60 + 1) * 60,
    ;
    assert(since_epoch < m * n && m * n <= since_epoch + 60 * n) by (nonlinear_arith)
        requires
            since_epoch == n * s + since_epoch as int % n,
            0 <= since_epoch as int % n < n,
            s < m <= s + 60,
            n > 0,
    ;
}

} // verus!
