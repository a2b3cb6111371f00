//! Inspection of a Unix timestamp: the instant it stands for and how far it
//! lies from now.
use crate::text::{decimal, decimal_string, signed_decimal, signed_decimal_string};
use chrono::{Datelike, Local, TimeZone, Utc};
use vstd::prelude::*;

verus! {

/// Values of this magnitude or more are read as milliseconds.
pub const MILLIS_THRESHOLD: i64 = 1000000000000;

/// An instant: whole seconds since the epoch and the milliseconds past them.
#[derive(Clone, Copy, Debug, PartialEq, Eq, Structural)]
pub struct Instant {
    pub seconds: i64,
    pub millis: u32,
}

/// How far an instant lies from now, split into days, hours, minutes and
/// seconds, and on which side of now it lies.
#[derive(Clone, Copy, Debug, PartialEq, Eq, Structural)]
pub struct RelativeTime {
    pub days: u64,
    pub hours: u64,
    pub minutes: u64,
    pub seconds: u64,
    /// The instant lies after now.
    pub future: bool,
}

pub open spec fn abs(x: int) -> nat {
    if x < 0 {
        (-x) as nat
    } else {
        x as nat
    }
}

/// The instant that the epoch value `ts` stands for: milliseconds when its
/// magnitude is at least `MILLIS_THRESHOLD`, seconds otherwise.
pub open spec fn instant_of(ts: int) -> (int, int) {
    if abs(ts) >= MILLIS_THRESHOLD {
        (ts / 1000, ts % 1000)
    } else {
        (ts, 0)
    }
}

impl RelativeTime {
    /// The whole distance in seconds.
    pub open spec fn total(self) -> nat {
        (self.days * 86400 + self.hours * 3600 + self.minutes * 60 + self.seconds) as nat
    }
}

pub open spec fn direction_word(future: bool) -> Seq<char> {
    if future {
        "后"@
    } else {
        "前"@
    }
}

/// The relative-time line for a distance of `diff` seconds: only the units
/// from the largest one that the distance reaches down to seconds.
pub open spec fn relative_text(diff: nat, future: bool) -> Seq<char> {
    let secs = decimal(diff % 60) + "秒"@ + direction_word(future);
    let mins = decimal(diff / 60 % 60) + "分钟 "@ + secs;
    let hours = decimal(diff / 3600 % 24) + "小时 "@ + mins;
    if diff < 60 {
        secs
    } else if diff < 3600 {
        mins
    } else if diff < 86400 {
        hours
    } else {
        decimal(diff / 86400) + "天 "@ + hours
    }
}

/// The units that the relative-time line shows for a distance of `diff`
/// seconds are in range (seconds and minutes below 60, hours below 24) and
/// add back up to the whole distance.
pub proof fn lemma_relative_components(diff: nat)
    ensures
        diff % 60 < 60,
        diff / 60 % 60 < 60,
        diff / 3600 % 24 < 24,
        (diff / 86400) * 86400 + (diff / 3600 % 24) * 3600 + (diff / 60 % 60) * 60 + diff % 60
            == diff,
{
    let d = diff as int;
    assert(d / 3600 == d / 60 / 60) by {
        vstd::arithmetic::div_mod::lemma_div_denominator(d, 60, 60);
    }
    assert(d / 86400 == d / 3600 / 24) by {
        vstd::arithmetic::div_mod::lemma_div_denominator(d, 3600, 24);
    }
    assert(d == (d / 60) * 60 + d % 60) by {
        vstd::arithmetic::div_mod::lemma_fundamental_div_mod(d, 60);
    }
    assert(d / 60 == (d / 3600) * 60 + d / 60 % 60) by {
        vstd::arithmetic::div_mod::lemma_fundamental_div_mod(d / 60, 60);
    }
    assert(d / 3600 == (d / 86400) * 24 + d / 3600 % 24) by {
        vstd::arithmetic::div_mod::lemma_fundamental_div_mod(d / 3600, 24);
    }
    assert((d / 86400) * 86400 + (d / 3600 % 24) * 3600 + (d / 60 % 60) * 60 + d % 60 == d)
        by (nonlinear_arith)
        requires
            d == (d / 60) * 60 + d % 60,
            d / 60 == (d / 3600) * 60 + d / 60 % 60,
            d / 3600 == (d / 86400) * 24 + d / 3600 % 24,
    ;
}

/// What chrono renders for a UTC instant (date, time and weekday), where
/// the instant lies in its range.
pub uninterp spec fn utc_text_of(seconds: int, nanos: int) -> Option<Seq<char>>;

/// Relies on chrono's `Utc.timestamp_opt`, the `Display` of `DateTime<Utc>`
/// and the weekday's `Display`: `None` outside chrono's range; otherwise
/// the text depends on the two values alone.
#[verifier::external_body]
fn utc_text(seconds: i64, nanos: u32) -> (r: Option<String>)
    ensures
        r is Some <==> utc_text_of(seconds as int, nanos as int) is Some,
        r is Some ==> utc_text_of(seconds as int, nanos as int) == Some(r->Some_0@),
{
    Utc.timestamp_opt(seconds, nanos).single().map(|t| format!("{} {}", t, t.weekday()))
}

/// Relies on chrono's `Local.timestamp_opt` and the `Display` of
/// `DateTime<Local>`: it fails exactly where the UTC conversion fails (both
/// go through `DateTime::from_timestamp`); the text depends on the
/// machine's time zone, so nothing more is stated of it.
#[verifier::external_body]
pub(crate) fn local_text(seconds: i64, nanos: u32) -> (r: Option<String>)
    ensures
        r is Some <==> utc_text_of(seconds as int, nanos as int) is Some,
{
    Local.timestamp_opt(seconds, nanos).single().map(|t| format!("{} {}", t, t.weekday()))
}

/// Reads an epoch value as an instant.
pub fn instant(ts: i64) -> (r: Instant)
    ensures
        (r.seconds as int, r.millis as int) == instant_of(ts as int),
        r.seconds as int * 1000 + r.millis as int == if abs(ts as int) >= MILLIS_THRESHOLD {
            ts as int
        } else {
            ts as int * 1000
        },
        r.millis < 1000,
{
    if ts >= MILLIS_THRESHOLD {
        Instant { seconds: ts / 1000, millis: (ts % 1000) as u32 }
    } else if ts <= -MILLIS_THRESHOLD {
        let p = -(ts + 1);
        let q = p / 1000;
        let m = p % 1000;
        assert(ts as int / 1000 == -q - 1 && ts as int % 1000 == 999 - m) by (nonlinear_arith)
            requires
                p == -(ts + 1),
                p >= 0,
                q == p / 1000,
                m == p % 1000,
        ;
        Instant { seconds: -q - 1, millis: (999 - m) as u32 }
    } else {
        Instant { seconds: ts, millis: 0 }
    }
}

/// Splits the distance between `now` and `then` (both in seconds) into
/// days, hours, minutes and seconds.
pub fn relative_time(now: i64, then: i64) -> (r: RelativeTime)
    ensures
        r.seconds < 60,
        r.minutes < 60,
        r.hours < 24,
        r.total() == abs(now - then),
        r.future == (then > now),
{
    let d: i128 = now as i128 - then as i128;
    let diff: u64 = if d < 0 {
        (-d) as u64
    } else {
        d as u64
    };
    let r = RelativeTime {
        days: diff / 86400,
        hours: diff / 3600 % 24,
        minutes: diff / 60 % 60,
        seconds: diff % 60,
        future: d < 0,
    };
    assert(r.total() == diff) by (nonlinear_arith)
        requires
            r.days == diff / 86400,
            r.hours == diff / 3600 % 24,
            r.minutes == diff / 60 % 60,
            r.seconds == diff % 60,
    ;
    r
}

/// The relative-time line for `r`.
pub fn relative_string(r: RelativeTime) -> (s: String)
    requires
        r.seconds < 60,
        r.minutes < 60,
        r.hours < 24,
    ensures
        s@ == relative_text(r.total(), r.future),
{
    let ghost total = r.total();
    assert(total % 60 == r.seconds && total / 60 % 60 == r.minutes && total / 3600 % 24 == r.hours
        && total / 86400 == r.days) by (nonlinear_arith)
        requires
            total == r.days * 86400 + r.hours * 3600 + r.minutes * 60 + r.seconds,
            r.seconds < 60,
            r.minutes < 60,
            r.hours < 24,
    ;
    assert(total < 60 <==> (r.days == 0 && r.hours == 0 && r.minutes == 0)) by (nonlinear_arith)
        requires
            total == r.days * 86400 + r.hours * 3600 + r.minutes * 60 + r.seconds,
            r.seconds < 60,
    ;
    assert(total < 3600 <==> (r.days == 0 && r.hours == 0)) by (nonlinear_arith)
        requires
            total == r.days * 86400 + r.hours * 3600 + r.minutes * 60 + r.seconds,
            r.seconds < 60,
            r.minutes < 60,
    ;
    assert(total < 86400 <==> r.days == 0) by (nonlinear_arith)
        requires
            total == r.days * 86400 + r.hours * 3600 + r.minutes * 60 + r.seconds,
            r.seconds < 60,
            r.minutes < 60,
            r.hours < 24,
    ;
    let word = if r.future {
        "后"
    } else {
        "前"
    };
    let secs = decimal_string(r.seconds).concat("秒").concat(word);
    if r.days == 0 && r.hours == 0 && r.minutes == 0 {
        return secs;
    }
    let mins = decimal_string(r.minutes).concat("分钟 ").concat(secs.as_str());
    if r.days == 0 && r.hours == 0 {
        return mins;
    }
    let hours = decimal_string(r.hours).concat("小时 ").concat(mins.as_str());
    if r.days == 0 {
        return hours;
    }
    decimal_string(r.days).concat("天 ").concat(hours.as_str())
}

/// The lines shown for a timestamp.
pub struct TimestampReport {
    /// The value as given.
    pub unix: String,
    /// The instant in UTC, with its weekday.
    pub gmt: String,
    /// The instant in the local time zone, with its weekday.
    pub local: String,
    /// How far the instant lies from now.
    pub relative: String,
}

/// Why a timestamp cannot be shown.
#[derive(Clone, Copy, Debug, PartialEq, Eq, Structural)]
pub enum TimestampError {
    /// The instant lies outside the range of dates that can be rendered.
    OutOfRange,
}

/// An optional epoch value; without one the current time is shown.
pub struct TimestampCommand {
    pub timestamp: Option<i64>,
}

impl TimestampCommand {
    pub fn new(timestamp: Option<i64>) -> (r: TimestampCommand)
        ensures
            r.timestamp == timestamp,
    {
        TimestampCommand { timestamp }
    }

    /// The lines shown for the value `ts` when the time is `now` (epoch
    /// seconds). The distance is measured from the instant's whole seconds.
    pub fn report(ts: i64, now: i64) -> (r: Result<TimestampReport, TimestampError>)
        ensures
            ({
                let (secs, ms) = instant_of(ts as int);
                &&& utc_text_of(secs, ms * 1000000) is None <==> r == Err::<TimestampReport, _>(
                    TimestampError::OutOfRange,
                )
                &&& r is Ok ==> {
                    let rep = r->Ok_0;
                    &&& rep.unix@ == signed_decimal(ts as int)
                    &&& utc_text_of(secs, ms * 1000000) == Some(rep.gmt@)
                    &&& rep.relative@ == relative_text(abs(now - secs), secs > now)
                }
            }),
    {
        let at = instant(ts);
        let nanos: u32 = at.millis * 1000000;
        let gmt = match utc_text(at.seconds, nanos) {
            Some(t) => t,
            None => return Err(TimestampError::OutOfRange),
        };
        let local = match local_text(at.seconds, nanos) {
            Some(t) => t,
            None => return Err(TimestampError::OutOfRange),
        };
        let rel = relative_time(now, at.seconds);
        Ok(
            TimestampReport {
                unix: signed_decimal_string(ts),
                gmt,
                local,
                relative: relative_string(rel),
            },
        )
    }
}

} // verus!
