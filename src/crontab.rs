//! Cron expressions: field count, normalisation to six fields, and the
//! next times of a schedule.
use crate::text::is_blank;
use crate::timestamp::{local_text, utc_text_of};
use chrono::{Local, TimeZone};
use vstd::prelude::*;

verus! {

#[verifier::external_type_specification]
#[verifier::external_body]
pub struct ExCron(croner::Cron);

/// How many upcoming times are listed.
pub const UPCOMING: usize = 10;

/// Why an expression is refused.
#[derive(Debug)]
pub enum CronError {
    /// The expression has neither five nor six fields.
    FieldCount,
    /// The schedule does not parse; the parser's message.
    Parse(String),
}

/// Position `i` of `s` starts a field.
pub open spec fn starts_field(s: Seq<char>, i: int) -> bool {
    !is_blank(s[i]) && (i == 0 || is_blank(s[i - 1]))
}

/// The number of fields that start before position `n`.
pub open spec fn fields_before(s: Seq<char>, n: nat) -> nat
    decreases n,
{
    if n == 0 {
        0
    } else {
        fields_before(s, (n - 1) as nat) + if starts_field(s, n - 1) {
            1nat
        } else {
            0nat
        }
    }
}

/// The number of blank-separated fields of `s`.
pub open spec fn field_count(s: Seq<char>) -> nat {
    fields_before(s, s.len())
}

/// The six-field form of an expression: a five-field one gets a leading
/// seconds field `0`.
pub open spec fn normalized(s: Seq<char>) -> Option<Seq<char>> {
    if field_count(s) == 5 {
        Some("0 "@ + s)
    } else if field_count(s) == 6 {
        Some(s)
    } else {
        None
    }
}

/// Whether croner parses a text as a schedule.
pub uninterp spec fn cron_accepts(s: Seq<char>) -> bool;

/// The schedule that croner parses from a text.
pub uninterp spec fn cron_of(s: Seq<char>) -> croner::Cron;

/// The values of field `field` of a schedule (0 seconds, 1 minutes, 2 hours,
/// 3 day of month, 4 month, 5 day of week) that match on every occasion.
pub uninterp spec fn field_values_of(c: croner::Cron, field: int) -> Seq<u16>;

/// Relies on croner's `Cron::from_str` (through `str::parse`): it succeeds
/// or fails, and gives its schedule, by the text alone.
#[verifier::external_body]
fn parse_cron(s: &str) -> (r: Result<croner::Cron, String>)
    ensures
        r is Ok <==> cron_accepts(s@),
        r is Ok ==> r->Ok_0 == cron_of(s@),
{
    s.parse::<croner::Cron>().map_err(|e| e.to_string())
}

/// Relies on croner's `CronComponent::get_set_values` with `ALL_BIT` (1)
/// on the six components of the pattern: the values of each field's range
/// whose bit is set, in increasing order.
#[verifier::external_body]
fn field_values(c: &croner::Cron) -> (r: Vec<Vec<u16>>)
    ensures
        r@.len() == 6,
        forall|f: int| 0 <= f < 6 ==> (#[trigger] r@[f])@ == field_values_of(*c, f),
        forall|f: int, i: int, j: int|
            0 <= f < 6 && 0 <= i < j < r@[f]@.len() ==> r@[f]@[i] < r@[f]@[j],
{
    let p = &c.pattern;
    vec![
        p.seconds.get_set_values(1),
        p.minutes.get_set_values(1),
        p.hours.get_set_values(1),
        p.days.get_set_values(1),
        p.months.get_set_values(1),
        p.days_of_week.get_set_values(1),
    ]
}

/// Relies on croner's `Cron::find_next_occurrence`, not inclusive, in the
/// local time zone: the next matching time as epoch seconds, if any.
#[verifier::external_body]
fn next_after(c: &croner::Cron, after: i64) -> Option<i64> {
    let start = Local.timestamp_opt(after, 0).single()?;
    c.find_next_occurrence(&start, false).ok().map(|t| t.timestamp())
}

fn is_blank_char(c: char) -> (r: bool)
    ensures
        r == is_blank(c),
{
    ('\u{9}' <= c && c <= '\u{d}') || c == ' ' || c == '\u{85}' || c == '\u{a0}' || c
        == '\u{1680}' || ('\u{2000}' <= c && c <= '\u{200a}') || c == '\u{2028}' || c
        == '\u{2029}' || c == '\u{202f}' || c == '\u{205f}' || c == '\u{3000}'
}

/// Counts the blank-separated fields of `s`.
pub fn count_fields(s: &str) -> (r: usize)
    ensures
        r == field_count(s@),
{
    let n = s.unicode_len();
    let mut count: usize = 0;
    let mut i: usize = 0;
    while i < n
        invariant
            n == s@.len(),
            i <= n,
            count == fields_before(s@, i as nat),
            count <= i,
        decreases n - i,
    {
        let c = s.get_char(i);
        if !is_blank_char(c) && (i == 0 || is_blank_char(s.get_char(i - 1))) {
            count = count + 1;
        }
        i = i + 1;
    }
    count
}

/// Brings an expression to six fields, or tells that it has neither five
/// nor six.
pub fn normalize(s: &str) -> (r: Option<String>)
    ensures
        match (r, normalized(s@)) {
            (Some(t), Some(u)) => t@ == u,
            (None, None) => true,
            _ => false,
        },
{
    let n = count_fields(s);
    if n == 5 {
        Some(String::from_str("0 ").concat(s))
    } else if n == 6 {
        Some(String::from_str(s))
    } else {
        None
    }
}

/// A parsed schedule and the six-field expression it was parsed from.
pub struct CrontabCommand {
    pub expression: String,
    pub cron: croner::Cron,
}

impl CrontabCommand {
    /// Parses an expression of five or six fields.
    pub fn new(expression: &str) -> (r: Result<CrontabCommand, CronError>)
        ensures
            normalized(expression@) is None <==> r matches Err(CronError::FieldCount),
            normalized(expression@) is Some ==> (r is Ok <==> cron_accepts(
                normalized(expression@)->Some_0,
            )),
            r is Ok ==> Some(r->Ok_0.expression@) == normalized(expression@) && r->Ok_0.cron
                == cron_of(r->Ok_0.expression@),
    {
        let text = match normalize(expression) {
            Some(t) => t,
            None => return Err(CronError::FieldCount),
        };
        match parse_cron(text.as_str()) {
            Ok(cron) => Ok(CrontabCommand { expression: text, cron }),
            Err(msg) => Err(CronError::Parse(msg)),
        }
    }

    /// For each of the six fields (seconds, minutes, hours, day of month,
    /// month, day of week), the values that it matches, in increasing order.
    pub fn fields(&self) -> (r: Vec<Vec<u16>>)
        ensures
            r@.len() == 6,
            forall|f: int| 0 <= f < 6 ==> (#[trigger] r@[f])@ == field_values_of(self.cron, f),
            forall|f: int, i: int, j: int|
                0 <= f < 6 && 0 <= i < j < r@[f]@.len() ==> r@[f]@[i] < r@[f]@[j],
    {
        field_values(&self.cron)
    }

    /// Up to `count` next times of the schedule after `now` (epoch
    /// seconds), in strictly increasing order. Each search starts from the
    /// last time found; see `next_step` for what is done with its result.
    pub fn upcoming(&self, now: i64, count: usize) -> (r: Vec<i64>)
        ensures
            r@.len() <= count,
            forall|i: int| 0 <= i < r@.len() ==> r@[i] > now,
            forall|i: int, j: int| 0 <= i < j < r@.len() ==> r@[i] < r@[j],
    {
        let mut r: Vec<i64> = Vec::new();
        let mut last = now;
        while r.len() < count
            invariant
                r@.len() <= count,
                r@.len() == 0 ==> last == now,
                r@.len() > 0 ==> last == r@[r@.len() - 1],
                forall|i: int| 0 <= i < r@.len() ==> r@[i] > now && r@[i] <= last,
                forall|i: int, j: int| 0 <= i < j < r@.len() ==> r@[i] < r@[j],
            decreases count - r@.len(),
        {
            let got = next_after(&self.cron, last);
            if !next_step(&mut r, last, got, count) {
                break;
            }
            last = r[r.len() - 1];
        }
        r
    }
}

/// One step of the search for upcoming times: `got` is what the search
/// after `last` found. It is kept, and the search goes on, exactly when it
/// lies after `last` and fewer than `count` times are held.
pub fn next_step(times: &mut Vec<i64>, last: i64, got: Option<i64>, count: usize) -> (more: bool)
    ensures
        more <==> (got matches Some(t) && t > last && old(times)@.len() < count),
        more ==> final(times)@ == old(times)@.push(got->Some_0),
        !more ==> final(times)@ == old(times)@,
{
    match got {
        Some(t) => {
            if t > last && times.len() < count {
                times.push(t);
                true
            } else {
                false
            }
        },
        None => false,
    }
}

/// The times, in the local time zone with their weekdays; `None` where one
/// of them lies outside the range of dates that can be rendered.
pub fn occurrence_lines(times: &Vec<i64>) -> (r: Option<Vec<String>>)
    ensures
        r is Some <==> forall|i: int| 0 <= i < times@.len() ==> utc_text_of(#[trigger] times@[i] as int, 0) is Some,
        r is Some ==> r->Some_0@.len() == times@.len(),
{
    let mut r: Vec<String> = Vec::new();
    let mut i: usize = 0;
    while i < times.len()
        invariant
            i <= times@.len(),
            r@.len() == i,
            forall|k: int| 0 <= k < i ==> utc_text_of(#[trigger] times@[k] as int, 0) is Some,
        decreases times@.len() - i,
    {
        match local_text(times[i], 0) {
            Some(t) => r.push(t),
            None => return None,
        }
        i = i + 1;
    }
    Some(r)
}

} // verus!
