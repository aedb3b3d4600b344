//! Calendar triggers: cron schedules, and the date components that a native
//! calendar trigger matches.
use crate::error::NotificationError;
use crate::text::{append_decimal, append_padded, decimal, padded};
use core::str::FromStr;
use cron::{Schedule, TimeUnitSpec};
use vstd::prelude::*;
use vstd::string::StringExecFns;

verus! {

/// The schedule of the cron crate, carried as an opaque value.
#[verifier::external_type_specification]
#[verifier::external_body]
pub struct ExSchedule(cron::Schedule);

/// Relies on the derived `Clone` of `cron::Schedule`: the copy equals the
/// schedule copied.
#[verifier::external_body]
pub(crate) fn clone_schedule(s: &Schedule) -> (r: Schedule)
    ensures
        r == *s,
{
    s.clone()
}

/// What a cron schedule includes: for each unit of time, in the order
/// seconds, minutes, hours, days of the month, months, days of the week and
/// years, the values included, lowest first.
pub uninterp spec fn schedule_ordinals(s: Schedule) -> Seq<Seq<u32>>;

/// The schedule that the cron crate parses `pattern` into, or `None` where
/// it refuses the pattern.
pub uninterp spec fn parsed_schedule(pattern: Seq<char>) -> Option<Schedule>;

/// Whether the cron crate parses `pattern` into a schedule.
pub open spec fn cron_accepts(pattern: Seq<char>) -> bool {
    parsed_schedule(pattern) is Some
}

/// Relies on `cron::Schedule::from_str`: the schedule parsed depends on the
/// pattern alone.
#[verifier::external_body]
fn parse_schedule(pattern: &str) -> (r: Option<Schedule>)
    ensures
        r == parsed_schedule(pattern@),
{
    Schedule::from_str(pattern).ok()
}

/// Relies on `Schedule::seconds` and `TimeUnitSpec::iter`: the seconds included.
#[verifier::external_body]
fn seconds_of(s: &Schedule) -> (r: Vec<u32>)
    ensures
        r@ == schedule_ordinals(*s)[0],
{
    s.seconds().iter().collect()
}

/// Relies on `Schedule::minutes` and `TimeUnitSpec::iter`: the minutes included.
#[verifier::external_body]
fn minutes_of(s: &Schedule) -> (r: Vec<u32>)
    ensures
        r@ == schedule_ordinals(*s)[1],
{
    s.minutes().iter().collect()
}

/// Relies on `Schedule::hours` and `TimeUnitSpec::iter`: the hours included.
#[verifier::external_body]
fn hours_of(s: &Schedule) -> (r: Vec<u32>)
    ensures
        r@ == schedule_ordinals(*s)[2],
{
    s.hours().iter().collect()
}

/// Relies on `Schedule::days_of_month` and `TimeUnitSpec::iter`: the days of
/// the month included.
#[verifier::external_body]
fn days_of_month_of(s: &Schedule) -> (r: Vec<u32>)
    ensures
        r@ == schedule_ordinals(*s)[3],
{
    s.days_of_month().iter().collect()
}

/// Relies on `Schedule::months` and `TimeUnitSpec::iter`: the months included.
#[verifier::external_body]
fn months_of(s: &Schedule) -> (r: Vec<u32>)
    ensures
        r@ == schedule_ordinals(*s)[4],
{
    s.months().iter().collect()
}

/// Relies on `Schedule::days_of_week` and `TimeUnitSpec::iter`: the days of
/// the week included.
#[verifier::external_body]
fn days_of_week_of(s: &Schedule) -> (r: Vec<u32>)
    ensures
        r@ == schedule_ordinals(*s)[5],
{
    s.days_of_week().iter().collect()
}

/// Relies on `Schedule::years` and `TimeUnitSpec::iter`: the years included.
#[verifier::external_body]
fn years_of(s: &Schedule) -> (r: Vec<u32>)
    ensures
        r@ == schedule_ordinals(*s)[6],
{
    s.years().iter().collect()
}

/// How many values each unit of time can take in a cron schedule, in the
/// order of `schedule_ordinals`.
pub open spec fn unit_span(unit: int) -> nat {
    if unit == 0 || unit == 1 {
        60
    } else if unit == 2 {
        24
    } else if unit == 3 {
        31
    } else if unit == 4 {
        12
    } else if unit == 5 {
        7
    } else {
        131
    }
}

/// The one value that a unit of time must match, if it does not match all:
/// `Ok(None)` where every value is included, `Ok(Some(v))` where `v` is the
/// only one, and an error otherwise.
pub open spec fn single_value(values: Seq<u32>, span: nat) -> Result<Option<u32>, ()> {
    if values.len() == span {
        Ok(None)
    } else if values.len() == 1 {
        Ok(Some(values[0]))
    } else {
        Err(())
    }
}

fn single_of(values: Vec<u32>, span: usize) -> (r: Result<Option<u32>, NotificationError>)
    ensures
        single_value(values@, span as nat) is Ok <==> r is Ok,
        r is Ok ==> r->Ok_0 == single_value(values@, span as nat)->Ok_0,
        r is Err ==> r->Err_0 is UnsupportedCronPattern,
{
    if values.len() == span {
        Ok(None)
    } else if values.len() == 1 {
        Ok(Some(values[0]))
    } else {
        Err(NotificationError::UnsupportedCronPattern)
    }
}

/// The date components that a native calendar trigger matches; a component
/// that is `None` matches every value.
#[derive(Copy, Clone, Debug, PartialEq, Eq, Structural)]
pub struct DateComponents {
    pub year: Option<u32>,
    pub month: Option<u32>,
    pub day: Option<u32>,
    pub hour: Option<u32>,
    pub minute: Option<u32>,
    pub second: Option<u32>,
    /// The day of the week, 1 for Sunday to 7 for Saturday.
    pub weekday: Option<u32>,
}

/// The components matched by a calendar trigger on the schedule `s`, where
/// each unit of time of `s` includes one value or all of them.
pub open spec fn schedule_components(s: Schedule) -> Option<DateComponents> {
    let o = schedule_ordinals(s);
    let units = Seq::new(7, |u: int| single_value(o[u], unit_span(u)));
    if forall|u: int| 0 <= u < 7 ==> units[u] is Ok {
        Some(
            DateComponents {
                second: units[0]->Ok_0,
                minute: units[1]->Ok_0,
                hour: units[2]->Ok_0,
                day: units[3]->Ok_0,
                month: units[4]->Ok_0,
                weekday: units[5]->Ok_0,
                year: units[6]->Ok_0,
            },
        )
    } else {
        None
    }
}

/// The date components that a calendar trigger on `s` matches.
///
/// Each unit of time must include one value or all of them: a schedule with
/// ranges, lists or steps is refused.
pub fn components_of(s: &Schedule) -> (r: Result<DateComponents, NotificationError>)
    ensures
        r is Ok <==> schedule_components(*s) is Some,
        r is Ok ==> r->Ok_0 == schedule_components(*s)->0,
        r is Err ==> r->Err_0 is UnsupportedCronPattern,
{
    let ghost o = schedule_ordinals(*s);
    let ghost units = Seq::new(7, |u: int| single_value(o[u], unit_span(u)));
    let year = single_of(years_of(s), 131)?;
    let month = single_of(months_of(s), 12)?;
    let day = single_of(days_of_month_of(s), 31)?;
    let hour = single_of(hours_of(s), 24)?;
    let minute = single_of(minutes_of(s), 60)?;
    let second = single_of(seconds_of(s), 60)?;
    let weekday = single_of(days_of_week_of(s), 7)?;
    assert(forall|u: int| 0 <= u < 7 ==> units[u] is Ok);
    Ok(DateComponents { year, month, day, hour, minute, second, weekday })
}

/// A date and time of day on the local clock.
#[derive(Copy, Clone, Debug, PartialEq, Eq, Structural)]
pub struct LocalDateTime {
    pub year: u32,
    /// The month, 1 for January to 12 for December.
    pub month: u32,
    /// The day of the month, from 1.
    pub day: u32,
    pub hour: u32,
    pub minute: u32,
    pub second: u32,
}

impl LocalDateTime {
    /// Each field lies in the range that a calendar gives it, and the year
    /// has at most four digits.
    pub open spec fn wf(&self) -> bool {
        &&& self.year <= 9999
        &&& 1 <= self.month <= 12
        &&& 1 <= self.day <= 31
        &&& self.hour < 24
        &&& self.minute < 60
        &&& self.second < 60
    }
}

/// The English abbreviation of month `m`.
pub open spec fn month_abbreviation(m: u32) -> Seq<char> {
    if m == 1 { "Jan"@ } else if m == 2 { "Feb"@ } else if m == 3 { "Mar"@ }
    else if m == 4 { "Apr"@ } else if m == 5 { "May"@ } else if m == 6 { "Jun"@ }
    else if m == 7 { "Jul"@ } else if m == 8 { "Aug"@ } else if m == 9 { "Sep"@ }
    else if m == 10 { "Oct"@ } else if m == 11 { "Nov"@ } else { "Dec"@ }
}

/// The cron pattern that matches the second `d` alone: seconds, minutes and
/// hours in two digits, the day, the month's abbreviation, any day of the
/// week, and the year in four digits.
pub open spec fn pattern_of(d: LocalDateTime) -> Seq<char> {
    padded(d.second as nat, 2) + " "@ + padded(d.minute as nat, 2) + " "@ + padded(d.hour as nat, 2)
        + " "@ + decimal(d.day as nat) + " "@ + month_abbreviation(d.month) + " * "@ + padded(
        d.year as nat,
        4,
    )
}

fn month_str(m: u32) -> (r: &'static str)
    ensures
        r@ == month_abbreviation(m),
{
    if m == 1 { "Jan" } else if m == 2 { "Feb" } else if m == 3 { "Mar" }
    else if m == 4 { "Apr" } else if m == 5 { "May" } else if m == 6 { "Jun" }
    else if m == 7 { "Jul" } else if m == 8 { "Aug" } else if m == 9 { "Sep" }
    else if m == 10 { "Oct" } else if m == 11 { "Nov" } else { "Dec" }
}

/// The cron pattern that matches the second `d` alone.
pub fn schedule_pattern(d: LocalDateTime) -> (r: String)
    requires
        d.wf(),
    ensures
        r@ == pattern_of(d),
{
    let mut s = String::new();
    append_padded(&mut s, d.second as u64, 2);
    s.append(" ");
    append_padded(&mut s, d.minute as u64, 2);
    s.append(" ");
    append_padded(&mut s, d.hour as u64, 2);
    s.append(" ");
    append_decimal(&mut s, d.day as u64);
    s.append(" ");
    s.append(month_str(d.month));
    s.append(" * ");
    append_padded(&mut s, d.year as u64, 4);
    assert(s@ =~= pattern_of(d));
    s
}

/// The cron schedule that fires at the second `d` alone: `None` where `d` is
/// not a valid date, or the cron crate refuses its pattern.
pub fn datetime_to_schedule(d: LocalDateTime) -> (r: Option<Schedule>)
    ensures
        r is Some <==> d.wf() && cron_accepts(pattern_of(d)),
        r is Some ==> r == parsed_schedule(pattern_of(d)),
{
    if !(d.year <= 9999 && 1 <= d.month && d.month <= 12 && 1 <= d.day && d.day <= 31 && d.hour
        < 24 && d.minute < 60 && d.second < 60) {
        return None;
    }
    let pattern = schedule_pattern(d);
    parse_schedule(pattern.as_str())
}

} // verus!
