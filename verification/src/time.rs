//! The clock and the local calendar. The current instant and the local
//! timezone come from outside; the rolling of an `HH:MM` wall-clock target
//! to its next future occurrence is decided here.
use vstd::prelude::*;
use vstd::string::StringExecFns;
use chrono::Days;
use chrono::Local;
use chrono::LocalResult;
use chrono::NaiveTime;
use chrono::TimeZone;
use chrono::Timelike;
use chrono::offset::Offset;

verus! {

/// Relies on std::time::SystemTime: milliseconds since the Unix epoch,
/// clamped to zero for a clock set before it.
#[verifier::external_body]
pub fn now_ms() -> (r: i64)
    ensures
        r >= 0,
{
    let duration = std::time::SystemTime::now().duration_since(std::time::UNIX_EPOCH)
        .unwrap_or(std::time::Duration::from_secs(0));
    i64::try_from(duration.as_millis()).unwrap_or(0)
}

/// What chrono::NaiveTime::parse_from_str makes of a string under the
/// pattern `"%H:%M"`: a pure function of the characters, named here.
pub uninterp spec fn spec_parse_hh_mm(s: Seq<char>) -> Option<(u8, u8)>;

/// Relies on chrono::NaiveTime::parse_from_str with `"%H:%M"`: parsing is a
/// pure function of the string, and a parsed time has an hour below 24 and
/// a minute below 60.
#[verifier::external_body]
fn parse_local_hh_mm(s: &str) -> (r: Option<(u8, u8)>)
    ensures
        r == spec_parse_hh_mm(s@),
        r matches Some(t) ==> t.0 < 24 && t.1 < 60,
{
    match NaiveTime::parse_from_str(s, "%H:%M") {
        Ok(t) => Some((t.hour() as u8, t.minute() as u8)),
        Err(_) => None,
    }
}

/// Relies on chrono::Local: the wall-clock time `hour:minute` on today's
/// date plus `day_offset` days, resolved in the current local timezone to
/// milliseconds since the epoch; `None` when the local calendar cannot
/// resolve it (a nonexistent time, or a date out of range). Of an ambiguous
/// time the earlier instant is taken. The result depends on the machine's
/// clock and timezone, so nothing more is promised.
#[verifier::external_body]
fn resolve_local_time_on_day(day_offset: u64, hour: u8, minute: u8) -> (r: Option<i64>) {
    let time = NaiveTime::from_hms_opt(hour as u32, minute as u32, 0)?;
    let date = Local::now().date_naive().checked_add_days(Days::new(day_offset))?;
    match Local.from_local_datetime(&date.and_time(time)) {
        LocalResult::Single(value) => Some(value.timestamp_millis()),
        LocalResult::Ambiguous(earliest, _) => Some(earliest.timestamp_millis()),
        LocalResult::None => None,
    }
}

/// Relies on chrono::Local: the current local offset from UTC in seconds,
/// which chrono keeps strictly within a day.
#[verifier::external_body]
pub fn current_utc_offset_seconds() -> (r: i32)
    ensures
        -86400 < r < 86400,
{
    Local::now().offset().fix().local_minus_utc()
}

/// Whole minutes of an offset given in seconds, truncated toward zero.
pub open spec fn spec_offset_minutes(sec: int) -> int {
    if sec >= 0 {
        sec / 60
    } else {
        -((-sec) / 60)
    }
}

pub fn offset_minutes(sec: i32) -> (r: i32)
    requires
        -86400 < sec < 86400,
    ensures
        r == spec_offset_minutes(sec as int),
{
    if sec >= 0 {
        ((sec as u32) / 60) as i32
    } else {
        let magnitude: u32 = (-sec) as u32;
        -((magnitude / 60) as i32)
    }
}

/// The current local offset from UTC in whole minutes.
pub fn current_utc_offset_minutes() -> (r: i32)
    ensures
        -1440 < r < 1440,
{
    let sec = current_utc_offset_seconds();
    offset_minutes(sec)
}

pub open spec fn spec_bad_target_format_error() -> Seq<char> {
    "target time must match HH:MM format"@
}

pub open spec fn spec_unresolvable_target_error() -> Seq<char> {
    "unable to resolve local target time"@
}

pub open spec fn spec_unresolvable_next_target_error() -> Seq<char> {
    "unable to resolve next local target time"@
}

/// The rolling decision itself, over the two resolved instants: today's
/// occurrence when it is still ahead of `now`, otherwise tomorrow's; an
/// unresolvable day is the corresponding error. This is the part of the
/// wall-clock target that is the library's to decide, and it is pinned
/// exactly; what instant a local wall-clock time denotes is the calendar's.
pub fn pick_next_target(today: Option<i64>, tomorrow: Option<i64>, now: i64) -> (r: Result<
    i64,
    String,
>)
    ensures
        match today {
            Some(t) => if t > now {
                r == Ok::<i64, String>(t)
            } else {
                match tomorrow {
                    Some(u) => r == Ok::<i64, String>(u),
                    None => r matches Err(e) && e@ == spec_unresolvable_next_target_error(),
                }
            },
            None => r matches Err(e) && e@ == spec_unresolvable_target_error(),
        },
{
    match today {
        None => Err(String::from_str("unable to resolve local target time")),
        Some(today_target) => {
            if today_target > now {
                Ok(today_target)
            } else {
                match tomorrow {
                    Some(tomorrow_target) => Ok(tomorrow_target),
                    None => Err(String::from_str("unable to resolve next local target time")),
                }
            }
        },
    }
}

/// Resolve an `HH:MM` wall-clock target to its next future occurrence in
/// local time. A string that does not parse is rejected with the format
/// error; the two candidate instants come from the local calendar, and what
/// is done with them is exactly `pick_next_target`'s contract: today's
/// occurrence when still ahead of `now`, else tomorrow's.
pub fn compute_next_local_target_ms(target_local_time: &str, now: i64) -> (r: Result<i64, String>)
    ensures
        spec_parse_hh_mm(target_local_time@) is None ==> (r matches Err(e) && e@
            == spec_bad_target_format_error()),
        r matches Err(e) ==> (spec_parse_hh_mm(target_local_time@) is Some ==> (e@
            == spec_unresolvable_target_error() || e@ == spec_unresolvable_next_target_error())),
        r is Ok ==> spec_parse_hh_mm(target_local_time@) is Some,
{
    let parsed = match parse_local_hh_mm(target_local_time) {
        Some(p) => p,
        None => {
            return Err(String::from_str("target time must match HH:MM format"));
        },
    };
    let (hour, minute) = parsed;
    let today = resolve_local_time_on_day(0, hour, minute);
    let tomorrow: Option<i64> = match today {
        Some(today_target) => {
            if today_target <= now {
                resolve_local_time_on_day(1, hour, minute)
            } else {
                None
            }
        },
        None => None,
    };
    pick_next_target(today, tomorrow, now)
}

} // verus!
