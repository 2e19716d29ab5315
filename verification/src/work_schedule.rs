//! Work hours: validating a schedule, and whether a local time of day lies
//! within it.  Times of day are parsed by chrono with the format `%H:%M`.

use vstd::prelude::*;
use crate::models::WorkSchedule;
use chrono::Timelike;

verus! {

/// What `chrono::NaiveTime::parse_from_str(s, "%H:%M")` gives for `s`: the
/// time's hour and minute, or chrono's error message.
pub uninterp spec fn chrono_hh_mm(s: Seq<char>) -> Result<(u32, u32), Seq<char>>;

/// Parses a `HH:MM` time of day with chrono
/// (`NaiveTime::parse_from_str(s, "%H:%M")`) and returns its hour and minute
/// (`Timelike::hour`, `Timelike::minute`), or chrono's error message
/// (`ParseError`'s display text).  The result is named `chrono_hh_mm`; a
/// `NaiveTime` has an hour below 24 and a minute below 60.
#[verifier::external_body]
pub(crate) fn parse_hh_mm(s: &str) -> (r: Result<(u32, u32), String>)
    ensures
        match r {
            Ok(t) => chrono_hh_mm(s@) == Ok::<(u32, u32), Seq<char>>(t) && t.0 < 24 && t.1 < 60,
            Err(e) => chrono_hh_mm(s@) == Err::<(u32, u32), Seq<char>>(e@),
        },
{
    match chrono::NaiveTime::parse_from_str(s, "%H:%M") {
        Ok(t) => Ok((t.hour(), t.minute())),
        Err(e) => Err(e.to_string()),
    }
}

/// The minute of the day of an hour and minute.
pub open spec fn minute_of_day(t: (u32, u32)) -> int {
    t.0 * 60 + t.1
}

/// The minute of the day of an hour and minute, below 1440.
fn minutes_since_midnight(t: (u32, u32)) -> (m: u32)
    requires
        t.0 < 24,
        t.1 < 60,
    ensures
        m == minute_of_day(t),
        m < 1440,
{
    t.0 * 60 + t.1
}

/// The time zone the system is set to (`iana_time_zone::get_timezone`),
/// `None` when it cannot be found.  It depends on the machine, so nothing is
/// stated of it.
#[verifier::external_body]
fn system_timezone_name() -> (r: Option<String>) {
    match iana_time_zone::get_timezone() {
        Ok(tz) => Some(tz),
        Err(_) => None,
    }
}

/// The local time of day now (`chrono::Local::now().time()`), as seconds
/// since midnight and the nanoseconds beyond them.  chrono keeps the seconds
/// below 86 400 and the nanoseconds below 2 000 000 000 (the excess marks a
/// leap second); which time it is stays unsaid.
#[verifier::external_body]
pub(crate) fn local_time_of_day() -> (r: (u32, u32))
    ensures
        r.0 < 86400,
        r.1 < 2_000_000_000,
{
    let t = chrono::Local::now().time();
    (t.num_seconds_from_midnight(), t.nanosecond())
}

/// The time zone found, or `local` when none was.
pub fn timezone_or_local(found: Option<String>) -> (tz: String)
    ensures
        match found {
            Some(t) => tz == t,
            None => tz@ == "local"@,
        },
{
    match found {
        Some(tz) => tz,
        None => String::from_str("local"),
    }
}

/// The time zone of the system, or `local` when it cannot be found (see
/// `timezone_or_local`).
pub fn get_system_timezone() -> (tz: String) {
    timezone_or_local(system_timezone_name())
}

/// A work schedule as the frontend sends it.
#[derive(Debug, Clone)]
pub struct WorkScheduleConfig {
    pub use_work_schedule: bool,
    pub work_start_time: Option<String>,
    pub work_end_time: Option<String>,
    pub timezone: Option<String>,
}

/// The verdict on a work schedule: none when it is off; else both times are
/// required and must parse, the end must come after the start, and the day
/// may not be longer than 16 hours.
pub open spec fn schedule_verdict(c: WorkScheduleConfig) -> Result<(), Seq<char>> {
    if !c.use_work_schedule {
        Ok(())
    } else {
        match (c.work_start_time, c.work_end_time) {
            (None, _) => Err("Start time is required when using work schedule"@),
            (Some(_), None) => Err("End time is required when using work schedule"@),
            (Some(s), Some(e)) => match (chrono_hh_mm(s@), chrono_hh_mm(e@)) {
                (Err(_), _) => Err("Invalid start time format: "@ + s@ + ". Expected HH:MM"@),
                (Ok(_), Err(_)) => Err("Invalid end time format: "@ + e@ + ". Expected HH:MM"@),
                (Ok(a), Ok(b)) => if minute_of_day(b) <= minute_of_day(a) {
                    Err("End time must be after start time"@)
                } else if minute_of_day(b) - minute_of_day(a) >= 17 * 60 {
                    Err("Work day cannot be longer than 16 hours"@)
                } else {
                    Ok(())
                },
            },
        }
    }
}

/// Validates a work schedule (see `schedule_verdict`).
pub fn validate_work_schedule(config: &WorkScheduleConfig) -> (r: Result<(), String>)
    ensures
        match r {
            Ok(()) => schedule_verdict(*config) == Ok::<(), Seq<char>>(()),
            Err(m) => schedule_verdict(*config) == Err::<(), Seq<char>>(m@),
        },
{
    if !config.use_work_schedule {
        return Ok(());
    }
    let start = match &config.work_start_time {
        Some(s) => s,
        None => {
            return Err(String::from_str("Start time is required when using work schedule"));
        },
    };
    let end = match &config.work_end_time {
        Some(e) => e,
        None => {
            return Err(String::from_str("End time is required when using work schedule"));
        },
    };
    let a = match parse_hh_mm(start.as_str()) {
        Ok(a) => minutes_since_midnight(a),
        Err(_) => {
            let mut m = String::from_str("Invalid start time format: ");
            m.append(start.as_str());
            m.append(". Expected HH:MM");
            return Err(m);
        },
    };
    let b = match parse_hh_mm(end.as_str()) {
        Ok(b) => minutes_since_midnight(b),
        Err(_) => {
            let mut m = String::from_str("Invalid end time format: ");
            m.append(end.as_str());
            m.append(". Expected HH:MM");
            return Err(m);
        },
    };
    if b <= a {
        return Err(String::from_str("End time must be after start time"));
    }
    if b - a >= 17 * 60 {
        return Err(String::from_str("Work day cannot be longer than 16 hours"));
    }
    Ok(())
}

/// Validates a pair of work hours as a schedule in use: `Ok(true)` when it
/// passes, else the verdict's message.
pub fn validate_work_hours(start_time: String, end_time: String) -> (r: Result<bool, String>)
    ensures
        match r {
            Ok(b) => b && schedule_verdict(
                WorkScheduleConfig {
                    use_work_schedule: true,
                    work_start_time: Some(start_time),
                    work_end_time: Some(end_time),
                    timezone: None,
                },
            ) == Ok::<(), Seq<char>>(()),
            Err(m) => schedule_verdict(
                WorkScheduleConfig {
                    use_work_schedule: true,
                    work_start_time: Some(start_time),
                    work_end_time: Some(end_time),
                    timezone: None,
                },
            ) == Err::<(), Seq<char>>(m@),
        },
{
    let config = WorkScheduleConfig {
        use_work_schedule: true,
        work_start_time: Some(start_time),
        work_end_time: Some(end_time),
        timezone: None,
    };
    match validate_work_schedule(&config) {
        Ok(()) => Ok(true),
        Err(e) => Err(e),
    }
}

/// The time zone to store with a schedule: the one given, else the
/// system's.
pub fn schedule_timezone(config: &WorkScheduleConfig) -> (tz: String)
    ensures
        config.timezone matches Some(t) ==> tz == t,
{
    match &config.timezone {
        Some(t) => t.clone(),
        None => get_system_timezone(),
    }
}

/// Whether the time of day `secs` seconds and `nanos` nanoseconds after
/// midnight lies within the hours from minute `start` to minute `end`, ends
/// included; when the end is not after the start the hours run overnight.
pub open spec fn within_hours(start: int, end: int, secs: u32, nanos: u32) -> bool {
    let after_start = secs >= start * 60;
    let before_end = secs < end * 60 || (secs == end * 60 && nanos == 0);
    if end > start {
        after_start && before_end
    } else {
        after_start || before_end
    }
}

/// The verdict on whether a time of day lies within a stored schedule:
/// always when no schedule is in use or a bound is missing; else both bounds
/// must parse (chrono's message otherwise) and the time must lie within them.
pub open spec fn within_verdict(s: WorkSchedule, secs: u32, nanos: u32) -> Result<bool, Seq<char>> {
    if !s.use_work_schedule {
        Ok(true)
    } else {
        match (s.work_start_time, s.work_end_time) {
            (Some(a), Some(b)) => match (chrono_hh_mm(a@), chrono_hh_mm(b@)) {
                (Err(e), _) => Err("Invalid start time format: "@ + e),
                (Ok(_), Err(e)) => Err("Invalid end time format: "@ + e),
                (Ok(x), Ok(y)) => Ok(within_hours(minute_of_day(x), minute_of_day(y), secs, nanos)),
            },
            _ => Ok(true),
        }
    }
}

/// A daytime schedule (its end after its start) holds exactly the times of
/// day at or after its start and at or before its end; an overnight one
/// (its end not after its start) holds the times at or after the start and
/// those at or before the end.  In particular a time after the end of a
/// daytime schedule, or before its start, is never within it.
pub proof fn law_work_hours_window(
    s: WorkSchedule,
    a: String,
    b: String,
    x: (u32, u32),
    y: (u32, u32),
    secs: u32,
    nanos: u32,
)
    requires
        s.use_work_schedule,
        s.work_start_time == Some(a),
        s.work_end_time == Some(b),
        chrono_hh_mm(a@) == Ok::<(u32, u32), Seq<char>>(x),
        chrono_hh_mm(b@) == Ok::<(u32, u32), Seq<char>>(y),
    ensures
        ({
            let start = (x.0 * 60 + x.1) * 60;
            let end = (y.0 * 60 + y.1) * 60;
            let at_or_after_start = secs >= start;
            let at_or_before_end = secs < end || (secs == end && nanos == 0);
            &&& end > start ==> within_verdict(s, secs, nanos) == Ok::<bool, Seq<char>>(
                at_or_after_start && at_or_before_end,
            )
            &&& end > start && secs > end ==> within_verdict(s, secs, nanos) == Ok::<bool, Seq<char>>(false)
            &&& end > start && secs < start ==> within_verdict(s, secs, nanos) == Ok::<bool, Seq<char>>(false)
            &&& end <= start ==> within_verdict(s, secs, nanos) == Ok::<bool, Seq<char>>(
                at_or_after_start || at_or_before_end,
            )
        }),
{
}

/// Whether the time of day `secs`/`nanos` lies within `schedule` (see
/// `within_verdict`).
pub fn is_within_work_hours_at(schedule: &WorkSchedule, secs: u32, nanos: u32) -> (r: Result<bool, String>)
    requires
        secs < 86400,
    ensures
        match r {
            Ok(b) => within_verdict(*schedule, secs, nanos) == Ok::<bool, Seq<char>>(b),
            Err(m) => within_verdict(*schedule, secs, nanos) == Err::<bool, Seq<char>>(m@),
        },
{
    if !schedule.use_work_schedule {
        return Ok(true);
    }
    let (a, b) = match (&schedule.work_start_time, &schedule.work_end_time) {
        (Some(a), Some(b)) => (a, b),
        _ => {
            return Ok(true);
        },
    };
    let x = match parse_hh_mm(a.as_str()) {
        Ok(x) => minutes_since_midnight(x),
        Err(e) => {
            let mut m = String::from_str("Invalid start time format: ");
            m.append(e.as_str());
            return Err(m);
        },
    };
    let y = match parse_hh_mm(b.as_str()) {
        Ok(y) => minutes_since_midnight(y),
        Err(e) => {
            let mut m = String::from_str("Invalid end time format: ");
            m.append(e.as_str());
            return Err(m);
        },
    };
    let after_start = secs >= x * 60;
    let before_end = secs < y * 60 || (secs == y * 60 && nanos == 0);
    if y > x {
        Ok(after_start && before_end)
    } else {
        Ok(after_start || before_end)
    }
}

/// Whether the local time now lies within `schedule` (see
/// `within_verdict`).
pub fn is_within_work_hours(schedule: &WorkSchedule) -> (r: Result<bool, String>)
    ensures
        !schedule.use_work_schedule ==> r == Ok::<bool, String>(true),
        exists|secs: u32, nanos: u32|
            match r {
                Ok(b) => #[trigger] within_verdict(*schedule, secs, nanos) == Ok::<bool, Seq<char>>(b),
                Err(m) => within_verdict(*schedule, secs, nanos) == Err::<bool, Seq<char>>(m@),
            },
{
    let (secs, nanos) = local_time_of_day();
    is_within_work_hours_at(schedule, secs, nanos)
}

} // verus!
