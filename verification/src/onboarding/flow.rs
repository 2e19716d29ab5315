//! The onboarding commands: moving through the steps with validated data,
//! finishing the flow, turning the collected configuration into settings,
//! and the configuration health report.

use vstd::prelude::*;
use crate::models::UserSettings;
use crate::onboarding::json::JsonValue;
use crate::onboarding::validation::{
    config_errors, flag_of, low_i32, low_i32_exec, message_spec, opt_flag, opt_str, opt_u64,
    step_errors, str_of, u64_of, validate_step_data, views, OnboardingValidator, ValidationError,
    ValidationErrorView,
};
use crate::onboarding::{step_after, step_before, OnboardingManager, OnboardingStep};
use crate::work_schedule::WorkScheduleConfig;

verus! {

impl OnboardingStep {
    /// The step's name (as `Debug` writes it).
    pub open spec fn name(self) -> Seq<char> {
        match self {
            OnboardingStep::Welcome => "Welcome"@,
            OnboardingStep::WorkHours => "WorkHours"@,
            OnboardingStep::CycleConfig => "CycleConfig"@,
            OnboardingStep::StrictMode => "StrictMode"@,
            OnboardingStep::Summary => "Summary"@,
            OnboardingStep::Complete => "Complete"@,
        }
    }

    /// The step's name.
    pub fn as_str(&self) -> (s: &'static str)
        ensures
            s@ == self.name(),
    {
        match self {
            OnboardingStep::Welcome => "Welcome",
            OnboardingStep::WorkHours => "WorkHours",
            OnboardingStep::CycleConfig => "CycleConfig",
            OnboardingStep::StrictMode => "StrictMode",
            OnboardingStep::Summary => "Summary",
            OnboardingStep::Complete => "Complete",
        }
    }
}

/// The texts of `parts` joined with `sep` between them.
pub open spec fn joined(parts: Seq<Seq<char>>, sep: Seq<char>) -> Seq<char>
    decreases parts.len(),
{
    if parts.len() == 0 {
        seq![]
    } else if parts.len() == 1 {
        parts[0]
    } else {
        joined(parts.drop_last(), sep) + sep + parts.last()
    }
}

/// The display texts of a list of errors.
pub open spec fn messages(errs: Seq<ValidationErrorView>) -> Seq<Seq<char>> {
    errs.map_values(|e: ValidationErrorView| message_spec(e))
}

/// The display texts of `errs` joined with `sep`.
pub fn join_messages(errs: &Vec<ValidationError>, sep: &str) -> (s: String)
    ensures
        s@ == joined(messages(views(errs@)), sep@),
{
    let mut s = String::new();
    let mut i: usize = 0;
    while i < errs.len()
        invariant
            i <= errs.len(),
            s@ == joined(messages(views(errs@.subrange(0, i as int))), sep@),
        decreases errs.len() - i,
    {
        let ghost prev = messages(views(errs@.subrange(0, i as int)));
        let m = errs[i].to_message();
        if i > 0 {
            s.append(sep);
        }
        s.append(m.as_str());
        let ghost next = messages(views(errs@.subrange(0, i + 1)));
        assert(next.drop_last() =~= prev);
        assert(next.last() == m@);
        i = i + 1;
    }
    assert(errs@.subrange(0, errs.len() as int) =~= errs@);
    s
}

/// `prefix` followed by the messages of `errs` joined with `sep`.
pub open spec fn failure_text(prefix: Seq<char>, errs: Seq<ValidationErrorView>, sep: Seq<char>) -> Seq<char> {
    prefix + joined(messages(errs), sep)
}

fn failure_message(prefix: &str, errs: &Vec<ValidationError>, sep: &str) -> (s: String)
    ensures
        s@ == failure_text(prefix@, views(errs@), sep@),
{
    let mut s = String::from_str(prefix);
    let j = join_messages(errs, sep);
    s.append(j.as_str());
    s
}

/// Data handed to a step is stored when it is there and not `null`.
pub open spec fn carries_data(d: Option<JsonValue>) -> bool {
    d matches Some(v) && !(v is Null)
}

/// Moves the flow on by one step, first validating and storing the data
/// entered at the current step.  Invalid data stops the move with the
/// messages of its errors; a move beyond the last step fails.
pub fn advance_onboarding(manager: &mut OnboardingManager, step_data: Option<JsonValue>) -> (r: Result<OnboardingStep, String>)
    ensures
        ({
            let cur = old(manager).step();
            if carries_data(step_data) && step_errors(cur.name(), step_data->0).len() > 0 {
                &&& r matches Err(m) && m@ == failure_text(
                    "Validation failed: "@,
                    step_errors(cur.name(), step_data->0),
                    ", "@,
                )
                &&& final(manager).step() == cur
                &&& final(manager).data() == old(manager).data()
            } else {
                &&& final(manager).data() == (if carries_data(step_data) {
                    old(manager).data().insert(cur, step_data->0)
                } else {
                    old(manager).data()
                })
                &&& match step_after(cur) {
                    Some(n) => r == Ok::<OnboardingStep, String>(n) && final(manager).step() == n,
                    None => r matches Err(m) && m@ == "Navigation failed: "@ + "Onboarding already completed"@
                        && final(manager).step() == cur,
                }
            }
        }),
{
    let current = *manager.get_current_step();
    match step_data {
        Some(data) => {
            if !data.is_null() {
                match validate_step_data(current.as_str(), &data) {
                    Err(errs) => {
                        return Err(failure_message("Validation failed: ", &errs, ", "));
                    },
                    Ok(()) => {},
                }
                let _ = manager.set_step_data(current, data);
            }
        },
        None => {},
    }
    match manager.next_step() {
        Ok(n) => Ok(n),
        Err(e) => {
            let mut m = String::from_str("Navigation failed: ");
            m.append(e.as_str());
            Err(m)
        },
    }
}

/// Moves the flow back by one step; the first step has none before it.
pub fn retreat_onboarding(manager: &mut OnboardingManager) -> (r: Result<OnboardingStep, String>)
    ensures
        final(manager).data() == old(manager).data(),
        match step_before(old(manager).step()) {
            Some(p) => r == Ok::<OnboardingStep, String>(p) && final(manager).step() == p,
            None => r matches Err(m) && m@
                == "Backward navigation failed: "@ + "Cannot go back from welcome step"@
                && final(manager).step() == old(manager).step(),
        },
{
    match manager.previous_step() {
        Ok(p) => Ok(p),
        Err(e) => {
            let mut m = String::from_str("Backward navigation failed: ");
            m.append(e.as_str());
            Err(m)
        },
    }
}

/// Validates a complete configuration: `Ok` when it has no error, else the
/// messages of its errors after `prefix`, joined with `; `.
pub fn check_configuration(config: &JsonValue, prefix: &str) -> (r: Result<(), String>)
    ensures
        match r {
            Ok(()) => config_errors(*config).len() == 0,
            Err(m) => config_errors(*config).len() > 0 && m@ == failure_text(
                prefix@,
                config_errors(*config),
                "; "@,
            ),
        },
{
    let mut validator = OnboardingValidator::new();
    match validator.validate_configuration(config) {
        Ok(()) => Ok(()),
        Err(errs) => Err(failure_message(prefix, &errs, "; ")),
    }
}

/// Validates a complete configuration, reporting `Validation errors: ` and
/// the messages.
pub fn validate_onboarding_config(config: &JsonValue) -> (r: Result<(), String>)
    ensures
        match r {
            Ok(()) => config_errors(*config).len() == 0,
            Err(m) => config_errors(*config).len() > 0 && m@ == failure_text(
                "Validation errors: "@,
                config_errors(*config),
                "; "@,
            ),
        },
{
    check_configuration(config, "Validation errors: ")
}

/// Validates the data of one step, reporting `Step validation errors: ` and
/// the messages.
pub fn validate_step_config(step: &str, step_data: &JsonValue) -> (r: Result<(), String>)
    ensures
        match r {
            Ok(()) => step_errors(step@, *step_data).len() == 0,
            Err(m) => step_errors(step@, *step_data).len() > 0 && m@ == failure_text(
                "Step validation errors: "@,
                step_errors(step@, *step_data),
                "; "@,
            ),
        },
{
    match validate_step_data(step, step_data) {
        Ok(()) => Ok(()),
        Err(errs) => Err(failure_message("Step validation errors: ", &errs, "; ")),
    }
}

/// Stores the final configuration as the data of the last step and, when
/// the flow is not complete yet, moves it on by one step.
pub fn finish_onboarding(manager: &mut OnboardingManager, final_config: JsonValue) -> (r: Result<(), String>)
    ensures
        r is Ok,
        final(manager).data() == old(manager).data().insert(OnboardingStep::Complete, final_config),
        final(manager).step() == (if old(manager).step() == OnboardingStep::Complete {
            OnboardingStep::Complete
        } else {
            step_after(old(manager).step())->0
        }),
{
    let _ = manager.set_step_data(OnboardingStep::Complete, final_config);
    if !manager.is_complete() {
        let _ = manager.next_step();
    }
    Ok(())
}

/// A duration in minutes from the configuration (or `default`), as `i32`.
pub open spec fn minutes_of(config: JsonValue, key: Seq<char>, default: u64) -> i32 {
    low_i32(
        match u64_of(config.get_spec(key)) {
            Some(n) => n,
            None => default,
        },
    )
}

/// The durations of the configuration fit in seconds as `i32`.
pub open spec fn durations_fit(config: JsonValue) -> bool {
    &&& i32::MIN <= minutes_of(config, "focusDuration"@, 25) * 60 <= i32::MAX
    &&& i32::MIN <= minutes_of(config, "breakDuration"@, 5) * 60 <= i32::MAX
    &&& i32::MIN <= minutes_of(config, "longBreakDuration"@, 15) * 60 <= i32::MAX
}

fn minutes_exec(config: &JsonValue, key: &str, default: u64) -> (m: i32)
    ensures
        m == minutes_of(*config, key@, default),
{
    match opt_u64(config.get(key)) {
        Some(n) => low_i32_exec(n),
        None => low_i32_exec(default),
    }
}

/// Whether the durations of the configuration fit (see `durations_fit`).
pub fn onboarding_durations_fit(config: &JsonValue) -> (b: bool)
    ensures
        b == durations_fit(*config),
{
    let f = minutes_exec(config, "focusDuration", 25) as i64;
    let b = minutes_exec(config, "breakDuration", 5) as i64;
    let l = minutes_exec(config, "longBreakDuration", 15) as i64;
    let lo: i64 = -2147483648;
    let hi: i64 = 2147483647;
    lo <= f * 60 && f * 60 <= hi && lo <= b * 60 && b * 60 <= hi && lo <= l * 60 && l * 60 <= hi
}

/// Optional strings as character sequences.
pub open spec fn opt_view(o: Option<String>) -> Option<Seq<char>> {
    match o {
        Some(s) => Some(s@),
        None => None,
    }
}

fn opt_string(o: Option<&str>) -> (r: Option<String>)
    ensures
        opt_view(r) == match o {
            Some(s) => Some(s@),
            None => None::<Seq<char>>,
        },
{
    match o {
        Some(s) => Some(s.to_string()),
        None => None,
    }
}

/// The settings the onboarding configuration describes, on top of
/// `existing` and stamped `now`: the durations (minutes, defaulting to 25,
/// 5 and 15) become seconds, the long break period defaults to 4, strict
/// mode to off, and the name and emergency key are taken as given.
pub fn settings_from_onboarding(config: &JsonValue, existing: UserSettings, now: i64) -> (s: UserSettings)
    requires
        durations_fit(*config),
    ensures
        s.focus_duration == minutes_of(*config, "focusDuration"@, 25) * 60,
        s.short_break_duration == minutes_of(*config, "breakDuration"@, 5) * 60,
        s.long_break_duration == minutes_of(*config, "longBreakDuration"@, 15) * 60,
        s.cycles_per_long_break_v2 == minutes_of(*config, "cyclesPerLongBreak"@, 4),
        s.strict_mode == flag_of(config.get_spec("strictMode"@)),
        opt_view(s.user_name) == str_of(config.get_spec("userName"@)),
        opt_view(s.emergency_key_combination) == str_of(config.get_spec("emergencyKey"@)),
        s.updated_at == now,
        s.id == existing.id,
        s.cycles_per_long_break == existing.cycles_per_long_break,
        s.pre_alert_seconds == existing.pre_alert_seconds,
        s.pin_hash == existing.pin_hash,
        s.break_transition_seconds == existing.break_transition_seconds,
        s.created_at == existing.created_at,
{
    let focus = minutes_exec(config, "focusDuration", 25) * 60;
    let brk = minutes_exec(config, "breakDuration", 5) * 60;
    let long = minutes_exec(config, "longBreakDuration", 15) * 60;
    let cycles = minutes_exec(config, "cyclesPerLongBreak", 4);
    let strict = opt_flag(config.get("strictMode"));
    let user_name = opt_string(opt_str(config.get("userName")));
    let key = opt_string(opt_str(config.get("emergencyKey")));
    UserSettings {
        focus_duration: focus,
        short_break_duration: brk,
        long_break_duration: long,
        cycles_per_long_break_v2: cycles,
        strict_mode: strict,
        user_name,
        emergency_key_combination: key,
        updated_at: now,
        ..existing
    }
}

/// The work schedule the onboarding configuration describes, when it has
/// one: in use only when `useWorkSchedule` is `true`, with the given times,
/// in the local time zone.
pub fn work_schedule_from_onboarding(config: &JsonValue) -> (w: Option<WorkScheduleConfig>)
    ensures
        match config.get_spec("workSchedule"@) {
            None => w is None,
            Some(ws) => w matches Some(c) && {
                &&& c.use_work_schedule == flag_of(ws.get_spec("useWorkSchedule"@))
                &&& opt_view(c.work_start_time) == str_of(ws.get_spec("workStartTime"@))
                &&& opt_view(c.work_end_time) == str_of(ws.get_spec("workEndTime"@))
                &&& opt_view(c.timezone) == Some("local"@)
            },
        },
{
    match config.get("workSchedule") {
        None => None,
        Some(ws) => Some(
            WorkScheduleConfig {
                use_work_schedule: opt_flag(ws.get("useWorkSchedule")),
                work_start_time: opt_string(opt_str(ws.get("workStartTime"))),
                work_end_time: opt_string(opt_str(ws.get("workEndTime"))),
                timezone: Some(String::from_str("local")),
            },
        ),
    }
}

/// The configuration health report: an overall status, the checks that
/// could be made, and the warnings and errors found.
#[derive(Debug, Clone)]
pub struct HealthReport {
    pub status: String,
    pub checks: Vec<(String, bool)>,
    pub warnings: Vec<String>,
    pub errors: Vec<String>,
}

/// The checks of a health report from what the three probes gave.
pub open spec fn health_checks(onboarding: Result<bool, String>, settings: Result<bool, String>, database: Result<(), String>) -> Seq<(Seq<char>, bool)> {
    (match onboarding {
        Ok(c) => seq![("onboarding_completed"@, c)],
        Err(_) => seq![],
    }) + (match settings {
        Ok(e) => seq![("user_settings_exist"@, e)],
        Err(_) => seq![],
    }) + (match database {
        Ok(_) => seq![("database_accessible"@, true)],
        Err(_) => seq![],
    })
}

/// The warnings of a health report.
pub open spec fn health_warnings(onboarding: Result<bool, String>, settings: Result<bool, String>) -> Seq<Seq<char>> {
    (match onboarding {
        Ok(false) => seq!["Onboarding not completed"@],
        _ => seq![],
    }) + (match settings {
        Ok(false) => seq!["No user settings found"@],
        _ => seq![],
    })
}

/// The errors of a health report.
pub open spec fn health_errors(onboarding: Result<bool, String>, settings: Result<bool, String>, database: Result<(), String>) -> Seq<Seq<char>> {
    (match onboarding {
        Err(e) => seq!["Failed to check onboarding status: "@ + e@],
        Ok(_) => seq![],
    }) + (match settings {
        Err(e) => seq!["Failed to check user settings: "@ + e@],
        Ok(_) => seq![],
    }) + (match database {
        Err(e) => seq!["Database access error: "@ + e@],
        Ok(_) => seq![],
    })
}

/// The overall status: `error` with any error, else `warning` with any
/// warning, else `healthy`.
pub open spec fn health_status(errors: Seq<Seq<char>>, warnings: Seq<Seq<char>>) -> Seq<char> {
    if errors.len() > 0 {
        "error"@
    } else if warnings.len() > 0 {
        "warning"@
    } else {
        "healthy"@
    }
}

/// Strings of a list, as character sequences.
pub open spec fn texts(v: Seq<String>) -> Seq<Seq<char>> {
    v.map_values(|s: String| s@)
}

/// Checks of a report, with their names as character sequences.
pub open spec fn check_texts(v: Seq<(String, bool)>) -> Seq<(Seq<char>, bool)> {
    v.map_values(|c: (String, bool)| (c.0@, c.1))
}

fn prefixed(prefix: &str, e: &String) -> (s: String)
    ensures
        s@ == prefix@ + e@,
{
    let mut s = String::from_str(prefix);
    s.append(e.as_str());
    s
}

/// The health report from whether onboarding is complete, whether user
/// settings exist, and whether the database statistics could be read (each
/// an error message when the probe failed).
pub fn health_report(onboarding: &Result<bool, String>, settings: &Result<bool, String>, database: &Result<(), String>) -> (h: HealthReport)
    ensures
        check_texts(h.checks@) == health_checks(*onboarding, *settings, *database),
        texts(h.warnings@) == health_warnings(*onboarding, *settings),
        texts(h.errors@) == health_errors(*onboarding, *settings, *database),
        h.status@ == health_status(texts(h.errors@), texts(h.warnings@)),
{
    let mut checks: Vec<(String, bool)> = Vec::new();
    let mut warnings: Vec<String> = Vec::new();
    let mut errors: Vec<String> = Vec::new();
    match onboarding {
        Ok(c) => {
            checks.push((String::from_str("onboarding_completed"), *c));
            if !*c {
                warnings.push(String::from_str("Onboarding not completed"));
            }
        },
        Err(e) => {
            errors.push(prefixed("Failed to check onboarding status: ", e));
        },
    }
    let ghost (c1, w1, e1) = (check_texts(checks@), texts(warnings@), texts(errors@));
    match settings {
        Ok(x) => {
            checks.push((String::from_str("user_settings_exist"), *x));
            if !*x {
                warnings.push(String::from_str("No user settings found"));
            }
        },
        Err(e) => {
            errors.push(prefixed("Failed to check user settings: ", e));
        },
    }
    let ghost (c2, e2) = (check_texts(checks@), texts(errors@));
    match database {
        Ok(_) => {
            checks.push((String::from_str("database_accessible"), true));
        },
        Err(e) => {
            errors.push(prefixed("Database access error: ", e));
        },
    }
    assert(check_texts(checks@) =~= health_checks(*onboarding, *settings, *database));
    assert(texts(warnings@) =~= health_warnings(*onboarding, *settings));
    assert(texts(errors@) =~= health_errors(*onboarding, *settings, *database));
    let status = if errors.len() > 0 {
        String::from_str("error")
    } else if warnings.len() > 0 {
        String::from_str("warning")
    } else {
        String::from_str("healthy")
    };
    HealthReport { status, checks, warnings, errors }
}

} // verus!
