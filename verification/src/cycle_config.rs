//! The settings commands: cycle lengths, the pre-alert, and saving the
//! frontend's settings over the stored ones.  Durations the user edits are
//! in minutes; stored durations are in seconds.

use vstd::prelude::*;
use crate::api_models::{div_toward_zero, wrap_i32, UserSettings as ApiUserSettings};
use crate::models::UserSettings;

verus! {

/// The cycle lengths as the user edits them (minutes).
#[derive(Debug, Clone, Copy, PartialEq, Eq, Structural)]
pub struct CycleConfig {
    pub focus_duration: i32,
    pub break_duration: i32,
    pub long_break_duration: i32,
    pub cycles_per_long_break: i32,
}

/// Strict mode as the user edits it.
#[derive(Debug, Clone)]
pub struct StrictModeConfig {
    pub strict_mode: bool,
    pub emergency_key_combination: Option<String>,
}

/// The pre-alert as the user edits it.
#[derive(Debug, Clone, Copy, PartialEq, Eq, Structural)]
pub struct PreAlertConfig {
    pub pre_alert_seconds: i32,
    pub enabled: bool,
}

/// The verdict on cycle lengths: focus 1 to 120 minutes, break 1 to 60,
/// long break 1 to 120, 1 to 10 cycles before a long break, and a long
/// break longer than a break; the first rule broken is reported.
pub open spec fn cycle_config_verdict(c: CycleConfig) -> Result<(), Seq<char>> {
    if c.focus_duration < 1 || c.focus_duration > 120 {
        Err("Focus duration must be between 1 and 120 minutes"@)
    } else if c.break_duration < 1 || c.break_duration > 60 {
        Err("Break duration must be between 1 and 60 minutes"@)
    } else if c.long_break_duration < 1 || c.long_break_duration > 120 {
        Err("Long break duration must be between 1 and 120 minutes"@)
    } else if c.cycles_per_long_break < 1 || c.cycles_per_long_break > 10 {
        Err("Cycles per long break must be between 1 and 10"@)
    } else if c.long_break_duration <= c.break_duration {
        Err("Long break duration must be longer than regular break duration"@)
    } else {
        Ok(())
    }
}

/// Validates cycle lengths (see `cycle_config_verdict`).
pub fn validate_cycle_config(config: &CycleConfig) -> (r: Result<(), String>)
    ensures
        match r {
            Ok(()) => cycle_config_verdict(*config) == Ok::<(), Seq<char>>(()),
            Err(m) => cycle_config_verdict(*config) == Err::<(), Seq<char>>(m@),
        },
{
    if config.focus_duration < 1 || config.focus_duration > 120 {
        return Err(String::from_str("Focus duration must be between 1 and 120 minutes"));
    }
    if config.break_duration < 1 || config.break_duration > 60 {
        return Err(String::from_str("Break duration must be between 1 and 60 minutes"));
    }
    if config.long_break_duration < 1 || config.long_break_duration > 120 {
        return Err(String::from_str("Long break duration must be between 1 and 120 minutes"));
    }
    if config.cycles_per_long_break < 1 || config.cycles_per_long_break > 10 {
        return Err(String::from_str("Cycles per long break must be between 1 and 10"));
    }
    if config.long_break_duration <= config.break_duration {
        return Err(
            String::from_str("Long break duration must be longer than regular break duration"),
        );
    }
    Ok(())
}

/// The stored form of cycle lengths: focus, break and long break in
/// seconds, and the cycle count.
pub open spec fn stored_lengths(c: CycleConfig) -> (int, int, int, int) {
    (c.focus_duration * 60, c.break_duration * 60, c.long_break_duration * 60, c.cycles_per_long_break as int)
}

/// Cycle lengths read back from stored seconds: whole minutes, rounded
/// toward zero.
pub open spec fn lengths_from_stored(focus: int, short_break: int, long_break: int, cycles: int) -> CycleConfig {
    CycleConfig {
        focus_duration: div_toward_zero(focus, 60) as i32,
        break_duration: div_toward_zero(short_break, 60) as i32,
        long_break_duration: div_toward_zero(long_break, 60) as i32,
        cycles_per_long_break: cycles as i32,
    }
}

/// The stored form of valid cycle lengths (see `stored_lengths`).
pub fn cycle_config_seconds(config: &CycleConfig) -> (s: (i32, i32, i32, i32))
    requires
        cycle_config_verdict(*config) == Ok::<(), Seq<char>>(()),
    ensures
        (s.0 as int, s.1 as int, s.2 as int, s.3 as int) == stored_lengths(*config),
{
    (
        config.focus_duration * 60,
        config.break_duration * 60,
        config.long_break_duration * 60,
        config.cycles_per_long_break,
    )
}

/// Cycle lengths from the stored seconds (see `lengths_from_stored`).
pub fn cycle_config_from_stored(focus: i32, short_break: i32, long_break: i32, cycles: i32) -> (c: CycleConfig)
    ensures
        c == lengths_from_stored(focus as int, short_break as int, long_break as int, cycles as int),
{
    CycleConfig {
        focus_duration: minutes(focus),
        break_duration: minutes(short_break),
        long_break_duration: minutes(long_break),
        cycles_per_long_break: cycles,
    }
}

fn minutes(seconds: i32) -> (m: i32)
    ensures
        m == div_toward_zero(seconds as int, 60),
{
    if seconds >= 0 {
        seconds / 60
    } else {
        let p: i64 = -(seconds as i64);
        (-(p / 60)) as i32
    }
}

/// The stored form of a pre-alert: its seconds when enabled, 0 when not.
pub open spec fn stored_pre_alert(c: PreAlertConfig) -> i32 {
    if c.enabled {
        c.pre_alert_seconds
    } else {
        0
    }
}

/// The pre-alert read back from its stored value: a positive value is the
/// enabled pre-alert; otherwise it is disabled and shows the default of 120
/// seconds.
pub open spec fn pre_alert_of_stored(stored: i32) -> PreAlertConfig {
    PreAlertConfig {
        pre_alert_seconds: if stored > 0 {
            stored
        } else {
            120
        },
        enabled: stored > 0,
    }
}

/// The pre-alert value to store (see `stored_pre_alert`); the seconds must
/// lie between 30 and 300 either way.
pub fn pre_alert_value(config: &PreAlertConfig) -> (r: Result<i32, String>)
    ensures
        match r {
            Ok(v) => 30 <= config.pre_alert_seconds <= 300 && v == stored_pre_alert(*config),
            Err(m) => !(30 <= config.pre_alert_seconds <= 300) && m@
                == "Pre-alert time must be between 30 and 300 seconds"@,
        },
{
    if config.pre_alert_seconds < 30 || config.pre_alert_seconds > 300 {
        return Err(String::from_str("Pre-alert time must be between 30 and 300 seconds"));
    }
    if config.enabled {
        Ok(config.pre_alert_seconds)
    } else {
        Ok(0)
    }
}

/// The pre-alert from the stored value (see `pre_alert_of_stored`).
pub fn pre_alert_from_stored(stored: i32) -> (c: PreAlertConfig)
    ensures
        c == pre_alert_of_stored(stored),
{
    PreAlertConfig {
        pre_alert_seconds: if stored > 0 {
            stored
        } else {
            120
        },
        enabled: stored > 0,
    }
}

/// The settings the frontend shows: the stored ones converted, or the
/// defaults when none are stored.
pub fn settings_view(stored: &Option<UserSettings>) -> (s: ApiUserSettings)
    ensures
        match stored {
            None => s.is_default(),
            Some(db) => s == ApiUserSettings::of_db(*db),
        },
{
    match stored {
        None => ApiUserSettings::default(),
        Some(db) => ApiUserSettings::from_db(db),
    }
}

/// The settings to store when the frontend saves `settings` at `now`:
/// its durations in seconds and both cycle counts from it, the name and
/// transition time kept from what is stored (10 seconds when nothing is),
/// its emergency key or else the stored one, and the stored creation time
/// (or `now`).
pub open spec fn merged(settings: ApiUserSettings, existing: Option<UserSettings>, now: i64) -> UserSettings {
    UserSettings {
        id: 1,
        focus_duration: wrap_i32(settings.focus_duration * 60),
        short_break_duration: wrap_i32(settings.short_break_duration * 60),
        long_break_duration: wrap_i32(settings.long_break_duration * 60),
        cycles_per_long_break: wrap_i32(settings.cycles_per_long_break as int),
        cycles_per_long_break_v2: wrap_i32(settings.cycles_per_long_break as int),
        pre_alert_seconds: wrap_i32(settings.pre_alert_seconds as int),
        strict_mode: settings.strict_mode,
        pin_hash: settings.pin_hash,
        user_name: match existing {
            Some(e) => e.user_name,
            None => None,
        },
        emergency_key_combination: match settings.emergency_key_combination {
            Some(k) => Some(k),
            None => match existing {
                Some(e) => e.emergency_key_combination,
                None => None,
            },
        },
        break_transition_seconds: match existing {
            Some(e) => e.break_transition_seconds,
            None => 10,
        },
        created_at: match existing {
            Some(e) => e.created_at,
            None => now,
        },
        updated_at: now,
    }
}

/// The settings to store when the frontend saves `settings` at `now` (see
/// `merged`).
pub fn merge_settings(settings: ApiUserSettings, existing: &Option<UserSettings>, now: i64) -> (s: UserSettings)
    requires
        settings.focus_duration * 60 <= u32::MAX,
        settings.short_break_duration * 60 <= u32::MAX,
        settings.long_break_duration * 60 <= u32::MAX,
    ensures
        s == merged(settings, *existing, now),
{
    let mut s = settings.to_db_at(now);
    match existing {
        Some(e) => {
            s.user_name = crate::text::clone_opt_string(&e.user_name);
            s.break_transition_seconds = e.break_transition_seconds;
            s.created_at = e.created_at;
        },
        None => {},
    }
    s.emergency_key_combination = match settings.emergency_key_combination {
        Some(k) => Some(k),
        None => match existing {
            Some(e) => crate::text::clone_opt_string(&e.emergency_key_combination),
            None => None,
        },
    };
    s
}


/// Valid cycle lengths read back from their stored form are the lengths
/// that were saved.
pub proof fn law_cycle_config_round_trip(c: CycleConfig)
    requires
        cycle_config_verdict(c) == Ok::<(), Seq<char>>(()),
    ensures
        ({
            let s = stored_lengths(c);
            lengths_from_stored(s.0, s.1, s.2, s.3) == c
        }),
{
    assert(div_toward_zero(c.focus_duration * 60, 60) == c.focus_duration) by (nonlinear_arith)
        requires c.focus_duration >= 1;
    assert(div_toward_zero(c.break_duration * 60, 60) == c.break_duration) by (nonlinear_arith)
        requires c.break_duration >= 1;
    assert(div_toward_zero(c.long_break_duration * 60, 60) == c.long_break_duration) by (nonlinear_arith)
        requires c.long_break_duration >= 1;
}

/// An enabled pre-alert reads back as it was saved; a disabled one reads
/// back disabled, showing the default of 120 seconds.
pub proof fn law_pre_alert_round_trip(c: PreAlertConfig)
    requires
        30 <= c.pre_alert_seconds <= 300,
    ensures
        pre_alert_of_stored(stored_pre_alert(c)) == (if c.enabled {
            c
        } else {
            PreAlertConfig { pre_alert_seconds: 120, enabled: false }
        }),
{
}

/// Settings saved from the frontend read back as they were saved, as long
/// as every value fits the stored integers and, when the saved settings
/// carry no emergency key, none is stored already (a missing key keeps the
/// stored one).
pub proof fn law_settings_round_trip(settings: ApiUserSettings, existing: Option<UserSettings>, now: i64)
    requires
        settings.focus_duration * 60 <= i32::MAX,
        settings.short_break_duration * 60 <= i32::MAX,
        settings.long_break_duration * 60 <= i32::MAX,
        settings.cycles_per_long_break <= i32::MAX,
        settings.pre_alert_seconds <= i32::MAX,
        settings.emergency_key_combination is None ==> (existing matches Some(e)
            ==> e.emergency_key_combination is None),
    ensures
        ApiUserSettings::of_db(merged(settings, existing, now)) == settings,
{
    let m = merged(settings, existing, now);
    assert(m.focus_duration == settings.focus_duration * 60);
    assert(m.short_break_duration == settings.short_break_duration * 60);
    assert(m.long_break_duration == settings.long_break_duration * 60);
    assert(div_toward_zero(settings.focus_duration * 60, 60) == settings.focus_duration) by (nonlinear_arith);
    assert(div_toward_zero(settings.short_break_duration * 60, 60) == settings.short_break_duration) by (nonlinear_arith);
    assert(div_toward_zero(settings.long_break_duration * 60, 60) == settings.long_break_duration) by (nonlinear_arith);
}

} // verus!
