use pausa::models::UserSettings;
use pausa::onboarding::flow::{
    advance_onboarding, finish_onboarding, health_report, retreat_onboarding, settings_from_onboarding,
    validate_onboarding_config, validate_step_config, work_schedule_from_onboarding,
};
use pausa::onboarding::json::{JsonNumber, JsonValue};
use pausa::onboarding::validation::{validate_step_data, OnboardingValidator, ValidationError};
use pausa::onboarding::{OnboardingManager, OnboardingStep};

fn s(v: &str) -> JsonValue {
    JsonValue::String(v.to_string())
}

fn n(v: u64) -> JsonValue {
    JsonValue::Number(JsonNumber::PosInt(v))
}

fn obj(entries: Vec<(&str, JsonValue)>) -> JsonValue {
    JsonValue::Object(entries.into_iter().map(|(k, v)| (k.to_string(), v)).collect())
}

fn good_config() -> JsonValue {
    obj(vec![
        ("focusDuration", n(25)),
        ("breakDuration", n(5)),
        ("longBreakDuration", n(15)),
        ("cyclesPerLongBreak", n(4)),
        ("strictMode", JsonValue::Bool(true)),
        ("emergencyKey", s("Cmd+Shift+E")),
        ("userName", s("Ada")),
        (
            "workSchedule",
            obj(vec![
                ("useWorkSchedule", JsonValue::Bool(true)),
                ("workStartTime", s("09:00")),
                ("workEndTime", s("17:30")),
            ]),
        ),
    ])
}

#[test]
fn valid_configuration_passes() {
    let mut v = OnboardingValidator::new();
    assert!(v.validate_configuration(&good_config()).is_ok());
    assert!(!v.has_errors());
}

#[test]
fn configuration_errors_in_order() {
    let config = obj(vec![
        ("focusDuration", n(200)),
        ("breakDuration", s("five")),
        ("longBreakDuration", n(3)),
        ("strictMode", JsonValue::Bool(true)),
        ("emergencyKey", s("cmd+q")),
        ("userName", s("   ")),
    ]);
    let mut v = OnboardingValidator::new();
    let errs = v.validate_configuration(&config).unwrap_err();
    let msgs: Vec<String> = errs.iter().map(|e| e.to_message()).collect();
    assert_eq!(
        msgs,
        vec![
            "Value out of range for focusDuration: expected 5-120, got 200".to_string(),
            "Invalid value for breakDuration: must be a positive number".to_string(),
            "Value out of range for longBreakDuration: expected 5-60, got 3".to_string(),
            "Missing required field: cyclesPerLongBreak".to_string(),
            "Emergency key combination is too simple or common".to_string(),
            "Invalid value for userName: cannot be empty".to_string(),
        ]
    );
    assert_eq!(v.get_errors().len(), 6);
}

#[test]
fn break_ratio_and_long_break_conflicts() {
    let config = obj(vec![
        ("focusDuration", n(10)),
        ("breakDuration", n(6)),
        ("longBreakDuration", n(6)),
        ("cyclesPerLongBreak", n(4)),
    ]);
    let mut v = OnboardingValidator::new();
    let errs = v.validate_configuration(&config).unwrap_err();
    assert!(matches!(&errs[0], ValidationError::ConfigurationConflict { .. }));
    assert!(matches!(&errs[1], ValidationError::ConfigurationConflict { .. }));
    assert_eq!(errs.len(), 2);
}

#[test]
fn out_of_range_value_wraps_like_i32() {
    let config = obj(vec![
        ("focusDuration", n(4294967296 + 25)),
        ("breakDuration", n(5)),
        ("longBreakDuration", n(15)),
        ("cyclesPerLongBreak", n(4)),
    ]);
    let mut v = OnboardingValidator::new();
    assert!(v.validate_configuration(&config).is_ok());
}

#[test]
fn time_formats() {
    let v = OnboardingValidator::new();
    assert!(v.is_valid_time_format("09:30"));
    assert!(v.is_valid_time_format("9:5"));
    assert!(v.is_valid_time_format("+9:05"));
    assert!(!v.is_valid_time_format("24:00"));
    assert!(!v.is_valid_time_format("12:60"));
    assert!(!v.is_valid_time_format("12:00:00"));
    assert!(!v.is_valid_time_format("noon"));
    assert_eq!(v.time_to_minutes("17:30"), Some(1050));
    assert_eq!(v.time_to_minutes("7"), None);
    assert!(v.is_valid_time_range("09:00", "17:00"));
    assert!(!v.is_valid_time_range("17:00", "09:00"));
    assert!(!v.is_valid_time_range("09:00", "09:00"));
}

#[test]
fn emergency_keys() {
    let v = OnboardingValidator::new();
    assert!(v.is_valid_emergency_key("Cmd+Shift+E"));
    assert!(v.is_valid_emergency_key("  \u{2318}+\u{21e7}+P "));
    assert!(!v.is_valid_emergency_key("   "));
    assert!(!v.is_valid_emergency_key("Q"));
    assert!(!v.is_valid_emergency_key("CTRL+c"));
    assert!(!v.is_valid_emergency_key("\u{2318}+q"));
}

#[test]
fn work_schedule_time_errors() {
    let config = obj(vec![
        ("focusDuration", n(25)),
        ("breakDuration", n(5)),
        ("longBreakDuration", n(15)),
        ("cyclesPerLongBreak", n(4)),
        (
            "workSchedule",
            obj(vec![
                ("useWorkSchedule", JsonValue::Bool(true)),
                ("workStartTime", s("18:00")),
                ("workEndTime", s("09:00")),
            ]),
        ),
    ]);
    let mut v = OnboardingValidator::new();
    let errs = v.validate_configuration(&config).unwrap_err();
    assert_eq!(errs.len(), 1);
    assert_eq!(errs[0].to_message(), "Work end time must be after start time");
}

#[test]
fn step_validation() {
    assert!(validate_step_data("WorkSchedule", &obj(vec![("useWorkSchedule", JsonValue::Bool(false))])).is_ok());
    let e = validate_step_data("WorkSchedule", &obj(vec![("useWorkSchedule", n(1))])).unwrap_err();
    assert_eq!(e[0].to_message(), "Invalid value for useWorkSchedule: must be true or false");
    let e = validate_step_data("WorkHours", &obj(vec![("startTime", s("25:00"))])).unwrap_err();
    assert_eq!(e.len(), 2);
    assert_eq!(e[0].to_message(), "Invalid time format for workStartTime: expected HH:MM, got 25:00");
    assert_eq!(e[1].to_message(), "Missing required field: workEndTime");
    assert!(validate_step_data("Summary", &JsonValue::Null).is_ok());
    assert_eq!(
        validate_step_config("CycleConfig", &obj(vec![])).unwrap_err(),
        "Step validation errors: Missing required field: focusDuration; Missing required field: breakDuration; Missing required field: longBreakDuration; Missing required field: cyclesPerLongBreak"
    );
}

#[test]
fn manager_steps_forward_and_back() {
    let mut m = OnboardingManager::new();
    assert_eq!(*m.get_current_step(), OnboardingStep::Welcome);
    assert_eq!(m.previous_step().unwrap_err(), "Cannot go back from welcome step");
    for expected in [
        OnboardingStep::WorkHours,
        OnboardingStep::CycleConfig,
        OnboardingStep::StrictMode,
        OnboardingStep::Summary,
        OnboardingStep::Complete,
    ] {
        assert_eq!(m.next_step().unwrap(), expected);
    }
    assert!(m.is_complete());
    assert_eq!(m.next_step().unwrap_err(), "Onboarding already completed");
    assert_eq!(m.previous_step().unwrap(), OnboardingStep::Summary);
    assert!(!m.is_complete());
    assert_eq!(m.next_step().unwrap(), OnboardingStep::Complete);
}

#[test]
fn manager_keeps_step_data() {
    let mut m = OnboardingManager::new();
    m.set_step_data(OnboardingStep::CycleConfig, n(1)).unwrap();
    m.set_step_data(OnboardingStep::CycleConfig, n(2)).unwrap();
    assert!(matches!(
        m.get_step_data(&OnboardingStep::CycleConfig),
        Some(JsonValue::Number(JsonNumber::PosInt(2)))
    ));
    assert!(m.get_step_data(&OnboardingStep::Welcome).is_none());
    m.reset();
    assert!(m.get_step_data(&OnboardingStep::CycleConfig).is_none());
    assert_eq!(*m.get_current_step(), OnboardingStep::Welcome);
}

#[test]
fn advancing_validates_step_data() {
    let mut m = OnboardingManager::new();
    m.next_step().unwrap();
    let bad = obj(vec![("startTime", s("9am")), ("endTime", s("17:00"))]);
    let err = advance_onboarding(&mut m, Some(bad)).unwrap_err();
    assert_eq!(err, "Validation failed: Invalid time format for workStartTime: expected HH:MM, got 9am");
    assert_eq!(*m.get_current_step(), OnboardingStep::WorkHours);
    let good = obj(vec![("startTime", s("09:00")), ("endTime", s("17:00"))]);
    assert_eq!(advance_onboarding(&mut m, Some(good)).unwrap(), OnboardingStep::CycleConfig);
    assert!(m.get_step_data(&OnboardingStep::WorkHours).is_some());
    assert_eq!(advance_onboarding(&mut m, Some(JsonValue::Null)).unwrap(), OnboardingStep::StrictMode);
    assert_eq!(retreat_onboarding(&mut m).unwrap(), OnboardingStep::CycleConfig);
    let mut w = OnboardingManager::new();
    assert_eq!(
        retreat_onboarding(&mut w).unwrap_err(),
        "Backward navigation failed: Cannot go back from welcome step"
    );
}

#[test]
fn finishing_completes_from_summary() {
    let mut m = OnboardingManager::new();
    for _ in 0..4 {
        m.next_step().unwrap();
    }
    finish_onboarding(&mut m, good_config()).unwrap();
    assert!(m.is_complete());
    assert!(m.get_step_data(&OnboardingStep::Complete).is_some());
}

#[test]
fn onboarding_config_validation_message() {
    assert!(validate_onboarding_config(&good_config()).is_ok());
    let e = validate_onboarding_config(&obj(vec![
        ("focusDuration", n(25)),
        ("breakDuration", n(5)),
        ("longBreakDuration", n(15)),
    ]))
    .unwrap_err();
    assert_eq!(e, "Validation errors: Missing required field: cyclesPerLongBreak");
}

#[test]
fn settings_from_onboarding_converts_minutes() {
    let existing = UserSettings::default_at(7);
    let s = settings_from_onboarding(&good_config(), existing, 99);
    assert_eq!(s.focus_duration, 1500);
    assert_eq!(s.short_break_duration, 300);
    assert_eq!(s.long_break_duration, 900);
    assert_eq!(s.cycles_per_long_break_v2, 4);
    assert!(s.strict_mode);
    assert_eq!(s.user_name.as_deref(), Some("Ada"));
    assert_eq!(s.emergency_key_combination.as_deref(), Some("Cmd+Shift+E"));
    assert_eq!(s.created_at, 7);
    assert_eq!(s.updated_at, 99);
    let d = settings_from_onboarding(&obj(vec![]), UserSettings::default_at(0), 1);
    assert_eq!(d.focus_duration, 1500);
    assert_eq!(d.short_break_duration, 300);
    assert_eq!(d.long_break_duration, 900);
    assert!(!d.strict_mode);
    let w = work_schedule_from_onboarding(&good_config()).unwrap();
    assert!(w.use_work_schedule);
    assert_eq!(w.work_start_time.as_deref(), Some("09:00"));
    assert_eq!(w.timezone.as_deref(), Some("local"));
    assert!(work_schedule_from_onboarding(&obj(vec![])).is_none());
}

#[test]
fn health_report_statuses() {
    let h = health_report(&Ok(true), &Ok(true), &Ok(()));
    assert_eq!(h.status, "healthy");
    assert_eq!(h.checks.len(), 3);
    let h = health_report(&Ok(false), &Ok(true), &Ok(()));
    assert_eq!(h.status, "warning");
    assert_eq!(h.warnings, vec!["Onboarding not completed".to_string()]);
    let h = health_report(&Ok(true), &Err("locked".to_string()), &Ok(()));
    assert_eq!(h.status, "error");
    assert_eq!(h.errors, vec!["Failed to check user settings: locked".to_string()]);
}
