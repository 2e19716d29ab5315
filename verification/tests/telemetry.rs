use pausa::onboarding::json::{JsonNumber, JsonValue};
use pausa::telemetry::{ErrorEvent, TelemetryEvent, TelemetryService};
use pausa::window_manager::{window_spec, WindowType};
use pausa::work_schedule::{validate_work_schedule, WorkScheduleConfig};

fn prop<'a>(p: &'a [(String, JsonValue)], key: &str) -> Option<&'a JsonValue> {
    p.iter().find(|(k, _)| k == key).map(|(_, v)| v)
}

fn is_text(v: Option<&JsonValue>, s: &str) -> bool {
    matches!(v, Some(JsonValue::String(t)) if t == s)
}

fn only_event(t: &mut TelemetryService) -> TelemetryEvent {
    let (_, mut events) = t.take_batch().unwrap();
    assert_eq!(events.len(), 1);
    events.remove(0)
}

#[test]
fn metric_tags_replace_properties_of_their_name() {
    let mut t = TelemetryService::new(Some("key".to_string()), "2.3".to_string());
    let tags = JsonValue::Object(vec![
        ("value".to_string(), JsonValue::String("tagged".to_string())),
        ("team".to_string(), JsonValue::String("core".to_string())),
    ]);
    assert!(!t.log_metric("load_time".to_string(), JsonValue::Number(JsonNumber::PosInt(42)), Some(tags)));
    let e = only_event(&mut t);
    assert_eq!(e.event, "load_time");
    let p = match &e.properties {
        JsonValue::Object(p) => p,
        _ => panic!("expected an object"),
    };
    assert!(is_text(prop(p, "value"), "tagged"));
    assert!(is_text(prop(p, "team"), "core"));
    assert!(is_text(prop(p, "$lib"), "pausa-app"));
    assert!(is_text(prop(p, "$lib_version"), "2.3"));
    assert!(prop(p, "other").is_none());
}

#[test]
fn metric_without_tags_has_value_and_library() {
    let mut t = TelemetryService::new(Some("key".to_string()), "2.3".to_string());
    t.log_metric("m".to_string(), JsonValue::Number(JsonNumber::PosInt(7)), Some(JsonValue::Bool(true)));
    let e = only_event(&mut t);
    let p = match &e.properties {
        JsonValue::Object(p) => p,
        _ => panic!("expected an object"),
    };
    assert_eq!(p.len(), 3);
    assert!(matches!(prop(p, "value"), Some(JsonValue::Number(JsonNumber::PosInt(7)))));
    assert!(is_text(prop(p, "$lib"), "pausa-app"));
}

#[test]
fn session_completed_keeps_its_data() {
    let mut t = TelemetryService::new(Some("key".to_string()), "2.3".to_string());
    t.set_user_id(Some("u7".to_string()));
    let data = JsonValue::Object(vec![
        ("duration".to_string(), JsonValue::Number(JsonNumber::PosInt(1500))),
        ("$lib".to_string(), JsonValue::String("old".to_string())),
    ]);
    t.log_session_completed(data);
    let e = only_event(&mut t);
    assert_eq!(e.event, "session_completed");
    assert_eq!(e.distinct_id, "u7");
    let p = match &e.properties {
        JsonValue::Object(p) => p,
        _ => panic!("expected an object"),
    };
    assert!(matches!(prop(p, "duration"), Some(JsonValue::Number(JsonNumber::PosInt(1500)))));
    assert!(is_text(prop(p, "$lib"), "pausa-app"));
    assert!(is_text(prop(p, "$lib_version"), "2.3"));
}

#[test]
fn session_completed_passes_other_data_through() {
    let mut t = TelemetryService::new(Some("key".to_string()), "2.3".to_string());
    t.log_session_completed(JsonValue::String("done".to_string()));
    let e = only_event(&mut t);
    assert!(matches!(&e.properties, JsonValue::String(s) if s == "done"));
}

#[test]
fn error_event_carries_its_optional_fields() {
    let mut t = TelemetryService::new(Some("key".to_string()), "2.3".to_string());
    t.log_error(ErrorEvent {
        error_type: "db".to_string(),
        message: "locked".to_string(),
        context: Some("startup".to_string()),
        stack: None,
        user_action: Some("open".to_string()),
        recoverable: true,
    });
    let e = only_event(&mut t);
    assert_eq!(e.event, "app_error");
    let p = match &e.properties {
        JsonValue::Object(p) => p,
        _ => panic!("expected an object"),
    };
    assert!(is_text(prop(p, "context"), "startup"));
    assert!(matches!(prop(p, "stack"), Some(JsonValue::Null)));
    assert!(is_text(prop(p, "user_action"), "open"));
    assert!(matches!(prop(p, "recoverable"), Some(JsonValue::Bool(true))));
}

#[test]
fn focus_is_asked_only_for_some_windows() {
    assert_eq!(window_spec(WindowType::CommandPalette).focused, Some(true));
    assert_eq!(window_spec(WindowType::BreakTransition).focused, Some(true));
    assert_eq!(window_spec(WindowType::FocusWidget).focused, None);
    assert_eq!(window_spec(WindowType::Settings).focused, None);
}

#[test]
fn work_day_length_counts_hours_and_minutes() {
    let day = |s: &str, e: &str| WorkScheduleConfig {
        use_work_schedule: true,
        work_start_time: Some(s.to_string()),
        work_end_time: Some(e.to_string()),
        timezone: None,
    };
    assert!(validate_work_schedule(&day("09:30", "09:45")).is_ok());
    assert_eq!(validate_work_schedule(&day("09:45", "09:30")).unwrap_err(), "End time must be after start time");
    assert!(validate_work_schedule(&day("01:00", "16:59")).is_ok());
    assert_eq!(
        validate_work_schedule(&day("01:00", "18:00")).unwrap_err(),
        "Work day cannot be longer than 16 hours"
    );
}
