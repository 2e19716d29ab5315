use pausa::onboarding::json::JsonValue;
use pausa::api_models::{
    BreakActivity, BreakSession, BreakType, FocusSession, SessionState, UserSettings as ApiSettings,
};
use pausa::backup::{
    assemble_backup, backup_file_name, BackupError, BackupManager, BackupType,
};
use pausa::cycle_config::{
    cycle_config_from_stored, merge_settings, pre_alert_from_stored, pre_alert_value, settings_view,
    validate_cycle_config, CycleConfig as EditedCycle, PreAlertConfig,
};
use pausa::cycle_flow::{
    break_session_record, end_completion, end_notice, focus_session_record, tick_plan, Notice,
};
use pausa::cycle_orchestrator::{
    CycleConfig, CycleEvent, CycleOrchestrator, CyclePhase, CycleState,
};
use pausa::errors::AppError;
use pausa::hotkey_manager::{
    focus_toggle, focus_toggle_message, get_available_modifiers, hotkey_enablement, immediate_lock,
    Code, EnablementChange, FocusToggle, HotkeyAction, HotkeyConfig, HotkeyRegistry, LockAction,
};
use pausa::migrations::MigrationManager;
use pausa::models::{DatabaseStats, SessionType, UserSettings, WorkSchedule};
use pausa::notification_service::NotificationService;
use pausa::oauth::{callback_from_link, callback_from_parts, AppConfig, GoogleOAuthService, OAuthCallback, TokenStorage, Tokens};
use pausa::state_manager::AppState;
use pausa::telemetry::{flush_error, TelemetryService};
use pausa::tray::{left_click_action, menu_action, tray_menu, TrayAction};
use pausa::window_manager::{centered_origin, right_edge_origin, window_spec, WindowStates, WindowType};
use pausa::work_schedule::{is_within_work_hours_at, validate_work_hours, validate_work_schedule, WorkScheduleConfig};

const SEC: i128 = 1_000_000_000;

fn cycle_state(phase: CyclePhase, id: Option<&str>, started: Option<i128>) -> CycleState {
    CycleState {
        phase,
        remaining_seconds: 1500,
        cycle_count: 2,
        is_running: true,
        can_start: true,
        session_id: id.map(|s| s.to_string()),
        started_at: started,
        within_work_hours: true,
    }
}

#[test]
fn app_error_texts() {
    let e = AppError::Http("timeout".to_string());
    assert!(e.should_retry());
    assert!(e.is_recoverable());
    assert_eq!(e.to_message(), "http: timeout");
    assert_eq!(e.user_message(), "Network connection error. Please check your internet connection.");
    let d = AppError::Database("x".to_string());
    assert!(!d.should_retry());
    assert!(!d.is_recoverable());
}

#[test]
fn database_stats_used_size() {
    let s = DatabaseStats::from_pages(10, 4096, 2, 3);
    assert_eq!(s.total_size, 40960);
    assert_eq!(s.used_size(), 32768);
}

#[test]
fn api_settings_conversions() {
    let db = UserSettings::default_at(5);
    let api = ApiSettings::from_db(&db);
    assert_eq!(api.focus_duration, 25);
    assert_eq!(api.short_break_duration, 5);
    assert_eq!(api.long_break_duration, 15);
    let back = api.to_db_at(9);
    assert_eq!(back.focus_duration, 1500);
    assert_eq!(back.created_at, 9);
    let mut odd = UserSettings::default_at(0);
    odd.focus_duration = -90;
    assert_eq!(ApiSettings::from_db(&odd).focus_duration, u32::MAX);
}

#[test]
fn focus_session_from_record() {
    let mut db = pausa::models::Session {
        id: "f".to_string(),
        session_type: SessionType::Focus,
        start_time: 1_000,
        end_time: None,
        planned_duration: 1500,
        actual_duration: None,
        strict_mode: true,
        completed: false,
        notes: None,
        created_at: 1_000,
        within_work_hours: true,
        cycle_number: None,
        is_long_break: false,
    };
    let f = FocusSession::from_db_session(db.clone(), 2_400).unwrap();
    assert_eq!(f.remaining, 100);
    assert_eq!(f.state, SessionState::PreAlert);
    db.end_time = Some(1_500);
    let f = FocusSession::from_db_session(db.clone(), 9_999).unwrap();
    assert!(!f.is_running);
    assert_eq!(f.state, SessionState::Idle);
    let rec = f.to_db_session();
    assert_eq!(rec.end_time, Some(1_500));
    assert_eq!(rec.actual_duration, Some(500));
    db.session_type = SessionType::ShortBreak;
    assert!(FocusSession::from_db_session(db, 0).is_none());
}

#[test]
fn break_sessions() {
    let b = BreakSession::new(BreakType::Long, 15, true);
    assert_eq!(b.id.len(), 36);
    assert_eq!(b.duration, 900);
    assert_eq!(b.activity.title, "Extended Break");
    assert_eq!(b.activity.checklist.len(), 6);
    let a = BreakActivity::for_break(BreakType::Short);
    assert_eq!(a.checklist[0], "💧 Drink a glass of water");
    let rec = b.to_db_session(42);
    assert_eq!(rec.session_type, SessionType::LongBreak);
    assert!(rec.is_long_break);
    assert_eq!(rec.planned_duration, 900);
}

#[test]
fn cycle_records_and_notices() {
    let st = cycle_state(CyclePhase::LongBreak, Some("s"), Some(100 * SEC));
    let r = break_session_record(&st, 300, 900, true, 500 * SEC + 700_000_000).unwrap();
    assert_eq!(r.session_type, SessionType::LongBreak);
    assert_eq!(r.planned_duration, 900);
    assert_eq!(r.start_time, 100);
    assert_eq!(r.created_at, 500);
    assert_eq!(r.cycle_number, Some(2));
    let f = focus_session_record(&cycle_state(CyclePhase::Focus, Some("f"), None), 1500, false, 7 * SEC).unwrap();
    assert_eq!(f.start_time, 7);
    assert!(focus_session_record(&cycle_state(CyclePhase::Focus, None, None), 1500, false, 7 * SEC).is_none());
    let c = end_completion(&st, true, 400 * SEC + 999_999_999).unwrap();
    assert_eq!(c.actual_duration, Some(300));
    assert!(end_completion(&st, false, 400 * SEC).is_none());
    let short = cycle_state(CyclePhase::Focus, Some("q"), Some(100 * SEC + 800_000_000));
    let c = end_completion(&short, true, 101 * SEC + 200_000_000).unwrap();
    assert_eq!(c.actual_duration, Some(0));
    assert_eq!(end_notice(CyclePhase::Focus, true), Some(Notice::FocusEnd));
    assert_eq!(end_notice(CyclePhase::Focus, false), None);
}

#[test]
fn tick_plan_records_and_announces() {
    let before = cycle_state(CyclePhase::Focus, Some("a"), Some(0));
    let after = cycle_state(CyclePhase::ShortBreak, Some("b"), Some(1500 * SEC));
    let events = vec![
        CycleEvent::PreAlert { remaining: 61 },
        CycleEvent::PhaseEnded { phase: CyclePhase::Focus, completed: true },
        CycleEvent::CycleCompleted { cycle_count: 3 },
        CycleEvent::PhaseStarted { phase: CyclePhase::ShortBreak, duration: 300, cycle_count: 3 },
    ];
    let p = tick_plan(&before, &after, &events, 1500 * SEC);
    assert_eq!(p.completions.len(), 1);
    assert_eq!(p.completions[0].session_id, "a");
    assert_eq!(p.completions[0].actual_duration, Some(1500));
    assert_eq!(p.new_sessions.len(), 1);
    assert_eq!(p.new_sessions[0].id, "b");
    assert_eq!(p.new_sessions[0].session_type, SessionType::ShortBreak);
    assert_eq!(
        p.notices,
        vec![Notice::FocusWarning { minutes_left: 2 }, Notice::CycleComplete { cycle_count: 3 }]
    );
}

#[test]
fn notification_texts() {
    let mut n = NotificationService::new();
    assert_eq!(n.content(Notice::FocusStart).1, "Time to concentrate and do great work 🧠");
    n.set_user_name(Some("Ada".to_string()));
    assert_eq!(n.get_user_name(), Some("Ada"));
    assert_eq!(n.content(Notice::FocusEnd).1, "Ada, time to take a break ✨");
    assert_eq!(
        n.content(Notice::FocusWarning { minutes_left: 2 }),
        ("Focus session ending soon".to_string(), "2 minutes left. Time to wrap up ⏳".to_string())
    );
    assert_eq!(n.content(Notice::CycleComplete { cycle_count: 12 }).1, "You've completed 12 cycles. Keep it up! 🎉");
}

#[test]
fn orchestrator_pause_and_resume() {
    let config = CycleConfig::from_user_settings(UserSettings::default_at(0), None);
    let mut o = CycleOrchestrator::new(config);
    assert!(o.pause().is_err());
    o.start_focus_session_at(false, true, true, "x".to_string(), 0).unwrap();
    o.pause().unwrap();
    assert!(!o.get_state().is_running);
    o.resume().unwrap();
    assert!(o.get_state().is_running);
}

#[test]
fn work_schedule_rules() {
    let c = WorkScheduleConfig {
        use_work_schedule: true,
        work_start_time: Some("09:00".to_string()),
        work_end_time: Some("08:00".to_string()),
        timezone: None,
    };
    assert_eq!(validate_work_schedule(&c).unwrap_err(), "End time must be after start time");
    assert_eq!(
        validate_work_hours("06:00".to_string(), "23:00".to_string()).unwrap_err(),
        "Work day cannot be longer than 16 hours"
    );
    assert_eq!(validate_work_hours("09:00".to_string(), "17:00".to_string()), Ok(true));
    assert_eq!(
        validate_work_hours("9am".to_string(), "17:00".to_string()).unwrap_err(),
        "Invalid start time format: 9am. Expected HH:MM"
    );
    let mut s = WorkSchedule::default_at(0);
    assert_eq!(is_within_work_hours_at(&s, 3 * 3600, 0), Ok(true));
    s.use_work_schedule = true;
    s.work_start_time = Some("22:00".to_string());
    s.work_end_time = Some("06:00".to_string());
    assert_eq!(is_within_work_hours_at(&s, 23 * 3600, 0), Ok(true));
    assert_eq!(is_within_work_hours_at(&s, 12 * 3600, 0), Ok(false));
    assert_eq!(is_within_work_hours_at(&s, 6 * 3600, 1), Ok(false));
    assert_eq!(is_within_work_hours_at(&s, 6 * 3600, 0), Ok(true));
}

#[test]
fn windows() {
    assert_eq!(WindowType::Settings.label(), "settings");
    assert_eq!(WindowType::from_label("break-overlay"), Ok(WindowType::BreakOverlay));
    assert_eq!(WindowType::from_label("nope").unwrap_err(), "Invalid window type");
    let s = window_spec(WindowType::Settings);
    assert!(s.resizable && s.decorations && !s.always_on_top);
    assert_eq!(s.inner_size, Some((800, 600)));
    assert!(window_spec(WindowType::BreakOverlay).fullscreen);
    assert_eq!(centered_origin(1920, 1080, 600, 400), (660, 340));
    assert_eq!(centered_origin(500, 300, 600, 400), (-50, -50));
    assert_eq!(right_edge_origin(1920, 280, 20, 60), (1620, 60));
    let mut v = WindowStates::new();
    assert!(!v.is_window_visible(WindowType::FocusWidget));
    v.set_visible(WindowType::FocusWidget, true);
    assert!(v.is_window_visible(WindowType::FocusWidget));
    assert!(!v.is_window_visible(WindowType::Settings));
}

#[test]
fn backups() {
    assert_eq!(BackupType::from_request("manual"), Ok(BackupType::Manual));
    assert!(BackupType::from_request("nightly").is_err());
    assert_eq!(backup_file_name("x"), "x.json");
    let entries: Vec<(String, i128)> = vec![
        ("a".to_string(), 10 * SEC),
        ("b".to_string(), 30 * SEC),
        ("c".to_string(), 20 * SEC),
        ("d".to_string(), 30 * SEC),
    ];
    let manager = BackupManager::new("/tmp/backups".to_string());
    let sorted = manager.list_backups(entries.clone());
    let ids: Vec<&str> = sorted.iter().map(|e| e.0.as_str()).collect();
    assert_eq!(ids, vec!["b", "d", "c", "a"]);
    assert_eq!(manager.cleanup_old_backups(entries.clone(), 2), vec!["c".to_string(), "a".to_string()]);
    assert!(manager.cleanup_old_backups(entries, 10).is_empty());
    let e = assemble_backup(BackupType::Manual, None, 0, "1".to_string(), Ok(None), Err("busy".to_string()), Ok(None), Ok(5))
        .unwrap_err();
    match e {
        BackupError::Database(m) => assert_eq!(m, "Failed to get work schedule: busy"),
        _ => panic!("expected a database error"),
    }
    let b = assemble_backup(BackupType::Manual, None, 0, "1".to_string(), Ok(None), Ok(None), Ok(None), Ok(-5)).unwrap();
    assert_eq!(b.database_version.as_deref(), Some("-5"));
    let (id, made) = manager
        .create_backup(
            BackupType::PreUpdate,
            None,
            (86_400 + 3_661) * SEC + 500_000_000,
            "0.1.0".to_string(),
            Ok(None),
            Ok(None),
            Ok(None),
            Ok(5),
        )
        .unwrap();
    assert_eq!(id, "19700102_010101_pre_update");
    assert_eq!(made.metadata.created_at, (86_400 + 3_661) * SEC + 500_000_000);
    let within_a_second: Vec<(String, i128)> = vec![
        ("pre".to_string(), 50 * SEC + 100_000_000),
        ("post".to_string(), 50 * SEC + 900_000_000),
    ];
    let listed = manager.list_backups(within_a_second);
    assert_eq!(listed[0].0, "post");
    assert_eq!(listed[1].0, "pre");
    assert_eq!(made.database_version.as_deref(), Some("5"));
}

#[test]
fn migrations_plan() {
    assert_eq!(MigrationManager::migration_plan(2).unwrap(), vec![3, 4, 5]);
    assert!(MigrationManager::migration_plan(5).unwrap().is_empty());
    assert_eq!(MigrationManager::migration_plan(7).unwrap_err(), "Database version 7 is newer than application version 5");
    assert_eq!(MigrationManager::migration_statements(4).unwrap().len(), 2);
    assert!(MigrationManager::migration_statements(1).unwrap().is_empty());
    assert_eq!(MigrationManager::migration_statements(9).unwrap_err(), "Unknown migration version: 9");
    assert_eq!(MigrationManager::required_table_names().len(), 10);
    assert!(MigrationManager::integrity_verdict(&vec!["ok".to_string()]).is_ok());
    assert!(MigrationManager::integrity_verdict(&vec![]).is_ok());
    assert_eq!(
        MigrationManager::integrity_verdict(&vec!["bad page".to_string(), "bad index".to_string()]).unwrap_err(),
        "Database integrity check failed: bad page, bad index"
    );
}

#[test]
fn cycle_settings_commands() {
    let c = EditedCycle { focus_duration: 25, break_duration: 5, long_break_duration: 15, cycles_per_long_break: 4 };
    assert!(validate_cycle_config(&c).is_ok());
    let bad = EditedCycle { long_break_duration: 5, ..c };
    assert_eq!(
        validate_cycle_config(&bad).unwrap_err(),
        "Long break duration must be longer than regular break duration"
    );
    assert_eq!(
        validate_cycle_config(&EditedCycle { focus_duration: 0, ..c }).unwrap_err(),
        "Focus duration must be between 1 and 120 minutes"
    );
    assert_eq!(cycle_config_from_stored(1500, 300, 959, 4).long_break_duration, 15);
    assert_eq!(pre_alert_value(&PreAlertConfig { pre_alert_seconds: 60, enabled: false }), Ok(0));
    assert!(pre_alert_value(&PreAlertConfig { pre_alert_seconds: 10, enabled: true }).is_err());
    assert_eq!(pre_alert_from_stored(0), PreAlertConfig { pre_alert_seconds: 120, enabled: false });
    assert_eq!(settings_view(&None).focus_duration, 25);
    let mut existing = UserSettings::default_at(3);
    existing.user_name = Some("Ada".to_string());
    existing.emergency_key_combination = Some("Cmd+Shift+E".to_string());
    let merged = merge_settings(ApiSettings::default(), &Some(existing), 8);
    assert_eq!(merged.user_name.as_deref(), Some("Ada"));
    assert_eq!(merged.emergency_key_combination.as_deref(), Some("Cmd+Shift+E"));
    assert_eq!(merged.created_at, 3);
    assert_eq!(merged.updated_at, 8);
    let fresh = merge_settings(ApiSettings::default(), &None, 8);
    assert_eq!(fresh.break_transition_seconds, 10);
    assert_eq!(fresh.created_at, 8);
}

#[test]
fn oauth_flow() {
    assert_eq!(AppConfig::from_values(None, None, None).unwrap_err(), "GOOGLE_CLIENT_ID no definido");
    let cfg = AppConfig::from_values(Some("id".to_string()), None, None).unwrap();
    assert_eq!(cfg.redirect_uri, "http://localhost:8080");
    let mut svc = GoogleOAuthService::new(cfg);
    let cb = OAuthCallback { code: "c".to_string(), state: "s".to_string() };
    assert!(matches!(svc.token_request(&cb), Err(AppError::Auth(m)) if m == "state mismatch"));
    let url = svc.start_login().unwrap();
    assert!(url.starts_with("https://accounts.google.com/o/oauth2/v2/auth?response_type=code&client_id=id&redirect_uri=http%3A%2F%2Flocalhost%3A8080&scope=openid+email+profile&state="));
    assert!(url.ends_with("&code_challenge_method=S256&access_type=offline&prompt=consent"));
    let pkce = pausa::oauth::generate();
    assert_eq!(pkce.verifier.len(), 64);
    assert_eq!(pkce.challenge.len(), 43);
    assert_ne!(pkce.challenge, pkce.verifier);
    assert_eq!(
        pausa::oauth::challenge_for("dBjftJeZ4CVP-mB92K27uhbUJU1p1r_wW1gFWFOEjXk"),
        "E9Melhoa2OwvFrEMTJguCHaoeK1t8URWbuGJSstw-cM"
    );
    let url = svc.start_login_with(pkce.clone(), "st".to_string());
    assert!(url.contains("&state=st&code_challenge="));
    let req = svc.token_request(&OAuthCallback { code: "c".to_string(), state: "st".to_string() }).unwrap();
    assert_eq!(req.code_verifier, pkce.verifier);
    assert_eq!(req.grant_type, "authorization_code");
}

#[test]
fn deep_links_and_tokens() {
    let cb = callback_from_link("pausa://app/auth/callback?code=abc&state=xyz&code=def").unwrap().unwrap();
    assert_eq!(cb.code, "def");
    assert_eq!(cb.state, "xyz");
    assert!(callback_from_link("pausa://app/other?code=1&state=2").unwrap().is_none());
    assert_eq!(
        callback_from_parts("/auth/callback", &vec![("code".to_string(), "1".to_string())]).unwrap_err(),
        "callback sin code/state"
    );
    assert!(callback_from_link("not a url").is_err());
    let t = Tokens {
        access_token: "a".to_string(),
        expires_in: 3600,
        scope: "s".to_string(),
        token_type: "Bearer".to_string(),
        refresh_token: None,
        id_token: None,
        obtained_at: 1_000,
    };
    assert!(!t.is_expired_at(4_569));
    assert!(t.is_expired_at(4_570));
    let store = TokenStorage::new("/tmp/t.json".to_string());
    assert_eq!(store.path_str(), "/tmp/t.json");
}

#[test]
fn hotkeys() {
    let s = HotkeyAction::ToggleFocusSession.default_shortcut(true);
    assert!(s.modifiers.meta && s.modifiers.shift && !s.modifiers.control);
    assert_eq!(s.code, Code::KeyF);
    assert_eq!(HotkeyAction::ImmediateLock.description(), "Immediate Lock/Break");
    let mut r = HotkeyRegistry::new();
    let cfg = HotkeyConfig::new(HotkeyAction::ImmediateLock, false);
    let plan = r.plan_registration(&cfg);
    assert!(plan.register && plan.unregister.is_none());
    r.record_registration(cfg);
    assert_eq!(r.plan_registration(&cfg).unregister, Some(cfg.shortcut));
    assert_eq!(
        r.set_hotkey_enabled(HotkeyAction::ImmediateLock, false),
        Some(EnablementChange::Unregister(cfg.shortcut))
    );
    assert_eq!(r.check_for_conflicts(), vec![HotkeyAction::ImmediateLock]);
    assert_eq!(r.set_hotkey_enabled(HotkeyAction::ImmediateLock, false), None);
    assert_eq!(r.unregister_hotkey(HotkeyAction::ImmediateLock), Some(cfg.shortcut));
    assert!(r.get_hotkey_configs().is_empty());
    assert_eq!(hotkey_enablement(AppState::BreakRunning), (true, false, false));
    assert_eq!(focus_toggle(AppState::Idle, false), FocusToggle::Start);
    assert_eq!(focus_toggle(AppState::FocusRunning, true), FocusToggle::Resume);
    assert_eq!(focus_toggle(AppState::FocusRunning, false), FocusToggle::Pause);
    assert_eq!(immediate_lock(AppState::Idle, false), LockAction::StartShortBreak);
    assert_eq!(
        focus_toggle_message(FocusToggle::Refuse, AppState::BreakRunning),
        "Cannot toggle focus session in state: BreakRunning"
    );
    assert_eq!(get_available_modifiers(false)[3], "Ctrl+Shift");
}

#[test]
fn tray_and_telemetry() {
    assert_eq!(tray_menu().len(), 8);
    assert!(matches!(menu_action("quit"), TrayAction::Quit));
    assert!(matches!(menu_action("view-stats"), TrayAction::ShowAndRun { script } if script == "window.location.hash = '#/stats';"));
    assert!(matches!(menu_action("unknown"), TrayAction::Nothing));
    assert!(matches!(left_click_action(true), TrayAction::HideWindow));
    let mut t = TelemetryService::new(Some("key".to_string()), "1.0".to_string());
    assert!(t.is_enabled());
    assert!(t.take_batch().is_none());
    let mut due = false;
    for _ in 0..10 {
        due = t.log_login(pausa::telemetry::LoginEvent {
            event: "started".to_string(),
            provider: "google".to_string(),
            error: None,
        });
    }
    assert!(due);
    let (key, events) = t.take_batch().unwrap();
    assert_eq!(key, "key");
    assert_eq!(events.len(), 10);
    assert_eq!(events[0].event, "login_started");
    assert_eq!(events[0].distinct_id, "anonymous");
    let mut off = TelemetryService::new(None, "1.0".to_string());
    assert!(!off.log_session_completed(pausa::onboarding::json::JsonValue::Null));
    assert_eq!(flush_error("500", "down"), "PostHog API returned error 500: down");
}

#[test]
fn time_zone_falls_back_to_local() {
    assert_eq!(pausa::work_schedule::timezone_or_local(Some("Europe/Madrid".to_string())), "Europe/Madrid");
    assert_eq!(pausa::work_schedule::timezone_or_local(None), "local");
}

#[test]
fn batch_body_lists_events_in_order() {
    let events = vec![
        pausa::telemetry::TelemetryEvent {
            event: "a".to_string(),
            distinct_id: "anonymous".to_string(),
            properties: JsonValue::Null,
            timestamp: Some("t".to_string()),
        },
        pausa::telemetry::TelemetryEvent {
            event: "b".to_string(),
            distinct_id: "u1".to_string(),
            properties: JsonValue::Bool(true),
            timestamp: None,
        },
    ];
    let body = pausa::telemetry::batch_body("key".to_string(), events);
    let top = match body {
        JsonValue::Object(top) => top,
        _ => panic!("expected an object"),
    };
    assert_eq!(top[0].0, "api_key");
    assert!(matches!(&top[0].1, JsonValue::String(k) if k == "key"));
    let items = match &top[1].1 {
        JsonValue::Array(items) => items,
        _ => panic!("expected an array"),
    };
    assert_eq!(items.len(), 2);
    match &items[1] {
        JsonValue::Object(o) => {
            assert_eq!(o.len(), 4);
            assert!(matches!(&o[0].1, JsonValue::String(e) if e == "b"));
            assert!(matches!(&o[1].1, JsonValue::String(d) if d == "u1"));
            assert!(matches!(&o[2].1, JsonValue::Bool(true)));
            assert!(matches!(&o[3].1, JsonValue::Null));
        }
        _ => panic!("expected an object"),
    }
}

#[test]
fn saved_settings_read_back_unchanged() {
    let saved = ApiSettings {
        focus_duration: 50,
        short_break_duration: 10,
        long_break_duration: 30,
        cycles_per_long_break: 3,
        pre_alert_seconds: 90,
        strict_mode: true,
        pin_hash: Some("h".to_string()),
        emergency_key_combination: Some("Ctrl+Alt+E".to_string()),
    };
    let stored = merge_settings(saved.clone(), &Some(UserSettings::default_at(1)), 2);
    let back = settings_view(&Some(stored));
    assert_eq!(back.focus_duration, 50);
    assert_eq!(back.short_break_duration, 10);
    assert_eq!(back.long_break_duration, 30);
    assert_eq!(back.cycles_per_long_break, 3);
    assert_eq!(back.pre_alert_seconds, 90);
    assert!(back.strict_mode);
    assert_eq!(back.pin_hash.as_deref(), Some("h"));
    assert_eq!(back.emergency_key_combination.as_deref(), Some("Ctrl+Alt+E"));
}

#[test]
fn cycle_lengths_and_pre_alert_read_back() {
    let c = EditedCycle { focus_duration: 45, break_duration: 10, long_break_duration: 20, cycles_per_long_break: 2 };
    let (f, b, l, n) = pausa::cycle_config::cycle_config_seconds(&c);
    assert_eq!((f, b, l, n), (2700, 600, 1200, 2));
    assert_eq!(cycle_config_from_stored(f, b, l, n), c);
    let on = PreAlertConfig { pre_alert_seconds: 45, enabled: true };
    assert_eq!(pre_alert_from_stored(pre_alert_value(&on).unwrap()), on);
    let off = PreAlertConfig { pre_alert_seconds: 45, enabled: false };
    assert_eq!(pre_alert_from_stored(pre_alert_value(&off).unwrap()), PreAlertConfig { pre_alert_seconds: 120, enabled: false });
}
