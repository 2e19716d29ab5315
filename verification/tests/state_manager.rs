use pausa::api_models::{BreakType, SessionState, UserSettings};
use pausa::models::{Session, SessionType};
use pausa::state_manager::{
    AppState, Machine, StateEvent, StateManager, StoreWrite, TimeSpan, TimerCore, TimerState,
};

fn manager() -> StateManager {
    StateManager::new(UserSettings::default())
}

fn machine() -> Machine {
    Machine {
        current_state: AppState::Idle,
        current_session: None,
        current_break: None,
        timer_state: None,
        settings: UserSettings::default(),
        cycle_count: 0,
        pre_alert_triggered: false,
    }
}

#[test]
fn test_timer_state() {
    let mut timer = TimerState::new(60);

    assert!(!timer.is_finished());
    assert!(!timer.is_paused());

    timer.pause();
    assert!(timer.is_paused());

    timer.resume();
    assert!(!timer.is_paused());

    assert!(timer.remaining().as_secs() <= 60);
}

#[test]
fn test_initial_state() {
    let manager = manager();
    assert_eq!(manager.get_state(), AppState::Idle);
    assert!(manager.get_current_session().is_none());
    assert!(manager.get_current_break().is_none());
}

#[test]
fn test_start_focus_session() {
    let mut manager = manager();
    let outcome = manager.start_focus_session(false).unwrap();

    assert_eq!(manager.get_state(), AppState::FocusRunning);
    assert!(manager.get_current_session().is_some());
    assert_eq!(outcome.events.len(), 2);

    let session = manager.get_current_session().unwrap();
    assert_eq!(session.duration, 25 * 60);
    assert_eq!(session.is_strict, false);
    assert!(session.is_running);
}

#[test]
fn test_pause_resume_session() {
    let mut manager = manager();
    manager.start_focus_session(false).unwrap();

    let pause_events = manager.pause_session().unwrap();
    assert_eq!(pause_events.len(), 1);
    let session = manager.get_current_session().unwrap();
    assert!(!session.is_running);

    let resume_events = manager.resume_session().unwrap();
    assert_eq!(resume_events.len(), 1);
    let session = manager.get_current_session().unwrap();
    assert!(session.is_running);
}

#[test]
fn test_state_transitions() {
    let mut manager = manager();
    manager.start_focus_session(false).unwrap();
    assert_eq!(manager.get_state(), AppState::FocusRunning);
    manager.end_session();
    assert_eq!(manager.get_state(), AppState::Idle);
}

#[test]
fn test_cycle_counting() {
    let mut manager = manager();
    assert_eq!(manager.get_cycle_count(), 0);
    manager.reset_cycle_count();
    assert_eq!(manager.get_cycle_count(), 0);
}

#[test]
fn timer_core_counts_and_excludes_pauses() {
    let mut t = TimerCore::started(60, 0, 1_000);
    assert_eq!(t.elapsed(1_000 + 5_000_000_000), TimeSpan { nanos: 5_000_000_000 });
    assert_eq!(t.remaining(1_000 + 5_000_000_000).as_secs(), 55);
    t.pause(1_000 + 10_000_000_000);
    // time does not run while paused
    assert_eq!(t.elapsed(1_000 + 40_000_000_000).nanos, 10_000_000_000);
    t.resume(1_000 + 40_000_000_000);
    assert_eq!(t.elapsed(1_000 + 40_000_000_000).nanos, 10_000_000_000);
    assert!(!t.is_finished(1_000 + 89_000_000_000));
    assert!(t.is_finished(1_000 + 90_000_000_000));
    assert_eq!(t.remaining(1_000 + 100_000_000_000).nanos, 0);
}

#[test]
fn timer_core_ignores_backward_readings() {
    let mut t = TimerCore::started(10, 0, 5_000);
    t.observe(9_000);
    assert_eq!(t.elapsed(1_000).nanos, 4_000);
}

#[test]
fn start_focus_records_session() {
    let mut m = machine();
    let o = m.start_focus_session_at(true, "abc".to_string(), 1_700_000_000, 0).unwrap();
    assert_eq!(m.current_state, AppState::FocusRunning);
    let s = m.current_session.clone().unwrap();
    assert_eq!(s.duration, 1500);
    assert_eq!(s.remaining, 1500);
    assert_eq!(s.state, SessionState::Running);
    match &o.writes[0] {
        StoreWrite::CreateSession(rec) => {
            assert_eq!(rec.id, "abc");
            assert_eq!(rec.session_type, SessionType::Focus);
            assert_eq!(rec.start_time, 1_700_000_000);
            assert_eq!(rec.planned_duration, 1500);
            assert!(rec.strict_mode);
            assert!(!rec.completed);
        }
        _ => panic!("expected a new session"),
    }
    assert!(matches!(
        o.events[0],
        StateEvent::StateChanged { from: AppState::Idle, to: AppState::FocusRunning }
    ));
    let err = m.start_focus_session_at(false, "x".to_string(), 0, 0).unwrap_err();
    assert_eq!(err, "Cannot start focus session: not in idle state");
}

#[test]
fn pause_outside_focus_fails() {
    let mut m = machine();
    assert_eq!(m.pause_session_at(0).unwrap_err(), "No active session to pause");
    assert_eq!(m.resume_session_at(0).unwrap_err(), "No paused session to resume");
}

#[test]
fn tick_raises_pre_alert_once_then_completes_into_break() {
    let mut m = machine();
    m.start_focus_session_at(false, "s1".to_string(), 1_000, 0).unwrap();
    // 1380 s in: 120 s left, the pre-alert time
    let o = m.handle_timer_tick_at(2_380, 1_380_000_000_000, "b1".to_string());
    assert_eq!(o.events.len(), 3);
    assert!(matches!(
        o.events[1],
        StateEvent::PreAlertTriggered { remaining_seconds: 120, .. }
    ));
    assert_eq!(m.current_state, AppState::FocusPreAlert);
    let o = m.handle_timer_tick_at(2_390, 1_390_000_000_000, "b1".to_string());
    assert_eq!(o.events.len(), 1);
    assert!(matches!(o.events[0], StateEvent::TimerTick { remaining_seconds: 110 }));
    // time is up: the session ends and a short break starts
    let o = m.handle_timer_tick_at(2_500, 1_500_000_000_000, "b1".to_string());
    assert_eq!(m.cycle_count, 1);
    assert_eq!(m.current_state, AppState::BreakRunning);
    let b = m.current_break.clone().unwrap();
    assert_eq!(b.id, "b1");
    assert_eq!(b.break_type, BreakType::Short);
    assert_eq!(b.duration, 300);
    assert!(matches!(
        o.events[0],
        StateEvent::StateChanged { from: AppState::FocusPreAlert, to: AppState::FocusEnding }
    ));
    assert!(matches!(o.events[1], StateEvent::SessionCompleted { .. }));
    assert_eq!(o.writes.len(), 2);
    match &o.writes[0] {
        StoreWrite::UpdateSession(rec) => {
            assert!(rec.completed);
            assert_eq!(rec.actual_duration, Some(1500));
            assert_eq!(rec.end_time, Some(2_500));
        }
        _ => panic!("expected an update"),
    }
}

#[test]
fn long_break_every_fourth_session() {
    let mut m = machine();
    m.cycle_count = 3;
    m.start_focus_session_at(false, "s".to_string(), 0, 0).unwrap();
    let o = m.handle_timer_tick_at(1_500, 1_500_000_000_000, "b".to_string());
    assert_eq!(m.cycle_count, 4);
    assert_eq!(m.current_state, AppState::LongBreakRunning);
    assert_eq!(m.current_break.as_ref().unwrap().duration, 900);
    assert_eq!(o.writes.len(), 2);
}

#[test]
fn break_completes_to_idle() {
    let mut m = machine();
    m.start_immediate_break_at(BreakType::Short, "b".to_string(), 10_000, 0).unwrap();
    assert_eq!(m.current_state, AppState::BreakRunning);
    let o = m.handle_timer_tick_at(10_300, 300_000_000_000, "x".to_string());
    assert_eq!(m.current_state, AppState::Idle);
    assert!(m.current_break.is_none());
    match &o.writes[0] {
        StoreWrite::UpdateSession(rec) => {
            assert_eq!(rec.start_time, 10_000);
            assert_eq!(rec.end_time, Some(10_300));
            assert_eq!(rec.actual_duration, Some(300));
            assert!(rec.completed);
        }
        _ => panic!("expected an update"),
    }
}

#[test]
fn manual_end_goes_idle_without_counting() {
    let mut m = machine();
    m.start_focus_session_at(false, "s".to_string(), 100, 0).unwrap();
    m.handle_timer_tick_at(160, 60_000_000_000, "x".to_string());
    let o = m.end_session_at(160, 60_000_000_000, "x".to_string());
    assert_eq!(m.current_state, AppState::Idle);
    assert_eq!(m.cycle_count, 0);
    match &o.writes[0] {
        StoreWrite::UpdateSession(rec) => {
            assert!(!rec.completed);
            assert_eq!(rec.actual_duration, Some(60));
        }
        _ => panic!("expected an update"),
    }
}

#[test]
fn recovery_resumes_running_focus_and_closes_breaks() {
    let mut m = machine();
    let focus = Session {
        id: "f".to_string(),
        session_type: SessionType::Focus,
        start_time: 1_000,
        end_time: None,
        planned_duration: 1500,
        actual_duration: None,
        strict_mode: false,
        completed: false,
        notes: None,
        created_at: 1_000,
        within_work_hours: true,
        cycle_number: None,
        is_long_break: false,
    };
    let w = m.recover_active_session_at(Some(focus), 1_600, 0);
    assert!(w.is_empty());
    assert_eq!(m.current_state, AppState::FocusRunning);
    assert_eq!(m.current_session.as_ref().unwrap().remaining, 900);
    let mut m2 = machine();
    let brk = Session {
        id: "b".to_string(),
        session_type: SessionType::ShortBreak,
        start_time: 0,
        end_time: None,
        planned_duration: 300,
        actual_duration: None,
        strict_mode: false,
        completed: false,
        notes: None,
        created_at: 0,
        within_work_hours: true,
        cycle_number: None,
        is_long_break: false,
    };
    let w = m2.recover_active_session_at(Some(brk), 50, 0);
    match &w[0] {
        StoreWrite::UpdateSession(rec) => {
            assert!(rec.completed);
            assert_eq!(rec.end_time, Some(50));
            assert_eq!(rec.actual_duration, Some(300));
        }
        _ => panic!("expected an update"),
    }
    assert_eq!(m2.current_state, AppState::Idle);
}

#[test]
fn update_settings_stores_seconds() {
    let mut manager = manager();
    let mut s = UserSettings::default();
    s.focus_duration = 50;
    match manager.update_settings(s) {
        StoreWrite::SaveSettings(db) => {
            assert_eq!(db.focus_duration, 3000);
            assert_eq!(db.cycles_per_long_break_v2, 4);
        }
        _ => panic!("expected settings"),
    }
    assert_eq!(manager.get_settings().focus_duration, 50);
}
