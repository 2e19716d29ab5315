//! What the work-cycle commands record and announce around the cycle
//! orchestrator: the session records to create or complete, and the
//! notifications to show, decided from the states before and after an
//! operation and the events it raised.  Instants are nanoseconds since the
//! Unix epoch; the records hold their whole seconds.

use vstd::prelude::*;
use crate::api_models::wrap_i32;
use crate::cycle_orchestrator::{CycleEvent, CyclePhase, CycleState};
use crate::models::{Session, SessionType};
use crate::clock::{second_of, seconds_between, wall_nanos_ok, whole_seconds, whole_seconds_between};

verus! {

/// A request to (re)initialise the cycle orchestrator.
#[derive(Debug, Clone)]
pub struct InitializeCycleRequest {
    pub force_reload: Option<bool>,
}

/// An attempt to get around strict mode, as it is logged.
#[derive(Debug, Clone)]
pub struct BypassAttemptLog {
    pub session_id: String,
    pub method: String,
    pub timestamp: String,
}

/// A notification to show the user.
#[derive(Debug, Clone, Copy, PartialEq, Eq, Structural)]
pub enum Notice {
    FocusStart,
    FocusWarning { minutes_left: u32 },
    FocusEnd,
    BreakStart,
    LongBreakStart,
    BreakEnd,
    CycleComplete { cycle_count: u32 },
}

/// A completed session to write back: its identifier and the seconds it
/// actually ran.
#[derive(Debug, Clone)]
pub struct SessionCompletion {
    pub session_id: String,
    pub actual_duration: Option<i32>,
}

/// What a timer tick leads to: sessions to complete, sessions to create, and
/// notifications, each in order.
#[derive(Debug)]
pub struct TickPlan {
    pub completions: Vec<SessionCompletion>,
    pub new_sessions: Vec<Session>,
    pub notices: Vec<Notice>,
}

/// The record of a session that just started, as `state` describes it:
/// it began at the state's start time (or `now`), lasts `duration` seconds
/// and is not completed.
pub open spec fn started_record(
    id: String,
    session_type: SessionType,
    state: CycleState,
    duration: u32,
    strict_mode: bool,
    cycle_count: u32,
    is_long_break: bool,
    now: i128,
) -> Session {
    Session {
        id,
        session_type,
        start_time: match state.started_at {
            Some(t) => second_of(t) as i64,
            None => second_of(now) as i64,
        },
        end_time: None,
        planned_duration: wrap_i32(duration as int),
        actual_duration: None,
        strict_mode,
        completed: false,
        notes: None,
        created_at: second_of(now) as i64,
        within_work_hours: state.within_work_hours,
        cycle_number: Some(wrap_i32(cycle_count as int)),
        is_long_break,
    }
}

fn started_record_exec(
    id: String,
    session_type: SessionType,
    state: &CycleState,
    duration: u32,
    strict_mode: bool,
    cycle_count: u32,
    is_long_break: bool,
    now: i128,
) -> (s: Session)
    requires
        wall_nanos_ok(now),
        state.started_at matches Some(t) ==> wall_nanos_ok(t),
    ensures
        s == started_record(id, session_type, *state, duration, strict_mode, cycle_count, is_long_break, now),
{
    Session {
        id,
        session_type,
        start_time: match state.started_at {
            Some(t) => whole_seconds(t),
            None => whole_seconds(now),
        },
        end_time: None,
        planned_duration: crate::api_models::i64_to_i32_wrapping(duration as i64),
        actual_duration: None,
        strict_mode,
        completed: false,
        notes: None,
        created_at: whole_seconds(now),
        within_work_hours: state.within_work_hours,
        cycle_number: Some(crate::api_models::i64_to_i32_wrapping(cycle_count as i64)),
        is_long_break,
    }
}

/// The record to create after a focus session started, when the state has
/// a session: a focus session of `focus_duration` seconds.
pub fn focus_session_record(state: &CycleState, focus_duration: u32, strict_mode: bool, now: i128) -> (r: Option<Session>)
    requires
        wall_nanos_ok(now),
        state.started_at matches Some(t) ==> wall_nanos_ok(t),
    ensures
        match state.session_id {
            None => r is None,
            Some(id) => r == Some(
                started_record(id, SessionType::Focus, *state, focus_duration, strict_mode, state.cycle_count, false, now),
            ),
        },
{
    match &state.session_id {
        None => None,
        Some(id) => Some(
            started_record_exec(
                id.clone(),
                SessionType::Focus,
                state,
                focus_duration,
                strict_mode,
                state.cycle_count,
                false,
                now,
            ),
        ),
    }
}

/// The record to create after a break started, when the state has a
/// session: a long break of `long_break_duration` seconds in the long break
/// phase, else a short one of `break_duration` seconds.
pub fn break_session_record(
    state: &CycleState,
    break_duration: u32,
    long_break_duration: u32,
    strict_mode: bool,
    now: i128,
) -> (r: Option<Session>)
    requires
        wall_nanos_ok(now),
        state.started_at matches Some(t) ==> wall_nanos_ok(t),
    ensures
        match state.session_id {
            None => r is None,
            Some(id) => {
                let long = state.phase == CyclePhase::LongBreak;
                r == Some(
                    started_record(
                        id,
                        if long {
                            SessionType::LongBreak
                        } else {
                            SessionType::ShortBreak
                        },
                        *state,
                        if long {
                            long_break_duration
                        } else {
                            break_duration
                        },
                        strict_mode,
                        state.cycle_count,
                        long,
                        now,
                    ),
                )
            },
        },
{
    match &state.session_id {
        None => None,
        Some(id) => {
            let long = state.phase == CyclePhase::LongBreak;
            let t = if long {
                SessionType::LongBreak
            } else {
                SessionType::ShortBreak
            };
            let d = if long {
                long_break_duration
            } else {
                break_duration
            };
            Some(started_record_exec(id.clone(), t, state, d, strict_mode, state.cycle_count, long, now))
        },
    }
}

/// The notification for a break that just started.
pub fn break_notice(phase: CyclePhase) -> (n: Notice)
    ensures
        n == (if phase == CyclePhase::LongBreak {
            Notice::LongBreakStart
        } else {
            Notice::BreakStart
        }),
{
    if phase == CyclePhase::LongBreak {
        Notice::LongBreakStart
    } else {
        Notice::BreakStart
    }
}

/// Seconds a session of `before` ran when it ends at `now`: the whole
/// seconds from its start, rounded toward zero, when the start is known,
/// else the seconds it had left.
pub open spec fn actual_seconds(before: CycleState, now: i128) -> i32 {
    match before.started_at {
        Some(s) => wrap_i32(seconds_between(s, now)),
        None => wrap_i32(before.remaining_seconds as int),
    }
}

fn actual_seconds_exec(before: &CycleState, now: i128) -> (a: i32)
    requires
        wall_nanos_ok(now),
        before.started_at matches Some(s) ==> wall_nanos_ok(s),
    ensures
        a == actual_seconds(*before, now),
{
    match before.started_at {
        Some(s) => crate::api_models::i64_to_i32_wrapping(whole_seconds_between(s, now)),
        None => crate::api_models::i64_to_i32_wrapping(before.remaining_seconds as i64),
    }
}

/// When a session that `before` held ended completed, the completion to
/// record (see `actual_seconds`).
pub fn end_completion(before: &CycleState, completed: bool, now: i128) -> (c: Option<SessionCompletion>)
    requires
        wall_nanos_ok(now),
        before.started_at matches Some(s) ==> wall_nanos_ok(s),
    ensures
        match before.session_id {
            Some(id) => if completed {
                c matches Some(x) && x.session_id == id && x.actual_duration == Some(
                    actual_seconds(*before, now),
                )
            } else {
                c is None
            },
            None => c is None,
        },
{
    if !completed {
        return None;
    }
    match &before.session_id {
        Some(id) => Some(
            SessionCompletion {
                session_id: id.clone(),
                actual_duration: Some(actual_seconds_exec(before, now)),
            },
        ),
        None => None,
    }
}

/// A stored session marked completed at `end_time` after running
/// `actual_duration` seconds.
pub fn completed_session(stored: Session, end_time: i64, actual_duration: Option<i32>) -> (s: Session)
    ensures
        s == (Session { end_time: Some(end_time), actual_duration, completed: true, ..stored }),
{
    Session { end_time: Some(end_time), actual_duration, completed: true, ..stored }
}

/// The notification for a session of `phase` that ended, when it completed.
pub fn end_notice(phase: CyclePhase, completed: bool) -> (n: Option<Notice>)
    ensures
        n == (if !completed {
            None
        } else {
            match phase {
                CyclePhase::Focus => Some(Notice::FocusEnd),
                CyclePhase::ShortBreak | CyclePhase::LongBreak => Some(Notice::BreakEnd),
                CyclePhase::Idle => None,
            }
        }),
{
    if !completed {
        return None;
    }
    match phase {
        CyclePhase::Focus => Some(Notice::FocusEnd),
        CyclePhase::ShortBreak | CyclePhase::LongBreak => Some(Notice::BreakEnd),
        CyclePhase::Idle => None,
    }
}

/// The kind of record for a session of `phase` (an idle phase counts as a
/// short break).
pub open spec fn phase_session_type(phase: CyclePhase) -> SessionType {
    match phase {
        CyclePhase::LongBreak => SessionType::LongBreak,
        CyclePhase::ShortBreak => SessionType::ShortBreak,
        CyclePhase::Focus => SessionType::Focus,
        CyclePhase::Idle => SessionType::ShortBreak,
    }
}

/// Minutes left, rounded up, for a pre-alert `remaining` seconds before the
/// end.
pub open spec fn minutes_left(remaining: u32) -> u32 {
    ((remaining + 59) / 60) as u32
}

/// The completions an event of a tick calls for.
pub open spec fn event_completions(e: CycleEvent, before: CycleState, now: i128) -> Seq<(String, Option<i32>)> {
    match e {
        CycleEvent::PhaseEnded { completed, .. } => if completed && before.session_id is Some {
            seq![(before.session_id->0, Some(actual_seconds(before, now)))]
        } else {
            seq![]
        },
        _ => seq![],
    }
}

/// The sessions an event of a tick calls for: a phase that started with a
/// session in `after` other than the one of `before` is recorded.
pub open spec fn event_sessions(e: CycleEvent, before: CycleState, after: CycleState, now: i128) -> Seq<Session> {
    match e {
        CycleEvent::PhaseStarted { phase, duration, cycle_count } => match after.session_id {
            Some(id) => if !(before.session_id matches Some(b) && b@ == id@) {
                seq![
                    started_record(
                        id,
                        phase_session_type(phase),
                        after,
                        duration,
                        false,
                        cycle_count,
                        phase == CyclePhase::LongBreak,
                        now,
                    ),
                ]
            } else {
                seq![]
            },
            None => seq![],
        },
        _ => seq![],
    }
}

/// The notifications an event of a tick calls for.
pub open spec fn event_notices(e: CycleEvent) -> Seq<Notice> {
    match e {
        CycleEvent::PreAlert { remaining } => seq![Notice::FocusWarning { minutes_left: minutes_left(remaining) }],
        CycleEvent::CycleCompleted { cycle_count } => seq![Notice::CycleComplete { cycle_count }],
        _ => seq![],
    }
}

/// The completions of the first `n` events.
pub open spec fn all_completions(ev: Seq<CycleEvent>, n: int, before: CycleState, now: i128) -> Seq<(String, Option<i32>)>
    decreases n,
{
    if n <= 0 {
        seq![]
    } else {
        all_completions(ev, n - 1, before, now) + event_completions(ev[n - 1], before, now)
    }
}

/// The new sessions of the first `n` events.
pub open spec fn all_sessions(ev: Seq<CycleEvent>, n: int, before: CycleState, after: CycleState, now: i128) -> Seq<Session>
    decreases n,
{
    if n <= 0 {
        seq![]
    } else {
        all_sessions(ev, n - 1, before, after, now) + event_sessions(ev[n - 1], before, after, now)
    }
}

/// The notifications of the first `n` events.
pub open spec fn all_notices(ev: Seq<CycleEvent>, n: int) -> Seq<Notice>
    decreases n,
{
    if n <= 0 {
        seq![]
    } else {
        all_notices(ev, n - 1) + event_notices(ev[n - 1])
    }
}

/// The completions of a list, as pairs.
pub open spec fn completion_pairs(v: Seq<SessionCompletion>) -> Seq<(String, Option<i32>)> {
    v.map_values(|c: SessionCompletion| (c.session_id, c.actual_duration))
}

/// What a tick that went from `before` to `after` raising `events` calls
/// for, at wall time `now`: every completed phase that ended with a session
/// completes it; every phase that started with a new session records it;
/// pre-alerts and completed cycles are announced.
pub fn tick_plan(before: &CycleState, after: &CycleState, events: &Vec<CycleEvent>, now: i128) -> (p: TickPlan)
    requires
        wall_nanos_ok(now),
        before.started_at matches Some(s) ==> wall_nanos_ok(s),
        after.started_at matches Some(s) ==> wall_nanos_ok(s),
        forall|i: int|
            0 <= i < events@.len() ==> (#[trigger] events@[i] matches CycleEvent::PreAlert { remaining }
                ==> remaining <= u32::MAX - 59),
    ensures
        completion_pairs(p.completions@) == all_completions(events@, events@.len() as int, *before, now),
        p.new_sessions@ == all_sessions(events@, events@.len() as int, *before, *after, now),
        p.notices@ == all_notices(events@, events@.len() as int),
{
    let mut completions: Vec<SessionCompletion> = Vec::new();
    let mut new_sessions: Vec<Session> = Vec::new();
    let mut notices: Vec<Notice> = Vec::new();
    let mut i: usize = 0;
    while i < events.len()
        invariant
            i <= events.len(),
            wall_nanos_ok(now),
            before.started_at matches Some(s) ==> wall_nanos_ok(s),
            after.started_at matches Some(s) ==> wall_nanos_ok(s),
            forall|k: int|
                0 <= k < events@.len() ==> (#[trigger] events@[k] matches CycleEvent::PreAlert {
                    remaining,
                } ==> remaining <= u32::MAX - 59),
            completion_pairs(completions@) == all_completions(events@, i as int, *before, now),
            new_sessions@ == all_sessions(events@, i as int, *before, *after, now),
            notices@ == all_notices(events@, i as int),
        decreases events.len() - i,
    {
        let e = events[i];
        let ghost c0 = completions@;
        match e {
            CycleEvent::PhaseEnded { completed, .. } => {
                if completed {
                    match &before.session_id {
                        Some(id) => {
                            completions.push(
                                SessionCompletion {
                                    session_id: id.clone(),
                                    actual_duration: Some(actual_seconds_exec(before, now)),
                                },
                            );
                        },
                        None => {},
                    }
                }
            },
            CycleEvent::PhaseStarted { phase, duration, cycle_count } => {
                match &after.session_id {
                    Some(id) => {
                        let fresh = match &before.session_id {
                            Some(b) => !crate::text::str_eq(b.as_str(), id.as_str()),
                            None => true,
                        };
                        if fresh {
                            let t = match phase {
                                CyclePhase::LongBreak => SessionType::LongBreak,
                                CyclePhase::ShortBreak => SessionType::ShortBreak,
                                CyclePhase::Focus => SessionType::Focus,
                                CyclePhase::Idle => SessionType::ShortBreak,
                            };
                            new_sessions.push(
                                started_record_exec(
                                    id.clone(),
                                    t,
                                    after,
                                    duration,
                                    false,
                                    cycle_count,
                                    phase == CyclePhase::LongBreak,
                                    now,
                                ),
                            );
                        }
                    },
                    None => {},
                }
            },
            CycleEvent::PreAlert { remaining } => {
                assert(events@[i as int] matches CycleEvent::PreAlert { remaining });
                notices.push(Notice::FocusWarning { minutes_left: (remaining + 59) / 60 });
            },
            CycleEvent::CycleCompleted { cycle_count } => {
                notices.push(Notice::CycleComplete { cycle_count });
            },
            _ => {},
        }
        assert(completion_pairs(completions@) =~= completion_pairs(c0) + event_completions(
            events@[i as int],
            *before,
            now,
        ));
        i = i + 1;
    }
    TickPlan { completions, new_sessions, notices }
}

} // verus!
