//! The application state machine: a focus session, then a short or long
//! break, with a timer that can be paused.  The timer reads a monotonic clock
//! in nanoseconds; the state machine takes the readings, the wall-clock time
//! and fresh identifiers as arguments and returns the events it raises and
//! the records to store.

use vstd::prelude::*;
use crate::api_models::{
    BreakActivity, BreakSession, BreakType, FocusSession, SessionState, UserSettings, wrap_i32,
};
use crate::clock::{instant_now, nanos_since, new_uuid_string, unix_now};
use crate::models::{Session, SessionType, UserSettings as DbUserSettings};

verus! {

/// Nanoseconds in a second.
pub const NANOS_PER_SEC: i128 = 1_000_000_000;

/// A length of time, in nanoseconds.
#[derive(Debug, Clone, Copy, PartialEq, Eq, Structural)]
pub struct TimeSpan {
    pub nanos: u64,
}

impl TimeSpan {
    /// Whole seconds of the span.
    pub fn as_secs(&self) -> (s: u64)
        ensures
            s == self.nanos / 1_000_000_000,
    {
        self.nanos / 1_000_000_000
    }
}

/// The span of `n` nanoseconds, or the longest span when `n` does not fit.
pub open spec fn span_of(n: int) -> TimeSpan {
    TimeSpan {
        nanos: if n <= 0 {
            0
        } else if n > u64::MAX {
            u64::MAX
        } else {
            n as u64
        },
    }
}

fn span_of_exec(n: i128) -> (t: TimeSpan)
    ensures
        t == span_of(n as int),
{
    if n <= 0 {
        TimeSpan { nanos: 0 }
    } else if n > 0xffff_ffff_ffff_ffff {
        TimeSpan { nanos: 0xffff_ffff_ffff_ffff }
    } else {
        TimeSpan { nanos: n as u64 }
    }
}

/// Bound on the clock readings and instants a timer holds.
pub open spec fn in_clock_range(t: int) -> bool {
    -0x1_0000_0000_0000_0000_0000 <= t <= 0x1_0000_0000_0000_0000_0000
}

/// A pausable countdown over a monotonic clock.  Instants are nanoseconds
/// on that clock; `last` is the latest reading seen, so that a reading that
/// goes backwards is taken as `last`.
#[derive(Debug, Clone, Copy)]
pub struct TimerCore {
    pub start: i128,
    pub pause_time: Option<i128>,
    pub total_paused: i128,
    pub planned: i128,
    pub last: i128,
}

impl TimerCore {
    /// The instants are ordered and the paused time fits between them.
    pub open spec fn inv(self) -> bool {
        &&& 0 <= self.planned <= u32::MAX * NANOS_PER_SEC
        &&& in_clock_range(self.start as int)
        &&& in_clock_range(self.last as int)
        &&& self.start <= self.last
        &&& (self.pause_time matches Some(p) ==> self.start <= p <= self.last)
        &&& 0 <= self.total_paused <= self.stop_point(self.last as int) - self.start
    }

    /// The instant up to which the timer has run, for a reading `now`.
    pub open spec fn stop_point(self, now: int) -> int {
        match self.pause_time {
            Some(p) => p as int,
            None => now,
        }
    }

    /// The reading actually used for `now`: never earlier than `last`.
    pub open spec fn reading(self, now: u64) -> int {
        if (now as int) < self.last {
            self.last as int
        } else {
            now as int
        }
    }

    /// Time the timer has run (not counting pauses) at reading `now`.
    pub open spec fn elapsed_at(self, now: u64) -> int {
        self.stop_point(self.reading(now)) - self.start - self.total_paused
    }

    /// Time left at reading `now`, never below zero.
    pub open spec fn remaining_at(self, now: u64) -> int {
        if self.planned - self.elapsed_at(now) < 0 {
            0
        } else {
            self.planned - self.elapsed_at(now)
        }
    }

    /// The timer for `duration_seconds` started at reading `now`, of which
    /// `elapsed_seconds` have already run.
    pub open spec fn started_spec(duration_seconds: u32, elapsed_seconds: u32, now: u64) -> TimerCore {
        TimerCore {
            start: (now - elapsed_seconds * NANOS_PER_SEC) as i128,
            pause_time: None,
            total_paused: 0,
            planned: (duration_seconds * NANOS_PER_SEC) as i128,
            last: now as i128,
        }
    }

    /// A timer for `duration_seconds` started at reading `now`, of which
    /// `elapsed_seconds` have already run.
    pub fn started(duration_seconds: u32, elapsed_seconds: u32, now: u64) -> (t: TimerCore)
        ensures
            t.inv(),
            t == TimerCore::started_spec(duration_seconds, elapsed_seconds, now),
            t.start == now - elapsed_seconds * NANOS_PER_SEC,
            t.last == now,
            t.pause_time is None,
            t.total_paused == 0,
            t.planned == duration_seconds * NANOS_PER_SEC,
    {
        TimerCore {
            start: now as i128 - (elapsed_seconds as i128) * 1_000_000_000,
            pause_time: None,
            total_paused: 0,
            planned: (duration_seconds as i128) * 1_000_000_000,
            last: now as i128,
        }
    }

    /// Records a clock reading.
    pub fn observe(&mut self, now: u64)
        requires
            old(self).inv(),
        ensures
            final(self).inv(),
            final(self).last == old(self).reading(now),
            final(self).start == old(self).start,
            final(self).pause_time == old(self).pause_time,
            final(self).total_paused == old(self).total_paused,
            final(self).planned == old(self).planned,
    {
        if now as i128 > self.last {
            self.last = now as i128;
        }
    }

    /// Pauses at reading `now`; a paused timer stays as it is.
    pub fn pause(&mut self, now: u64)
        requires
            old(self).inv(),
        ensures
            final(self).inv(),
            final(self).pause_time == (match old(self).pause_time {
                Some(p) => Some(p),
                None => Some(old(self).reading(now) as i128),
            }),
            final(self).last == old(self).reading(now),
            final(self).start == old(self).start,
            final(self).total_paused == old(self).total_paused,
            final(self).planned == old(self).planned,
    {
        self.observe(now);
        if self.pause_time.is_none() {
            self.pause_time = Some(self.last);
        }
    }

    /// Resumes at reading `now`, adding the pause to the paused time; a
    /// running timer stays as it is.
    pub fn resume(&mut self, now: u64)
        requires
            old(self).inv(),
        ensures
            final(self).inv(),
            final(self).pause_time is None,
            final(self).total_paused == (match old(self).pause_time {
                Some(p) => old(self).total_paused + old(self).reading(now) - p,
                None => old(self).total_paused as int,
            }),
            final(self).last == old(self).reading(now),
            final(self).start == old(self).start,
            final(self).planned == old(self).planned,
    {
        self.observe(now);
        match self.pause_time {
            Some(p) => {
                self.total_paused = self.total_paused + (self.last - p);
                self.pause_time = None;
            },
            None => {},
        }
    }

    /// Time run at reading `now`.
    pub fn elapsed(&self, now: u64) -> (t: TimeSpan)
        requires
            self.inv(),
        ensures
            t == span_of(self.elapsed_at(now)),
            self.elapsed_at(now) >= 0,
    {
        let r: i128 = if (now as i128) < self.last {
            self.last
        } else {
            now as i128
        };
        let stop: i128 = match self.pause_time {
            Some(p) => p,
            None => r,
        };
        span_of_exec(stop - self.start - self.total_paused)
    }

    /// Time left at reading `now`.
    pub fn remaining(&self, now: u64) -> (t: TimeSpan)
        requires
            self.inv(),
        ensures
            t == span_of(self.remaining_at(now)),
            t.nanos == self.remaining_at(now),
    {
        let r: i128 = if (now as i128) < self.last {
            self.last
        } else {
            now as i128
        };
        let stop: i128 = match self.pause_time {
            Some(p) => p,
            None => r,
        };
        let e: i128 = stop - self.start - self.total_paused;
        let left: i128 = if self.planned - e < 0 {
            0
        } else {
            self.planned - e
        };
        span_of_exec(left)
    }

    /// Whether the planned time has run out at reading `now`.
    pub fn is_finished(&self, now: u64) -> (b: bool)
        requires
            self.inv(),
        ensures
            b == (self.elapsed_at(now) >= self.planned),
    {
        let r: i128 = if (now as i128) < self.last {
            self.last
        } else {
            now as i128
        };
        let stop: i128 = match self.pause_time {
            Some(p) => p,
            None => r,
        };
        stop - self.start - self.total_paused >= self.planned
    }

    /// Whether the timer is paused.
    pub fn is_paused(&self) -> (b: bool)
        ensures
            b == (self.pause_time is Some),
    {
        self.pause_time.is_some()
    }
}

/// While paused, the time run does not change as the clock advances.
pub proof fn law_paused_timer_holds(t: TimerCore, now1: u64, now2: u64)
    requires
        t.inv(),
        t.pause_time is Some,
    ensures
        t.elapsed_at(now1) == t.elapsed_at(now2),
{
}

/// Pausing and then resuming at the same reading leaves the time run
/// unchanged, at that reading and at every later one.
pub proof fn law_pause_resume_keeps_elapsed(t: TimerCore, now: u64, later: u64)
    requires
        t.inv(),
        t.pause_time is None,
        now <= later,
    ensures
        ({
            let paused = TimerCore { pause_time: Some(t.reading(now) as i128), last: t.reading(now) as i128, ..t };
            let resumed = TimerCore {
                pause_time: None,
                total_paused: (paused.total_paused + paused.reading(now) - paused.pause_time->0) as i128,
                last: paused.reading(now) as i128,
                ..paused
            };
            &&& resumed.elapsed_at(later) == t.elapsed_at(later)
            &&& paused.elapsed_at(now) == t.elapsed_at(now)
        }),
{
}

/// Time run and time left add up to the planned time until it runs out.
pub proof fn law_elapsed_plus_remaining(t: TimerCore, now: u64)
    requires
        t.inv(),
        t.elapsed_at(now) < t.planned,
    ensures
        t.elapsed_at(now) + t.remaining_at(now) == t.planned,
{
}

/// A countdown on the system's monotonic clock.
#[derive(Debug)]
pub struct TimerState {
    origin: std::time::Instant,
    countdown: TimerCore,
}

impl TimerState {
    #[verifier::type_invariant]
    spec fn well_formed(self) -> bool {
        self.countdown.inv()
    }

    /// The countdown as instants on the clock.
    pub closed spec fn countdown(&self) -> TimerCore {
        self.countdown
    }

    /// A running countdown of `duration_seconds` started now.
    pub fn new(duration_seconds: u32) -> (t: TimerState)
        ensures
            t.countdown().inv(),
            t.countdown().pause_time is None,
            t.countdown().total_paused == 0,
            t.countdown().planned == duration_seconds * NANOS_PER_SEC,
            t.countdown().start == t.countdown().last,
    {
        let origin = instant_now();
        TimerState { origin, countdown: TimerCore::started(duration_seconds, 0, 0) }
    }

    /// Pauses the countdown; a paused one stays as it is.
    pub fn pause(&mut self)
        ensures
            final(self).countdown().inv(),
            final(self).countdown().pause_time is Some,
            old(self).countdown().pause_time matches Some(p) ==> final(self).countdown().pause_time == Some(p),
            final(self).countdown().start == old(self).countdown().start,
            final(self).countdown().total_paused == old(self).countdown().total_paused,
            final(self).countdown().planned == old(self).countdown().planned,
    {
        proof {
            use_type_invariant(&*self);
        }
        let now = nanos_since(&self.origin);
        let mut c = self.countdown;
        c.pause(now);
        self.countdown = c;
    }

    /// Resumes the countdown; a running one stays as it is.
    pub fn resume(&mut self)
        ensures
            final(self).countdown().inv(),
            final(self).countdown().pause_time is None,
            old(self).countdown().pause_time is None ==> final(self).countdown().total_paused
                == old(self).countdown().total_paused,
            final(self).countdown().start == old(self).countdown().start,
            final(self).countdown().planned == old(self).countdown().planned,
    {
        proof {
            use_type_invariant(&*self);
        }
        let now = nanos_since(&self.origin);
        let mut c = self.countdown;
        c.resume(now);
        self.countdown = c;
    }

    /// Time run so far, not counting pauses.
    pub fn elapsed(&self) -> (t: TimeSpan)
        ensures
            exists|now: u64| t == span_of(#[trigger] self.countdown().elapsed_at(now)),
    {
        proof {
            use_type_invariant(&*self);
        }
        let now = nanos_since(&self.origin);
        self.countdown.elapsed(now)
    }

    /// Time left, never below zero and never above the planned time.
    pub fn remaining(&self) -> (t: TimeSpan)
        ensures
            exists|now: u64| t == span_of(#[trigger] self.countdown().remaining_at(now)),
            t.nanos <= self.countdown().planned,
    {
        proof {
            use_type_invariant(&*self);
        }
        let now = nanos_since(&self.origin);
        self.countdown.remaining(now)
    }

    /// Whether the planned time has run out.
    pub fn is_finished(&self) -> (b: bool)
        ensures
            exists|now: u64| b == (#[trigger] self.countdown().elapsed_at(now) >= self.countdown().planned),
    {
        proof {
            use_type_invariant(&*self);
        }
        let now = nanos_since(&self.origin);
        self.countdown.is_finished(now)
    }

    /// Whether the countdown is paused.
    pub fn is_paused(&self) -> (b: bool)
        ensures
            b == (self.countdown().pause_time is Some),
    {
        self.countdown.is_paused()
    }
}

/// State of the application.
#[derive(Debug, Clone, Copy, PartialEq, Eq, Structural)]
pub enum AppState {
    Idle,
    FocusRunning,
    FocusPreAlert,
    FocusEnding,
    BreakRunning,
    LongBreakRunning,
}

/// What the state machine reports.
#[derive(Debug, Clone)]
pub enum StateEvent {
    StateChanged { from: AppState, to: AppState },
    SessionStarted { session_id: String },
    SessionPaused { session_id: String },
    SessionResumed { session_id: String },
    SessionCompleted { session_id: String },
    PreAlertTriggered { session_id: String, remaining_seconds: u32 },
    BreakStarted { break_session: BreakSession },
    BreakCompleted { session_id: String },
    TimerTick { remaining_seconds: u32 },
}

/// A record the state machine asks to store.
#[derive(Debug, Clone)]
pub enum StoreWrite {
    CreateSession(Session),
    UpdateSession(Session),
    SaveSettings(DbUserSettings),
}

/// The events raised by one operation and the records to store, in order.
#[derive(Debug)]
pub struct Outcome {
    pub events: Vec<StateEvent>,
    pub writes: Vec<StoreWrite>,
}

/// Bound on wall-clock times (seconds): every time a `chrono::DateTime<Utc>`
/// can hold lies within it.
pub open spec fn wall_time_ok(t: i64) -> bool {
    -0x4_0000_0000_0000 <= t <= 0x4_0000_0000_0000
}

/// The record of a focus session as it ends at `now`.
pub open spec fn ended_record(s: FocusSession, now: i64) -> Session {
    Session {
        end_time: Some(now),
        completed: s.remaining == 0,
        actual_duration: Some(wrap_i32(s.duration - s.remaining)),
        ..s.record()
    }
}

/// The record of a break as it completes at `now`: it started its
/// duration earlier and ran all of it.
pub open spec fn completed_break_record(b: BreakSession, now: i64) -> Session {
    Session {
        end_time: Some(now),
        completed: true,
        actual_duration: Some(wrap_i32(b.duration as int)),
        ..b.record((now - b.duration) as i64)
    }
}

/// Whole seconds left on a timer at reading `now`.
pub open spec fn seconds_left(t: TimerCore, now: u64) -> u32 {
    (t.remaining_at(now) / (NANOS_PER_SEC as int)) as u32
}

/// The state machine without its clock: everything it decides on.
#[derive(Debug)]
pub struct Machine {
    pub current_state: AppState,
    pub current_session: Option<FocusSession>,
    pub current_break: Option<BreakSession>,
    pub timer_state: Option<TimerCore>,
    pub settings: UserSettings,
    pub cycle_count: u32,
    pub pre_alert_triggered: bool,
}

/// `b` is the break that completing a focus session in `m` starts, with
/// identifier `id` (the cycle count of `m` already includes that session):
/// a long break when the count is a multiple of the long break period.
pub open spec fn is_next_break(m: Machine, b: BreakSession, id: String) -> bool {
    let long = m.cycle_count % m.settings.cycles_per_long_break == 0;
    BreakSession::is_new(
        b,
        id,
        if long {
            BreakType::Long
        } else {
            BreakType::Short
        },
        if long {
            m.settings.long_break_duration
        } else {
            m.settings.short_break_duration
        },
        m.settings.strict_mode,
    )
}

/// The state of a running break of the given kind.
pub open spec fn break_state(t: BreakType) -> AppState {
    match t {
        BreakType::Long => AppState::LongBreakRunning,
        BreakType::Short => AppState::BreakRunning,
    }
}

/// `m2`, `ev` and `wr` are what ending the focus session of `m` at wall time
/// `wall` and reading `now` gives, a following break getting identifier
/// `id`: the session's record is updated; when nothing was left of it the
/// cycle count grows and a break starts, else the machine goes idle.
pub open spec fn ended_post(
    m: Machine,
    m2: Machine,
    wall: i64,
    now: u64,
    id: String,
    ev: Seq<StateEvent>,
    wr: Seq<StoreWrite>,
) -> bool {
    match m.current_session {
        None => ev.len() == 0 && wr.len() == 0 && m2 == m,
        Some(s) => {
            &&& wr.len() >= 1
            &&& (wr[0] matches StoreWrite::UpdateSession(r) && r == ended_record(s, wall))
            &&& ev.len() >= 1
            &&& (ev[0] matches StateEvent::SessionCompleted { session_id } && session_id == s.id)
            &&& m2.current_session is None
            &&& !m2.pre_alert_triggered
            &&& m2.settings == m.settings
            &&& if s.remaining == 0 {
                &&& m2.cycle_count == m.cycle_count + 1
                &&& (m2.current_break matches Some(b) && is_next_break(m2, b, id) && {
                    &&& m2.current_state == break_state(b.break_type)
                    &&& m2.timer_state == Some(TimerCore::started_spec(b.duration, 0, now))
                    &&& wr.len() == 2
                    &&& (wr[1] matches StoreWrite::CreateSession(r) && r == b.record(wall))
                    &&& ev.len() == 3
                    &&& (ev[1] matches StateEvent::StateChanged { from, to } && from
                        == m.current_state && to == m2.current_state)
                    &&& (ev[2] matches StateEvent::BreakStarted { break_session } && break_session.same_as(b))
                })
            } else {
                &&& m2.current_state == AppState::Idle
                &&& m2.timer_state is None
                &&& m2.cycle_count == m.cycle_count
                &&& m2.current_break == m.current_break
                &&& wr.len() == 1
                &&& ev.len() == 2
                &&& (ev[1] matches StateEvent::StateChanged { from, to } && from == m.current_state
                    && to == AppState::Idle)
            }
        },
    }
}

/// `m2`, `ev` and `wr` are what completing the break of `m` at wall time
/// `wall` gives: its record is updated and the machine goes idle.
pub open spec fn break_completed_post(
    m: Machine,
    m2: Machine,
    wall: i64,
    ev: Seq<StateEvent>,
    wr: Seq<StoreWrite>,
) -> bool {
    match m.current_break {
        None => ev.len() == 0 && wr.len() == 0 && m2 == m,
        Some(b) => {
            &&& wr.len() == 1
            &&& (wr[0] matches StoreWrite::UpdateSession(r) && r == completed_break_record(b, wall))
            &&& ev.len() == 2
            &&& (ev[0] matches StateEvent::BreakCompleted { session_id } && session_id == b.id)
            &&& (ev[1] matches StateEvent::StateChanged { from, to } && from == m.current_state && to
                == AppState::Idle)
            &&& m2 == Machine {
                current_state: AppState::Idle,
                current_break: None,
                timer_state: None,
                ..m
            }
        },
    }
}

/// The timer of `m` paused at reading `now` (unchanged when already
/// paused).
pub open spec fn paused_timer(t: Option<TimerCore>, now: u64) -> Option<TimerCore> {
    match t {
        Some(t) => Some(
            TimerCore {
                pause_time: match t.pause_time {
                    Some(p) => Some(p),
                    None => Some(t.reading(now) as i128),
                },
                last: t.reading(now) as i128,
                ..t
            },
        ),
        None => None,
    }
}

/// The timer of `m` resumed at reading `now`, the pause added to the paused
/// time.
pub open spec fn resumed_timer(t: Option<TimerCore>, now: u64) -> Option<TimerCore> {
    match t {
        Some(t) => Some(
            TimerCore {
                pause_time: None,
                total_paused: match t.pause_time {
                    Some(p) => (t.total_paused + t.reading(now) - p) as i128,
                    None => t.total_paused,
                },
                last: t.reading(now) as i128,
                ..t
            },
        ),
        None => None,
    }
}

/// A focus session paused at reading `now`: its timer stops and the
/// session shows as stopped.
pub open spec fn paused_machine(m: Machine, now: u64) -> Machine {
    Machine {
        timer_state: paused_timer(m.timer_state, now),
        current_session: match m.current_session {
            Some(s) => Some(FocusSession { is_running: false, state: SessionState::Idle, ..s }),
            None => None,
        },
        ..m
    }
}

/// A paused focus session resumed at reading `now`: it runs again, in its
/// pre-alert when no more than the pre-alert time is left.
pub open spec fn resumed_machine(m: Machine, now: u64) -> Machine {
    let s = m.current_session->0;
    let pre = s.remaining <= m.settings.pre_alert_seconds;
    Machine {
        current_state: if pre {
            AppState::FocusPreAlert
        } else {
            AppState::FocusRunning
        },
        current_session: Some(
            FocusSession {
                is_running: true,
                state: if pre {
                    SessionState::PreAlert
                } else {
                    SessionState::Running
                },
                ..s
            },
        ),
        timer_state: resumed_timer(m.timer_state, now),
        ..m
    }
}

/// Pausing a running focus session and resuming it later gives back the
/// session as it was, and the timer has run, at the moment of resuming,
/// exactly what it had run when it was paused: the pause does not count.
pub proof fn law_pause_resume_session(m: Machine, paused_at: u64, resumed_at: u64)
    requires
        m.wf(),
        m.current_state == AppState::FocusRunning,
        m.current_session matches Some(s) && s.is_running && s.state == SessionState::Running
            && s.remaining > m.settings.pre_alert_seconds,
        m.timer_state matches Some(t) && t.pause_time is None,
    ensures
        ({
            let m2 = resumed_machine(paused_machine(m, paused_at), resumed_at);
            &&& m2.current_state == AppState::FocusRunning
            &&& m2.current_session == m.current_session
            &&& m2.timer_state->0.elapsed_at(resumed_at) == m.timer_state->0.elapsed_at(paused_at)
            &&& m2.timer_state->0.pause_time is None
        }),
{
}

/// What starting a focus session at wall time `wall_now` and reading `now`
/// does: from the idle state, a running session of the configured length
/// with its record and events; from any other state, nothing but the error.
pub open spec fn focus_start_post(before: Machine, after: Machine, strict_mode: bool, session_id: String, wall_now: i64, now: u64, r: Result<Outcome, String>) -> bool {
    match r {
        Err(e) => before.current_state != AppState::Idle && e@
            == "Cannot start focus session: not in idle state"@ && after == before,
        Ok(o) => before.current_state == AppState::Idle && {
            let d = (before.settings.focus_duration * 60) as u32;
            let s = FocusSession {
                id: session_id,
                start_time: wall_now,
                duration: d,
                remaining: d,
                is_running: true,
                is_strict: strict_mode,
                state: SessionState::Running,
            };
            &&& after == Machine {
                current_state: AppState::FocusRunning,
                current_session: Some(s),
                timer_state: Some(TimerCore::started_spec(d, 0, now)),
                pre_alert_triggered: false,
                ..before
            }
            &&& o.writes@.len() == 1
            &&& (o.writes@[0] matches StoreWrite::CreateSession(rec) && rec == s.record())
            &&& o.events@.len() == 2
            &&& (o.events@[0] matches StateEvent::StateChanged { from, to } && from
                == AppState::Idle && to == AppState::FocusRunning)
            &&& (o.events@[1] matches StateEvent::SessionStarted { session_id: x } && x
                == session_id)
        },
    }
}

/// What pausing at reading `now` does: a running focus session is paused
/// and announced; otherwise nothing but the error.
pub open spec fn pause_post(before: Machine, after: Machine, now: u64, r: Result<Vec<StateEvent>, String>) -> bool {
    match r {
        Err(e) => !(before.current_state == AppState::FocusRunning
            || before.current_state == AppState::FocusPreAlert) && e@
            == "No active session to pause"@ && after == before,
        Ok(ev) => (before.current_state == AppState::FocusRunning
            || before.current_state == AppState::FocusPreAlert) && after
            == paused_machine(before, now) && match before.current_session {
            Some(s) => ev@.len() == 1 && (ev@[0] matches StateEvent::SessionPaused {
                session_id,
            } && session_id == s.id),
            None => ev@.len() == 0,
        },
    }
}

/// What resuming at reading `now` does: a paused session runs again and is
/// announced; otherwise nothing but the error.
pub open spec fn resume_post(before: Machine, after: Machine, now: u64, r: Result<Vec<StateEvent>, String>) -> bool {
    match r {
        Err(e) => !(before.current_session matches Some(s) && !s.is_running) && e@
            == "No paused session to resume"@ && after == before,
        Ok(ev) => before.current_session matches Some(s) && !s.is_running && after
            == resumed_machine(before, now) && ev@.len() == 1 && (ev@[0] matches StateEvent::SessionResumed { session_id } && session_id == s.id),
    }
}

/// Resuming a paused focus session runs it again with the time it had left,
/// in its pre-alert (the machine in `FocusPreAlert`, the session in
/// `PreAlert`) when no more than the pre-alert time is left, and running
/// normally (`FocusRunning`, `Running`) otherwise.
pub proof fn law_resume_keeps_pre_alert(before: Machine, after: Machine, now: u64, r: Result<Vec<StateEvent>, String>)
    requires
        resume_post(before, after, now, r),
        r is Ok,
    ensures
        before.current_session matches Some(b) && after.current_session matches Some(s) && {
            &&& !b.is_running
            &&& s.is_running
            &&& s.id == b.id
            &&& s.remaining == b.remaining
            &&& after.settings == before.settings
            &&& b.remaining <= before.settings.pre_alert_seconds ==> after.current_state == AppState::FocusPreAlert
                && s.state == SessionState::PreAlert
            &&& b.remaining > before.settings.pre_alert_seconds ==> after.current_state == AppState::FocusRunning
                && s.state == SessionState::Running
        },
{
}

/// What starting a break right away does: from the idle state, a new break
/// of the given kind with its record and events; otherwise nothing but the
/// error.
pub open spec fn immediate_break_post(before: Machine, after: Machine, break_type: BreakType, break_id: String, wall_now: i64, now: u64, r: Result<Outcome, String>) -> bool {
    match r {
        Err(e) => before.current_state != AppState::Idle && e@
            == "Cannot start break: not in idle state"@ && after == before,
        Ok(o) => before.current_state == AppState::Idle && (after.current_break matches Some(b) && {
            let minutes = match break_type {
                BreakType::Long => before.settings.long_break_duration,
                BreakType::Short => before.settings.short_break_duration,
            };
            &&& BreakSession::is_new(b, break_id, break_type, minutes, before.settings.strict_mode)
            &&& after == Machine {
                current_state: break_state(break_type),
                current_break: Some(b),
                timer_state: Some(TimerCore::started_spec(b.duration, 0, now)),
                ..before
            }
            &&& o.writes@ == seq![StoreWrite::CreateSession(b.record(wall_now))]
            &&& o.events@.len() == 2
            &&& (o.events@[0] matches StateEvent::StateChanged { from, to } && from
                == AppState::Idle && to == break_state(break_type))
            &&& (o.events@[1] matches StateEvent::BreakStarted { break_session } && break_session.same_as(b))
        }),
    }
}

/// What picking up the unfinished session `active` does (see
/// `Machine::recover_active_session_at`).
pub open spec fn recover_post(before: Machine, after: Machine, active: Option<Session>, wall_now: i64, now: u64, w: Seq<StoreWrite>) -> bool {
    match active {
        None => w.len() == 0 && after == before,
        Some(d) => if d.session_type == SessionType::Focus {
            &&& w.len() == 0
            &&& exists|f: FocusSession|
                {
                    &&& #[trigger] f.id == d.id
                    &&& f.start_time == d.start_time
                    &&& f.duration == crate::api_models::wrap_u32(d.planned_duration as int)
                    &&& f.is_running == (d.end_time is None && !d.completed)
                    &&& f.is_strict == d.strict_mode
                    &&& f.remaining == crate::api_models::remaining_after(
                        f.duration,
                        crate::api_models::wrap_u32(
                            (match d.end_time {
                                Some(e) => e,
                                None => wall_now,
                            }) - d.start_time,
                        ),
                    )
                    &&& f.state == crate::api_models::widget_state(f.is_running, f.remaining)
                    &&& if f.is_running && f.remaining > 0 {
                        after == Machine {
                            current_session: Some(f),
                            timer_state: Some(
                                TimerCore::started_spec(
                                    f.duration,
                                    (f.duration - f.remaining) as u32,
                                    now,
                                ),
                            ),
                            current_state: AppState::FocusRunning,
                            pre_alert_triggered: false,
                            ..before
                        }
                    } else {
                        after == before
                    }
                }
        } else {
            &&& after == before
            &&& w == seq![
                StoreWrite::UpdateSession(
                    Session {
                        end_time: Some(wall_now),
                        completed: true,
                        actual_duration: Some(d.planned_duration),
                        ..d
                    },
                ),
            ]
        },
    }
}

impl Machine {
    /// The timer is well formed; a session has no more time left than its
    /// duration and started at a representable time.
    pub open spec fn wf(self) -> bool {
        &&& (self.timer_state matches Some(t) ==> t.inv())
        &&& (self.current_session matches Some(s) ==> s.remaining <= s.duration && wall_time_ok(
            s.start_time,
        ))
        &&& (self.current_session matches Some(s) ==> (self.timer_state matches Some(t) ==> t.planned
            == s.duration * NANOS_PER_SEC))
    }

    /// What completing a focus session needs: a cycle count that can grow,
    /// a non-zero long break period, and break lengths whose seconds fit.
    pub open spec fn completion_ready(self) -> bool {
        &&& self.cycle_count < u32::MAX
        &&& self.settings.cycles_per_long_break > 0
        &&& self.settings.short_break_duration * 60 <= u32::MAX
        &&& self.settings.long_break_duration * 60 <= u32::MAX
    }

    /// Whether a focus session can be completed (see `completion_ready`).
    pub fn is_completion_ready(&self) -> (b: bool)
        ensures
            b == self.completion_ready(),
    {
        self.cycle_count < u32::MAX && self.settings.cycles_per_long_break > 0
            && self.settings.short_break_duration <= 71582788
            && self.settings.long_break_duration <= 71582788
    }

    /// An idle machine with the given settings, nothing counted.
    pub open spec fn fresh(settings: UserSettings) -> Machine {
        Machine {
            current_state: AppState::Idle,
            current_session: None,
            current_break: None,
            timer_state: None,
            settings,
            cycle_count: 0,
            pre_alert_triggered: false,
        }
    }

    /// Starts a focus session with identifier `session_id` at wall time
    /// `wall_now` and clock reading `now`; only from the idle state.
    pub fn start_focus_session_at(&mut self, strict_mode: bool, session_id: String, wall_now: i64, now: u64) -> (r: Result<Outcome, String>)
        requires
            old(self).wf(),
            wall_time_ok(wall_now),
            old(self).settings.focus_duration * 60 <= u32::MAX,
        ensures
            final(self).wf(),
            focus_start_post(*old(self), *final(self), strict_mode, session_id, wall_now, now, r),

    {
        if self.current_state != AppState::Idle {
            return Err(String::from_str("Cannot start focus session: not in idle state"));
        }
        let duration = self.settings.focus_duration * 60;
        let focus = FocusSession {
            id: session_id.clone(),
            start_time: wall_now,
            duration,
            remaining: duration,
            is_running: true,
            is_strict: strict_mode,
            state: SessionState::Running,
        };
        let timer = TimerCore::started(duration, 0, now);
        let rec = focus.to_db_session();
        let old_state = self.current_state;
        self.current_state = AppState::FocusRunning;
        self.current_session = Some(focus);
        self.timer_state = Some(timer);
        self.pre_alert_triggered = false;
        let mut writes: Vec<StoreWrite> = Vec::new();
        writes.push(StoreWrite::CreateSession(rec));
        let mut events: Vec<StateEvent> = Vec::new();
        events.push(StateEvent::StateChanged { from: old_state, to: AppState::FocusRunning });
        events.push(StateEvent::SessionStarted { session_id });
        Ok(Outcome { events, writes })
    }

    /// Pauses the focus session at reading `now`.
    pub fn pause_session_at(&mut self, now: u64) -> (r: Result<Vec<StateEvent>, String>)
        requires
            old(self).wf(),
        ensures
            final(self).wf(),
            pause_post(*old(self), *final(self), now, r),

    {
        if !(self.current_state == AppState::FocusRunning || self.current_state
            == AppState::FocusPreAlert) {
            return Err(String::from_str("No active session to pause"));
        }
        match self.timer_state {
            Some(t) => {
                let mut t2 = t;
                t2.pause(now);
                self.timer_state = Some(t2);
            },
            None => {},
        }
        let mut events: Vec<StateEvent> = Vec::new();
        match self.current_session.take() {
            Some(s) => {
                let id = s.id.clone();
                self.current_session = Some(
                    FocusSession { is_running: false, state: SessionState::Idle, ..s },
                );
                events.push(StateEvent::SessionPaused { session_id: id });
            },
            None => {},
        }
        Ok(events)
    }

    /// Resumes a paused focus session at reading `now`; it comes back in its
    /// pre-alert when no more than the pre-alert time is left.
    pub fn resume_session_at(&mut self, now: u64) -> (r: Result<Vec<StateEvent>, String>)
        requires
            old(self).wf(),
        ensures
            final(self).wf(),
            resume_post(*old(self), *final(self), now, r),

    {
        let paused = match &self.current_session {
            Some(s) => !s.is_running,
            None => false,
        };
        if !paused {
            return Err(String::from_str("No paused session to resume"));
        }
        match self.timer_state {
            Some(t) => {
                let mut t2 = t;
                t2.resume(now);
                self.timer_state = Some(t2);
            },
            None => {},
        }
        let s = self.current_session.take().unwrap();
        let pre = s.remaining <= self.settings.pre_alert_seconds;
        let id = s.id.clone();
        self.current_session = Some(
            FocusSession {
                is_running: true,
                state: if pre {
                    SessionState::PreAlert
                } else {
                    SessionState::Running
                },
                ..s
            },
        );
        self.current_state = if pre {
            AppState::FocusPreAlert
        } else {
            AppState::FocusRunning
        };
        let mut events: Vec<StateEvent> = Vec::new();
        events.push(StateEvent::SessionResumed { session_id: id });
        Ok(events)
    }

    /// Starts the break that follows a completed focus session, with
    /// identifier `break_id`, at wall time `wall_now` and reading `now`.
    fn start_break_session_at(&mut self, break_id: String, wall_now: i64, now: u64, ev: &mut Vec<StateEvent>, wr: &mut Vec<StoreWrite>)
        requires
            old(self).wf(),
            old(self).current_session is None,
            old(self).settings.cycles_per_long_break > 0,
            old(self).settings.short_break_duration * 60 <= u32::MAX,
            old(self).settings.long_break_duration * 60 <= u32::MAX,
        ensures
            final(self).wf(),
            final(self).current_break matches Some(b) && is_next_break(*old(self), b, break_id) && {
                &&& *final(self) == Machine {
                    current_state: break_state(b.break_type),
                    current_break: Some(b),
                    timer_state: Some(TimerCore::started_spec(b.duration, 0, now)),
                    ..*old(self)
                }
                &&& final(wr)@ == old(wr)@.push(StoreWrite::CreateSession(b.record(wall_now)))
                &&& final(ev)@.len() == old(ev)@.len() + 2
                &&& final(ev)@.subrange(0, old(ev)@.len() as int) == old(ev)@
                &&& (final(ev)@[old(ev)@.len() as int] matches StateEvent::StateChanged { from, to }
                    && from == old(self).current_state && to == final(self).current_state)
                &&& (final(ev)@[old(ev)@.len() as int + 1] matches StateEvent::BreakStarted { break_session }
                    && break_session.same_as(b))
            },
    {
        let is_long = self.cycle_count % self.settings.cycles_per_long_break == 0;
        let (break_type, minutes) = if is_long {
            (BreakType::Long, self.settings.long_break_duration)
        } else {
            (BreakType::Short, self.settings.short_break_duration)
        };
        let b = BreakSession::with_id(break_id, break_type, minutes, self.settings.strict_mode);
        let rec = b.to_db_session(wall_now);
        wr.push(StoreWrite::CreateSession(rec));
        let old_state = self.current_state;
        let new_state = match break_type {
            BreakType::Long => AppState::LongBreakRunning,
            BreakType::Short => AppState::BreakRunning,
        };
        self.current_state = new_state;
        self.timer_state = Some(TimerCore::started(b.duration, 0, now));
        let copy = b.duplicate();
        self.current_break = Some(b);
        let ghost before = ev@;
        ev.push(StateEvent::StateChanged { from: old_state, to: new_state });
        ev.push(StateEvent::BreakStarted { break_session: copy });
        assert(ev@.subrange(0, before.len() as int) =~= before);
    }

    /// Ends the focus session at wall time `wall_now` and reading `now`
    /// (see `ended_post`); a following break gets identifier `break_id`.
    pub fn end_session_at(&mut self, wall_now: i64, now: u64, break_id: String) -> (o: Outcome)
        requires
            old(self).wf(),
            wall_time_ok(wall_now),
            old(self).current_session matches Some(s) && s.remaining == 0 ==> old(
                self,
            ).completion_ready(),
        ensures
            final(self).wf(),
            ended_post(*old(self), *final(self), wall_now, now, break_id, o.events@, o.writes@),
    {
        let mut events: Vec<StateEvent> = Vec::new();
        let mut writes: Vec<StoreWrite> = Vec::new();
        match self.current_session.take() {
            Some(session) => {
                let base = session.to_db_session();
                let rec = Session {
                    end_time: Some(wall_now),
                    completed: session.remaining == 0,
                    actual_duration: Some(
                        crate::api_models::i64_to_i32_wrapping(
                            (session.duration - session.remaining) as i64,
                        ),
                    ),
                    ..base
                };
                writes.push(StoreWrite::UpdateSession(rec));
                self.timer_state = None;
                self.pre_alert_triggered = false;
                events.push(StateEvent::SessionCompleted { session_id: session.id.clone() });
                if session.remaining == 0 {
                    self.cycle_count = self.cycle_count + 1;
                    let ghost ev_before = events@;
                    self.start_break_session_at(break_id, wall_now, now, &mut events, &mut writes);
                    assert(events@[0] == events@.subrange(0, 1)[0]);
                    assert(events@[0] == ev_before[0]);
                } else {
                    let old_state = self.current_state;
                    self.current_state = AppState::Idle;
                    events.push(StateEvent::StateChanged { from: old_state, to: AppState::Idle });
                }
            },
            None => {},
        }
        Outcome { events, writes }
    }

    /// Completes the break at wall time `wall_now` (see
    /// `break_completed_post`).
    pub fn complete_break_at(&mut self, wall_now: i64) -> (o: Outcome)
        requires
            old(self).wf(),
            wall_time_ok(wall_now),
        ensures
            final(self).wf(),
            break_completed_post(*old(self), *final(self), wall_now, o.events@, o.writes@),
    {
        let mut events: Vec<StateEvent> = Vec::new();
        let mut writes: Vec<StoreWrite> = Vec::new();
        match self.current_break.take() {
            Some(b) => {
                let base = b.to_db_session(wall_now - b.duration as i64);
                let rec = Session {
                    end_time: Some(wall_now),
                    completed: true,
                    actual_duration: Some(crate::api_models::i64_to_i32_wrapping(b.duration as i64)),
                    ..base
                };
                writes.push(StoreWrite::UpdateSession(rec));
                events.push(StateEvent::BreakCompleted { session_id: b.id });
                let old_state = self.current_state;
                self.current_state = AppState::Idle;
                self.timer_state = None;
                events.push(StateEvent::StateChanged { from: old_state, to: AppState::Idle });
            },
            None => {},
        }
        Outcome { events, writes }
    }
}

/// `m2`, `ev` and `wr` are what a timer tick at wall time `wall` and reading
/// `now` gives in `m` (a break it starts gets identifier `id`).  A stopped or
/// paused timer changes nothing.  In a focus session the seconds left are
/// recorded; the pre-alert is raised once, when they first reach the
/// pre-alert time while running; when the time is up the session ends (see
/// `ended_post`), else a tick is reported.  In a break the seconds left are
/// recorded and the break completes when the time is up.
pub open spec fn tick_post(
    m: Machine,
    m2: Machine,
    wall: i64,
    now: u64,
    id: String,
    ev: Seq<StateEvent>,
    wr: Seq<StoreWrite>,
) -> bool {
    let unchanged = ev.len() == 0 && wr.len() == 0 && m2 == m;
    match m.timer_state {
        None => unchanged,
        Some(t) => if t.pause_time is Some {
            unchanged
        } else {
            let rs = seconds_left(t, now);
            let fin = t.elapsed_at(now) >= t.planned;
            if m.current_state == AppState::FocusRunning || m.current_state == AppState::FocusPreAlert
                || m.current_state == AppState::FocusEnding {
                match m.current_session {
                    None => unchanged,
                    Some(s) => {
                        let pre = rs <= m.settings.pre_alert_seconds && rs > 0
                            && !m.pre_alert_triggered && m.current_state == AppState::FocusRunning;
                        let s1 = FocusSession {
                            remaining: rs,
                            state: if pre {
                                SessionState::PreAlert
                            } else {
                                s.state
                            },
                            ..s
                        };
                        let m1 = Machine {
                            current_session: Some(s1),
                            current_state: if pre {
                                AppState::FocusPreAlert
                            } else {
                                m.current_state
                            },
                            pre_alert_triggered: pre || m.pre_alert_triggered,
                            ..m
                        };
                        let k: int = if pre {
                            2
                        } else {
                            0
                        };
                        &&& (pre ==> ev.len() >= 2 && ev[0] == StateEvent::StateChanged {
                            from: AppState::FocusRunning,
                            to: AppState::FocusPreAlert,
                        } && ev[1] == StateEvent::PreAlertTriggered {
                            session_id: s.id,
                            remaining_seconds: rs,
                        })
                        &&& if fin && m1.current_state != AppState::FocusEnding {
                            let m3 = Machine {
                                current_state: AppState::FocusEnding,
                                current_session: Some(
                                    FocusSession { state: SessionState::Ending, remaining: 0, ..s1 },
                                ),
                                ..m1
                            };
                            &&& ev.len() >= k + 1
                            &&& ev[k] == StateEvent::StateChanged {
                                from: m1.current_state,
                                to: AppState::FocusEnding,
                            }
                            &&& ended_post(m3, m2, wall, now, id, ev.skip(k + 1), wr)
                        } else {
                            &&& wr.len() == 0
                            &&& m2 == m1
                            &&& ev.len() == k + 1
                            &&& ev[k] == StateEvent::TimerTick { remaining_seconds: rs }
                        }
                    },
                }
            } else if m.current_state == AppState::BreakRunning || m.current_state
                == AppState::LongBreakRunning {
                match m.current_break {
                    None => unchanged,
                    Some(b) => {
                        let m1 = Machine {
                            current_break: Some(BreakSession { remaining: rs, ..b }),
                            ..m
                        };
                        if fin {
                            break_completed_post(m1, m2, wall, ev, wr)
                        } else {
                            &&& wr.len() == 0
                            &&& m2 == m1
                            &&& ev == seq![StateEvent::TimerTick { remaining_seconds: rs }]
                        }
                    },
                }
            } else {
                unchanged
            }
        },
    }
}

/// The pre-alert of a focus session is raised once: once it has been
/// raised, no later tick raises it again.
pub proof fn law_pre_alert_once(
    m: Machine,
    m2: Machine,
    wall: i64,
    now: u64,
    id: String,
    ev: Seq<StateEvent>,
    wr: Seq<StoreWrite>,
)
    requires
        m.pre_alert_triggered,
        tick_post(m, m2, wall, now, id, ev, wr),
    ensures
        forall|i: int| 0 <= i < ev.len() ==> !(#[trigger] ev[i] is PreAlertTriggered),
{
    assert forall|i: int| 0 <= i < ev.len() implies !(#[trigger] ev[i] is PreAlertTriggered) by {
        if i > 0 {
            assert(ev.skip(1)[i - 1] == ev[i]);
        }
    }
}

impl Machine {
    /// Whether a tick at reading `now` ends the focus session: the timer
    /// runs and is up, and the session is not already ending.
    pub open spec fn tick_ends_focus(self, now: u64) -> bool {
        &&& self.timer_state matches Some(t)
        &&& t.pause_time is None
        &&& t.elapsed_at(now) >= t.planned
        &&& (self.current_state == AppState::FocusRunning || self.current_state
            == AppState::FocusPreAlert)
        &&& self.current_session is Some
    }

    /// Whether a tick at reading `now` ends the focus session (see
    /// `tick_ends_focus`).
    pub fn tick_ends_focus_at(&self, now: u64) -> (b: bool)
        requires
            self.wf(),
        ensures
            b == self.tick_ends_focus(now),
    {
        match &self.timer_state {
            Some(t) => !t.is_paused() && t.is_finished(now) && (self.current_state == AppState::FocusRunning
                || self.current_state == AppState::FocusPreAlert) && self.current_session.is_some(),
            None => false,
        }
    }

    /// Starts a break of the given kind right away, from the idle state,
    /// with identifier `break_id` at wall time `wall_now` and reading `now`.
    pub fn start_immediate_break_at(&mut self, break_type: BreakType, break_id: String, wall_now: i64, now: u64) -> (r: Result<Outcome, String>)
        requires
            old(self).wf(),
            old(self).current_session is None,
            old(self).settings.short_break_duration * 60 <= u32::MAX,
            old(self).settings.long_break_duration * 60 <= u32::MAX,
        ensures
            final(self).wf(),
            immediate_break_post(*old(self), *final(self), break_type, break_id, wall_now, now, r),

    {
        if self.current_state != AppState::Idle {
            return Err(String::from_str("Cannot start break: not in idle state"));
        }
        let minutes = match break_type {
            BreakType::Long => self.settings.long_break_duration,
            BreakType::Short => self.settings.short_break_duration,
        };
        let b = BreakSession::with_id(break_id, break_type, minutes, self.settings.strict_mode);
        let rec = b.to_db_session(wall_now);
        let new_state = match break_type {
            BreakType::Long => AppState::LongBreakRunning,
            BreakType::Short => AppState::BreakRunning,
        };
        self.current_state = new_state;
        self.timer_state = Some(TimerCore::started(b.duration, 0, now));
        let copy = b.duplicate();
        self.current_break = Some(b);
        let mut writes: Vec<StoreWrite> = Vec::new();
        writes.push(StoreWrite::CreateSession(rec));
        let mut events: Vec<StateEvent> = Vec::new();
        events.push(StateEvent::StateChanged { from: AppState::Idle, to: new_state });
        events.push(StateEvent::BreakStarted { break_session: copy });
        Ok(Outcome { events, writes })
    }

    /// Handles a timer tick at wall time `wall_now` and reading `now` (see
    /// `tick_post`); a break it starts gets identifier `break_id`.
    pub fn handle_timer_tick_at(&mut self, wall_now: i64, now: u64, break_id: String) -> (o: Outcome)
        requires
            old(self).wf(),
            wall_time_ok(wall_now),
            old(self).tick_ends_focus(now) ==> old(self).completion_ready(),
        ensures
            final(self).wf(),
            tick_post(*old(self), *final(self), wall_now, now, break_id, o.events@, o.writes@),
    {
        let empty = Outcome { events: Vec::new(), writes: Vec::new() };
        let t = match self.timer_state {
            Some(t) => t,
            None => {
                return empty;
            },
        };
        if t.is_paused() {
            return empty;
        }
        let rem = t.remaining(now);
        let rs: u32 = (rem.nanos / 1_000_000_000) as u32;
        assert(rs == seconds_left(t, now));
        let fin = t.is_finished(now);
        if self.current_state == AppState::FocusRunning || self.current_state
            == AppState::FocusPreAlert || self.current_state == AppState::FocusEnding {
            let s = match self.current_session.take() {
                Some(s) => s,
                None => {
                    return empty;
                },
            };
            assert(rs <= s.duration);
            let mut events: Vec<StateEvent> = Vec::new();
            let pre = rs <= self.settings.pre_alert_seconds && rs > 0 && !self.pre_alert_triggered
                && self.current_state == AppState::FocusRunning;
            let id = s.id.clone();
            let mut s1 = FocusSession { remaining: rs, ..s };
            if pre {
                self.pre_alert_triggered = true;
                self.current_state = AppState::FocusPreAlert;
                s1.state = SessionState::PreAlert;
                events.push(
                    StateEvent::StateChanged {
                        from: AppState::FocusRunning,
                        to: AppState::FocusPreAlert,
                    },
                );
                events.push(StateEvent::PreAlertTriggered { session_id: id, remaining_seconds: rs });
            }
            if fin && self.current_state != AppState::FocusEnding {
                let old_state = self.current_state;
                self.current_state = AppState::FocusEnding;
                s1.state = SessionState::Ending;
                s1.remaining = 0;
                self.current_session = Some(s1);
                events.push(StateEvent::StateChanged { from: old_state, to: AppState::FocusEnding });
                let ghost k = events@.len();
                let mut o = self.end_session_at(wall_now, now, break_id);
                let ghost tail = o.events@;
                events.append(&mut o.events);
                assert(events@.skip(k as int) =~= tail);
                Outcome { events, writes: o.writes }
            } else {
                self.current_session = Some(s1);
                events.push(StateEvent::TimerTick { remaining_seconds: rs });
                Outcome { events, writes: Vec::new() }
            }
        } else if self.current_state == AppState::BreakRunning || self.current_state
            == AppState::LongBreakRunning {
            let b = match self.current_break.take() {
                Some(b) => b,
                None => {
                    return empty;
                },
            };
            self.current_break = Some(BreakSession { remaining: rs, ..b });
            if fin {
                self.complete_break_at(wall_now)
            } else {
                let mut events: Vec<StateEvent> = Vec::new();
                events.push(StateEvent::TimerTick { remaining_seconds: rs });
                Outcome { events, writes: Vec::new() }
            }
        } else {
            empty
        }
    }

    /// Picks up the session left unfinished when the application last ran
    /// (`active`), at wall time `wall_now` and reading `now`: a focus session
    /// still running with time left resumes where it was; an unfinished
    /// break is recorded as completed, having run its planned length.
    pub fn recover_active_session_at(&mut self, active: Option<Session>, wall_now: i64, now: u64) -> (w: Vec<StoreWrite>)
        requires
            old(self).wf(),
            wall_time_ok(wall_now),
            active matches Some(d) ==> wall_time_ok(d.start_time) && (d.end_time matches Some(e)
                ==> wall_time_ok(e)),
        ensures
            final(self).wf(),
            recover_post(*old(self), *final(self), active, wall_now, now, w@),

    {
        let mut writes: Vec<StoreWrite> = Vec::new();
        match active {
            None => {},
            Some(db) => {
                if db.session_type == SessionType::Focus {
                    match FocusSession::from_db_session(db, wall_now) {
                        Some(f) => {
                            if f.is_running && f.remaining > 0 {
                                let elapsed = f.duration - f.remaining;
                                let timer = TimerCore::started(f.duration, elapsed, now);
                                self.current_session = Some(f);
                                self.timer_state = Some(timer);
                                self.current_state = AppState::FocusRunning;
                                self.pre_alert_triggered = false;
                            }
                        },
                        None => {},
                    }
                } else {
                    let planned = db.planned_duration;
                    writes.push(
                        StoreWrite::UpdateSession(
                            Session {
                                end_time: Some(wall_now),
                                completed: true,
                                actual_duration: Some(planned),
                                ..db
                            },
                        ),
                    );
                }
            },
        }
        writes
    }
}

/// The application state machine over the system clocks.
#[derive(Debug)]
pub struct StateManager {
    machine: Machine,
    origin: std::time::Instant,
}

impl StateManager {
    /// The state machine.
    pub closed spec fn machine(&self) -> Machine {
        self.machine
    }

    /// An idle manager with the given settings, nothing counted.
    pub fn new(settings: UserSettings) -> (m: StateManager)
        ensures
            m.machine().wf(),
            m.machine() == Machine::fresh(settings),
    {
        StateManager {
            machine: Machine {
                current_state: AppState::Idle,
                current_session: None,
                current_break: None,
                timer_state: None,
                settings,
                cycle_count: 0,
                pre_alert_triggered: false,
            },
            origin: instant_now(),
        }
    }

    fn reading(&self) -> (n: u64) {
        nanos_since(&self.origin)
    }

    /// The current state.
    pub fn get_state(&self) -> (s: AppState)
        ensures
            s == self.machine().current_state,
    {
        self.machine.current_state
    }

    /// The focus session under way.
    pub fn get_current_session(&self) -> (s: Option<FocusSession>)
        ensures
            s == self.machine().current_session,
    {
        match &self.machine.current_session {
            Some(f) => Some(f.duplicate()),
            None => None,
        }
    }

    /// The break under way.
    pub fn get_current_break(&self) -> (b: Option<BreakSession>)
        ensures
            b is Some == self.machine().current_break is Some,
            b matches Some(x) ==> x.same_as(self.machine().current_break->0),
    {
        match &self.machine.current_break {
            Some(x) => Some(x.duplicate()),
            None => None,
        }
    }

    /// The settings in use.
    pub fn get_settings(&self) -> (s: UserSettings)
        ensures
            s == self.machine().settings,
    {
        UserSettings {
            focus_duration: self.machine.settings.focus_duration,
            short_break_duration: self.machine.settings.short_break_duration,
            long_break_duration: self.machine.settings.long_break_duration,
            cycles_per_long_break: self.machine.settings.cycles_per_long_break,
            pre_alert_seconds: self.machine.settings.pre_alert_seconds,
            strict_mode: self.machine.settings.strict_mode,
            pin_hash: crate::text::clone_opt_string(&self.machine.settings.pin_hash),
            emergency_key_combination: crate::text::clone_opt_string(
                &self.machine.settings.emergency_key_combination,
            ),
        }
    }

    /// Replaces the settings and returns their stored form, stamped now.
    pub fn update_settings(&mut self, new_settings: UserSettings) -> (w: StoreWrite)
        requires
            old(self).machine().wf(),
            new_settings.focus_duration * 60 <= u32::MAX,
            new_settings.short_break_duration * 60 <= u32::MAX,
            new_settings.long_break_duration * 60 <= u32::MAX,
        ensures
            final(self).machine().wf(),
            final(self).machine() == (Machine { settings: new_settings, ..old(self).machine() }),
            exists|now: i64| w == StoreWrite::SaveSettings(#[trigger] new_settings.to_db_spec(now)),
    {
        let now = unix_now();
        let db = new_settings.to_db_at(now);
        self.machine.settings = new_settings;
        StoreWrite::SaveSettings(db)
    }

    /// Starts a focus session now with a fresh identifier (see
    /// `Machine::start_focus_session_at`).
    pub fn start_focus_session(&mut self, strict_mode: bool) -> (r: Result<Outcome, String>)
        requires
            old(self).machine().wf(),
            old(self).machine().settings.focus_duration * 60 <= u32::MAX,
        ensures
            final(self).machine().wf(),
            exists|id: String, wall: i64, now: u64|
                #[trigger] focus_start_post(old(self).machine(), final(self).machine(), strict_mode, id, wall, now, r),
            r is Ok <==> old(self).machine().current_state == AppState::Idle,
            r is Err ==> final(self).machine() == old(self).machine(),
            r is Ok ==> final(self).machine().current_state == AppState::FocusRunning,
            r is Ok ==> (final(self).machine().current_session matches Some(s) && s.duration
                == old(self).machine().settings.focus_duration * 60 && s.remaining == s.duration
                && s.is_strict == strict_mode && s.is_running),
    {
        let id = new_uuid_string();
        let wall = unix_now();
        let now = self.reading();
        let r = self.machine.start_focus_session_at(strict_mode, id, wall, now);
        r
    }

    /// Pauses the focus session now (see `Machine::pause_session_at`).
    pub fn pause_session(&mut self) -> (r: Result<Vec<StateEvent>, String>)
        requires
            old(self).machine().wf(),
        ensures
            final(self).machine().wf(),
            exists|now: u64| #[trigger] pause_post(old(self).machine(), final(self).machine(), now, r),
            r is Ok <==> (old(self).machine().current_state == AppState::FocusRunning
                || old(self).machine().current_state == AppState::FocusPreAlert),
            r is Err ==> final(self).machine() == old(self).machine(),
            r is Ok ==> exists|now: u64| final(self).machine() == #[trigger] paused_machine(old(self).machine(), now),
    {
        let now = self.reading();
        let r = self.machine.pause_session_at(now);
        r
    }

    /// Resumes the paused focus session now (see
    /// `Machine::resume_session_at`).
    pub fn resume_session(&mut self) -> (r: Result<Vec<StateEvent>, String>)
        requires
            old(self).machine().wf(),
        ensures
            final(self).machine().wf(),
            exists|now: u64| #[trigger] resume_post(old(self).machine(), final(self).machine(), now, r),
            r is Ok <==> (old(self).machine().current_session matches Some(s) && !s.is_running),
            r is Err ==> final(self).machine() == old(self).machine(),
            r is Ok ==> exists|now: u64| final(self).machine() == #[trigger] resumed_machine(old(self).machine(), now),
    {
        let now = self.reading();
        let r = self.machine.resume_session_at(now);
        r
    }

    /// Ends the focus session now (see `ended_post`).
    pub fn end_session(&mut self) -> (o: Outcome)
        requires
            old(self).machine().wf(),
            old(self).machine().current_session matches Some(s) && s.remaining == 0 ==> old(
                self,
            ).machine().completion_ready(),
        ensures
            final(self).machine().wf(),
            exists|wall: i64, now: u64, id: String|
                #[trigger] ended_post(old(self).machine(), final(self).machine(), wall, now, id, o.events@, o.writes@),
    {
        let id = new_uuid_string();
        let wall = unix_now();
        let now = self.reading();
        let o = self.machine.end_session_at(wall, now, id);
        o
    }

    /// Completes the break now (see `break_completed_post`).
    pub fn complete_break(&mut self) -> (o: Outcome)
        requires
            old(self).machine().wf(),
        ensures
            final(self).machine().wf(),
            exists|wall: i64|
                #[trigger] break_completed_post(old(self).machine(), final(self).machine(), wall, o.events@, o.writes@),
    {
        let wall = unix_now();
        let o = self.machine.complete_break_at(wall);
        o
    }

    /// Handles a timer tick now (see `tick_post`).  A tick that would end the
    /// focus session when completing it is impossible (see
    /// `Machine::completion_ready`) is not handled: the result is `None` and
    /// nothing changes.
    pub fn handle_timer_tick(&mut self) -> (r: Option<Outcome>)
        requires
            old(self).machine().wf(),
        ensures
            final(self).machine().wf(),
            match r {
                None => final(self).machine() == old(self).machine() && !old(self).machine().completion_ready()
                    && exists|now: u64| #[trigger] old(self).machine().tick_ends_focus(now),
                Some(o) => exists|wall: i64, now: u64, id: String|
                    #[trigger] tick_post(old(self).machine(), final(self).machine(), wall, now, id, o.events@, o.writes@),
            },
    {
        let now = self.reading();
        if self.machine.tick_ends_focus_at(now) && !self.machine.is_completion_ready() {
            assert(old(self).machine().tick_ends_focus(now));
            return None;
        }
        let id = new_uuid_string();
        let wall = unix_now();
        let ghost gid = id;
        let o = self.machine.handle_timer_tick_at(wall, now, id);
        let r = Some(o);
        assert(r matches Some(x) && tick_post(old(self).machine(), self.machine(), wall, now, gid, x.events@, x.writes@));
        r
    }

    /// Picks up the session left unfinished (see
    /// `Machine::recover_active_session_at`); `active` is the most recent
    /// unfinished session on record.
    pub fn recover_active_session(&mut self, active: Option<Session>) -> (w: Vec<StoreWrite>)
        requires
            old(self).machine().wf(),
            active matches Some(d) ==> wall_time_ok(d.start_time) && (d.end_time matches Some(e)
                ==> wall_time_ok(e)),
        ensures
            final(self).machine().wf(),
            exists|wall: i64, now: u64|
                #[trigger] recover_post(old(self).machine(), final(self).machine(), active, wall, now, w@),
            active is None ==> w@.len() == 0 && final(self).machine() == old(self).machine(),
    {
        let wall = unix_now();
        let now = self.reading();
        let w = self.machine.recover_active_session_at(active, wall, now);
        w
    }

    /// Starts a break of the given kind now, from the idle state (see
    /// `Machine::start_immediate_break_at`).
    pub fn start_break(&mut self, break_type: BreakType) -> (r: Result<Outcome, String>)
        requires
            old(self).machine().wf(),
            old(self).machine().current_session is None,
            old(self).machine().settings.short_break_duration * 60 <= u32::MAX,
            old(self).machine().settings.long_break_duration * 60 <= u32::MAX,
        ensures
            final(self).machine().wf(),
            exists|id: String, wall: i64, now: u64|
                #[trigger] immediate_break_post(old(self).machine(), final(self).machine(), break_type, id, wall, now, r),
            r is Ok <==> old(self).machine().current_state == AppState::Idle,
            r is Err ==> final(self).machine() == old(self).machine(),
    {
        let id = new_uuid_string();
        let wall = unix_now();
        let now = self.reading();
        self.machine.start_immediate_break_at(break_type, id, wall, now)
    }

    /// Sets the count of completed focus sessions back to zero.
    pub fn reset_cycle_count(&mut self)
        requires
            old(self).machine().wf(),
        ensures
            final(self).machine().wf(),
            final(self).machine() == (Machine { cycle_count: 0, ..old(self).machine() }),
    {
        self.machine.cycle_count = 0;
    }

    /// The count of completed focus sessions.
    pub fn get_cycle_count(&self) -> (c: u32)
        ensures
            c == self.machine().cycle_count,
    {
        self.machine.cycle_count
    }

    /// Whether completing a focus session is possible (see
    /// `Machine::completion_ready`).
    pub fn is_completion_ready(&self) -> (b: bool)
        ensures
            b == self.machine().completion_ready(),
    {
        self.machine.is_completion_ready()
    }
}

} // verus!
