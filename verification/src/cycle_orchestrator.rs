//! Work cycles: focus sessions alternating with short breaks, and a long break
//! every configured number of completed focus sessions.

use vstd::prelude::*;
use crate::clock::{is_hhmm_reading, local_time_hhmm, new_uuid_string, unix_now_nanos};
use crate::models::{UserSettings, WorkSchedule};
use crate::text::{clone_opt_string, lex_le, str_le};

verus! {

/// Phase of the work cycle.
#[derive(Debug, Clone, Copy, PartialEq, Eq, Structural)]
pub enum CyclePhase {
    Idle,
    Focus,
    ShortBreak,
    LongBreak,
}

impl CyclePhase {
    /// The name of the phase.
    pub open spec fn name(self) -> Seq<char> {
        match self {
            CyclePhase::Idle => "idle"@,
            CyclePhase::Focus => "focus"@,
            CyclePhase::ShortBreak => "short_break"@,
            CyclePhase::LongBreak => "long_break"@,
        }
    }

    /// The phase's name as displayed (`idle`, `focus`, `short_break`,
    /// `long_break`).
    pub fn as_str(&self) -> (s: &'static str)
        ensures
            s@ == self.name(),
    {
        match self {
            CyclePhase::Idle => "idle",
            CyclePhase::Focus => "focus",
            CyclePhase::ShortBreak => "short_break",
            CyclePhase::LongBreak => "long_break",
        }
    }
}

/// Current state of the work cycle.  A running session started
/// `started_at` nanoseconds after the Unix epoch.
#[derive(Debug, Clone)]
pub struct CycleState {
    pub phase: CyclePhase,
    pub remaining_seconds: u32,
    pub cycle_count: u32,
    pub is_running: bool,
    pub can_start: bool,
    pub session_id: Option<String>,
    pub started_at: Option<i128>,
    pub within_work_hours: bool,
}

impl CycleState {
    /// The state before any session: idle, nothing counted.
    pub open spec fn initial() -> CycleState {
        CycleState {
            phase: CyclePhase::Idle,
            remaining_seconds: 0,
            cycle_count: 0,
            is_running: false,
            can_start: true,
            session_id: None,
            started_at: None,
            within_work_hours: true,
        }
    }

    /// An idle state holds no session: it is not running, has no time left,
    /// no session id and no start time.
    pub open spec fn inv(self) -> bool {
        self.phase == CyclePhase::Idle ==> {
            &&& !self.is_running
            &&& self.remaining_seconds == 0
            &&& self.session_id is None
            &&& self.started_at is None
        }
    }

    /// This state with a new session of `phase` running for `duration` seconds.
    pub open spec fn started(
        self,
        phase: CyclePhase,
        duration: u32,
        session_id: String,
        now: i128,
        within: bool,
    ) -> CycleState {
        CycleState {
            phase,
            remaining_seconds: duration,
            is_running: true,
            session_id: Some(session_id),
            started_at: Some(now),
            within_work_hours: within,
            ..self
        }
    }

    /// This state, running or paused as `running` says.
    pub open spec fn with_running(self, running: bool) -> CycleState {
        CycleState { is_running: running, ..self }
    }

    /// This state with the cycle counter set to `count`.
    pub open spec fn with_cycle_count(self, count: u32) -> CycleState {
        CycleState { cycle_count: count, ..self }
    }

    /// This state after its session ended, with `cycle_count` counted.
    pub open spec fn ended(self, cycle_count: u32) -> CycleState {
        CycleState {
            phase: CyclePhase::Idle,
            remaining_seconds: 0,
            cycle_count,
            is_running: false,
            session_id: None,
            started_at: None,
            ..self
        }
    }

    /// An exact copy of the state.
    pub fn snapshot(&self) -> (r: CycleState)
        ensures
            r == *self,
    {
        CycleState {
            phase: self.phase,
            remaining_seconds: self.remaining_seconds,
            cycle_count: self.cycle_count,
            is_running: self.is_running,
            can_start: self.can_start,
            session_id: clone_opt_string(&self.session_id),
            started_at: self.started_at,
            within_work_hours: self.within_work_hours,
        }
    }
}

impl Default for CycleState {
    fn default() -> (s: CycleState)
        ensures
            s == CycleState::initial(),
    {
        CycleState {
            phase: CyclePhase::Idle,
            remaining_seconds: 0,
            cycle_count: 0,
            is_running: false,
            can_start: true,
            session_id: None,
            started_at: None,
            within_work_hours: true,
        }
    }
}

/// Configuration of the work cycles (durations in seconds).
#[derive(Debug, Clone)]
pub struct CycleConfig {
    pub focus_duration: u32,
    pub break_duration: u32,
    pub long_break_duration: u32,
    pub cycles_per_long_break: u32,
    pub strict_mode: bool,
    pub work_schedule: Option<WorkSchedule>,
    pub emergency_key: Option<String>,
    pub user_name: Option<String>,
    pub pre_alert_seconds: u32,
}

impl CycleConfig {
    /// The configuration that the stored settings describe; each duration
    /// is taken as stored (seconds), converted to `u32` as Rust's `as` does.
    pub fn from_user_settings(settings: UserSettings, work_schedule: Option<WorkSchedule>) -> (c:
        CycleConfig)
        ensures
            c.focus_duration == settings.focus_duration as u32,
            c.break_duration == settings.short_break_duration as u32,
            c.long_break_duration == settings.long_break_duration as u32,
            c.cycles_per_long_break == settings.cycles_per_long_break_v2 as u32,
            c.strict_mode == settings.strict_mode,
            c.work_schedule == work_schedule,
            c.emergency_key == settings.emergency_key_combination,
            c.user_name == settings.user_name,
            c.pre_alert_seconds == settings.pre_alert_seconds as u32,
    {
        CycleConfig {
            focus_duration: settings.focus_duration as u32,
            break_duration: settings.short_break_duration as u32,
            long_break_duration: settings.long_break_duration as u32,
            cycles_per_long_break: settings.cycles_per_long_break_v2 as u32,
            strict_mode: settings.strict_mode,
            work_schedule,
            emergency_key: settings.emergency_key_combination,
            user_name: settings.user_name,
            pre_alert_seconds: settings.pre_alert_seconds as u32,
        }
    }

    /// Whether a session may start at local time `now` (`HH:MM`): always,
    /// unless a schedule is in use with both bounds set, in which case `now`
    /// must lie between them, compared as strings.
    pub open spec fn within_hours(self, now: Seq<char>) -> bool {
        match self.work_schedule {
            Some(s) => if !s.use_work_schedule {
                true
            } else {
                match (s.work_start_time, s.work_end_time) {
                    (Some(start), Some(end)) => lex_le(start@, now) && lex_le(now, end@),
                    _ => true,
                }
            },
            None => true,
        }
    }

    /// The break that follows `cycle_count` completed focus sessions is long.
    pub open spec fn long_break_due(self, cycle_count: u32) -> bool {
        cycle_count > 0 && cycle_count % self.cycles_per_long_break == 0
    }
}

/// Events emitted by the cycle orchestrator.
#[derive(Debug, Clone, Copy, PartialEq, Eq, Structural)]
pub enum CycleEvent {
    PhaseStarted { phase: CyclePhase, duration: u32, cycle_count: u32 },
    PhaseEnded { phase: CyclePhase, completed: bool },
    Tick { remaining: u32 },
    PreAlert { remaining: u32 },
    CycleCompleted { cycle_count: u32 },
    LongBreakReached { cycles_completed: u32 },
}

/// Work schedule information for display.
#[derive(Debug, Clone)]
pub struct WorkScheduleInfo {
    pub start_time: Option<String>,
    pub end_time: Option<String>,
    pub timezone: String,
    pub is_within_hours: bool,
}

/// Orchestrates work cycles with focus and break periods.
pub struct CycleOrchestrator {
    config: CycleConfig,
    state: CycleState,
}

/// `Err` carrying exactly message `m`.
pub open spec fn is_err_msg<T>(r: Result<T, String>, m: Seq<char>) -> bool {
    r matches Err(e) && e@ == m
}

/// The result of ending a session of `st` (which is not idle).
pub open spec fn end_events(st: CycleState, completed: bool) -> Seq<CycleEvent> {
    if completed && st.phase == CyclePhase::Focus {
        seq![
            CycleEvent::PhaseEnded { phase: st.phase, completed },
            CycleEvent::CycleCompleted { cycle_count: (st.cycle_count + 1) as u32 },
        ]
    } else {
        seq![CycleEvent::PhaseEnded { phase: st.phase, completed }]
    }
}

/// The cycle count after ending the session of `st`: one more when a
/// focus session ends completed.
pub open spec fn end_count(st: CycleState, completed: bool) -> u32 {
    if completed && st.phase == CyclePhase::Focus {
        (st.cycle_count + 1) as u32
    } else {
        st.cycle_count
    }
}

/// One second of a running session, given the local-time reading, session id
/// and timestamp used if the next phase starts by itself.
pub open spec fn tick_spec(
    cfg: CycleConfig,
    st: CycleState,
    within: bool,
    session_id: String,
    now: i128,
) -> (CycleState, Seq<CycleEvent>) {
    if !st.is_running || st.phase == CyclePhase::Idle || st.remaining_seconds == 0 {
        (st, seq![])
    } else {
        let r = (st.remaining_seconds - 1) as u32;
        let ticked = CycleState { remaining_seconds: r, ..st };
        let tick_ev = if cfg.pre_alert_seconds > 0 && st.phase == CyclePhase::Focus && r
            == cfg.pre_alert_seconds {
            seq![CycleEvent::Tick { remaining: r }, CycleEvent::PreAlert { remaining: r }]
        } else {
            seq![CycleEvent::Tick { remaining: r }]
        };
        if r > 0 {
            (ticked, tick_ev)
        } else {
            let count = end_count(ticked, true);
            let idle = ticked.ended(count);
            let evs = tick_ev + end_events(ticked, true);
            if st.phase == CyclePhase::Focus {
                let long = cfg.long_break_due(count);
                let next = if long {
                    idle.started(CyclePhase::LongBreak, cfg.long_break_duration, session_id, now, within)
                } else {
                    idle.started(CyclePhase::ShortBreak, cfg.break_duration, session_id, now, within)
                };
                if long {
                    (next, evs.push(CycleEvent::LongBreakReached { cycles_completed: count }))
                } else {
                    (next, evs)
                }
            } else if st.phase == CyclePhase::ShortBreak {
                (idle.started(CyclePhase::Focus, cfg.focus_duration, session_id, now, within), evs)
            } else {
                (idle, evs)
            }
        }
    }
}

/// Whether the break started from `st` is long.
pub open spec fn break_is_long(cfg: CycleConfig, st: CycleState, force_long: bool) -> bool {
    force_long || cfg.long_break_due(st.cycle_count)
}

/// Phase of a break, long or short.
pub open spec fn break_phase(long: bool) -> CyclePhase {
    if long {
        CyclePhase::LongBreak
    } else {
        CyclePhase::ShortBreak
    }
}

/// Length of a break, long or short.
pub open spec fn break_duration(cfg: CycleConfig, long: bool) -> u32 {
    if long {
        cfg.long_break_duration
    } else {
        cfg.break_duration
    }
}

/// Events of starting a break from `st`.
pub open spec fn break_events(cfg: CycleConfig, st: CycleState, long: bool) -> Seq<CycleEvent> {
    let started = CycleEvent::PhaseStarted {
        phase: break_phase(long),
        duration: break_duration(cfg, long),
        cycle_count: st.cycle_count,
    };
    if long {
        seq![started, CycleEvent::LongBreakReached { cycles_completed: st.cycle_count }]
    } else {
        seq![started]
    }
}

/// A break started from `st` is long exactly when it is forced or when the
/// completed focus sessions are a positive multiple of the cycle group: a
/// long break lasts `long_break_duration` and announces the cycles
/// completed; any other is short, lasts `break_duration` and announces only
/// its start.
pub proof fn law_break_length(cfg: CycleConfig, st: CycleState, force_long: bool)
    requires
        cfg.cycles_per_long_break > 0 || force_long || st.cycle_count == 0,
    ensures
        ({
            let long = break_is_long(cfg, st, force_long);
            let due = force_long || (st.cycle_count > 0 && st.cycle_count % cfg.cycles_per_long_break == 0);
            &&& due ==> break_phase(long) == CyclePhase::LongBreak && break_duration(cfg, long)
                == cfg.long_break_duration && break_events(cfg, st, long) == seq![
                CycleEvent::PhaseStarted {
                    phase: CyclePhase::LongBreak,
                    duration: cfg.long_break_duration,
                    cycle_count: st.cycle_count,
                },
                CycleEvent::LongBreakReached { cycles_completed: st.cycle_count },
            ]
            &&& !due ==> break_phase(long) == CyclePhase::ShortBreak && break_duration(cfg, long)
                == cfg.break_duration && break_events(cfg, st, long) == seq![
                CycleEvent::PhaseStarted {
                    phase: CyclePhase::ShortBreak,
                    duration: cfg.break_duration,
                    cycle_count: st.cycle_count,
                },
            ]
        }),
{
}

/// Ticking `st` would finish a focus session, so the cycle counter moves and
/// the long-break rule is consulted.
pub open spec fn tick_completes_focus(st: CycleState) -> bool {
    st.is_running && st.phase == CyclePhase::Focus && st.remaining_seconds == 1
}

impl CycleOrchestrator {
    /// The configuration in use.
    pub closed spec fn config(&self) -> CycleConfig {
        self.config
    }

    /// The current cycle state.
    pub closed spec fn state(&self) -> CycleState {
        self.state
    }

    /// A new orchestrator, idle with no cycle counted.
    pub fn new(config: CycleConfig) -> (o: Self)
        ensures
            o.config() == config,
            o.state() == CycleState::initial(),
    {
        CycleOrchestrator { config, state: CycleState::default() }
    }

    /// Replaces the configuration; the state is kept.
    pub fn update_config(&mut self, config: CycleConfig)
        ensures
            final(self).config() == config,
            final(self).state() == old(self).state(),
    {
        self.config = config;
    }

    /// The current cycle state.
    pub fn get_state(&self) -> (s: CycleState)
        ensures
            s == self.state(),
    {
        self.state.snapshot()
    }

    /// How many focus sessions lead to a long break.
    pub fn cycles_per_long_break(&self) -> (n: u32)
        ensures
            n == self.config().cycles_per_long_break,
    {
        self.config.cycles_per_long_break
    }

    /// Whether local time `current_time` (`HH:MM`) is within the configured
    /// work hours.
    pub fn within_work_hours_at(&self, current_time: &str) -> (r: bool)
        ensures
            r == self.config().within_hours(current_time@),
    {
        match &self.config.work_schedule {
            Some(schedule) => {
                if !schedule.use_work_schedule {
                    return true;
                }
                match (&schedule.work_start_time, &schedule.work_end_time) {
                    (Some(start), Some(end)) => {
                        str_le(start.as_str(), current_time) && str_le(current_time, end.as_str())
                    },
                    _ => true,
                }
            },
            None => true,
        }
    }

    /// Whether the local time now is within the configured work hours.
    /// The reading of the clock decides; without a schedule in use the
    /// answer is always yes.
    pub fn is_within_work_hours(&self) -> (r: bool)
        ensures
            exists|t: Seq<char>| is_hhmm_reading(t) && r == self.config().within_hours(t),
    {
        let now = local_time_hhmm();
        let r = self.within_work_hours_at(now.as_str());
        assert(is_hhmm_reading(now@) && r == self.config().within_hours(now@));
        r
    }

    /// Starts a focus session.  `within_check` is the work-hours reading that
    /// decides whether the session may start, `within_now` the one recorded
    /// in the state; `session_id` and `now` identify and stamp the session.
    pub fn start_focus_session_at(
        &mut self,
        override_work_hours: bool,
        within_check: bool,
        within_now: bool,
        session_id: String,
        now: i128,
    ) -> (r: Result<Vec<CycleEvent>, String>)
        ensures
            final(self).config() == old(self).config(),
            !override_work_hours && !within_check ==> is_err_msg(
                r,
                "Cannot start focus session outside work hours"@,
            ) && final(self).state() == old(self).state(),
            (override_work_hours || within_check) && old(self).state().phase != CyclePhase::Idle
                ==> is_err_msg(
                r,
                "Cannot start focus session from "@ + old(self).state().phase.name() + " state"@,
            ) && final(self).state() == old(self).state(),
            (override_work_hours || within_check) && old(self).state().phase == CyclePhase::Idle
                ==> (r matches Ok(ev) && ev@ == seq![
                CycleEvent::PhaseStarted {
                    phase: CyclePhase::Focus,
                    duration: old(self).config().focus_duration,
                    cycle_count: old(self).state().cycle_count,
                },
            ]) && final(self).state() == old(self).state().started(
                CyclePhase::Focus,
                old(self).config().focus_duration,
                session_id,
                now,
                within_now,
            ),
    {
        if !override_work_hours && !within_check {
            return Err(String::from_str("Cannot start focus session outside work hours"));
        }
        if self.state.phase != CyclePhase::Idle {
            let m = String::from_str("Cannot start focus session from ").concat(
                self.state.phase.as_str(),
            ).concat(" state");
            return Err(m);
        }
        self.state.phase = CyclePhase::Focus;
        self.state.remaining_seconds = self.config.focus_duration;
        self.state.is_running = true;
        self.state.session_id = Some(session_id);
        self.state.started_at = Some(now);
        self.state.within_work_hours = within_now;
        let mut ev: Vec<CycleEvent> = Vec::new();
        ev.push(
            CycleEvent::PhaseStarted {
                phase: CyclePhase::Focus,
                duration: self.config.focus_duration,
                cycle_count: self.state.cycle_count,
            },
        );
        Ok(ev)
    }

    /// Starts a focus session, refusing outside work hours unless
    /// `override_work_hours` is set.  The clock supplies the readings and a
    /// fresh random session id.
    pub fn start_focus_session_with_override(&mut self, override_work_hours: bool) -> (r: Result<
        Vec<CycleEvent>,
        String,
    >)
        ensures
            final(self).config() == old(self).config(),
            r is Err ==> final(self).state() == old(self).state(),
            r matches Err(m) ==> (!override_work_hours && m@ == "Cannot start focus session outside work hours"@ && exists|t: Seq<char>|
                #[trigger] is_hhmm_reading(t) && !old(self).config().within_hours(t)) || (old(self).state().phase
                != CyclePhase::Idle && m@ == "Cannot start focus session from "@ + old(self).state().phase.name()
                + " state"@),
            r matches Ok(ev) ==> old(self).state().phase == CyclePhase::Idle && ev@ == seq![
                CycleEvent::PhaseStarted {
                    phase: CyclePhase::Focus,
                    duration: old(self).config().focus_duration,
                    cycle_count: old(self).state().cycle_count,
                },
            ],
            r is Ok ==> exists|sid: String, now: i128, within: bool|
                final(self).state() == #[trigger] old(self).state().started(
                    CyclePhase::Focus,
                    old(self).config().focus_duration,
                    sid,
                    now,
                    within,
                ),
            old(self).state().phase != CyclePhase::Idle ==> r is Err,
            old(self).state().phase == CyclePhase::Idle && (override_work_hours || forall|t: Seq<char>|
                #[trigger] is_hhmm_reading(t) ==> old(self).config().within_hours(t)) ==> r is Ok,
    {
        let within_check = if override_work_hours {
            true
        } else {
            self.is_within_work_hours()
        };
        let session_id = new_uuid_string();
        let within_now = self.is_within_work_hours();
        let now = unix_now_nanos();
        let ghost sid = session_id;
        self.start_focus_session_at(override_work_hours, within_check, within_now, session_id, now)
    }

    /// Starts a focus session within work hours.
    pub fn start_focus_session(&mut self) -> (r: Result<Vec<CycleEvent>, String>)
        ensures
            final(self).config() == old(self).config(),
            r is Err ==> final(self).state() == old(self).state(),
            r matches Err(m) ==> (m@ == "Cannot start focus session outside work hours"@ && exists|t: Seq<char>|
                #[trigger] is_hhmm_reading(t) && !old(self).config().within_hours(t)) || (old(self).state().phase
                != CyclePhase::Idle && m@ == "Cannot start focus session from "@ + old(self).state().phase.name()
                + " state"@),
            r matches Ok(ev) ==> old(self).state().phase == CyclePhase::Idle && ev@ == seq![
                CycleEvent::PhaseStarted {
                    phase: CyclePhase::Focus,
                    duration: old(self).config().focus_duration,
                    cycle_count: old(self).state().cycle_count,
                },
            ],
            r is Ok ==> exists|sid: String, now: i128, within: bool|
                final(self).state() == #[trigger] old(self).state().started(
                    CyclePhase::Focus,
                    old(self).config().focus_duration,
                    sid,
                    now,
                    within,
                ),
            old(self).state().phase != CyclePhase::Idle ==> r is Err,
            old(self).state().phase == CyclePhase::Idle && (forall|t: Seq<char>|
                #[trigger] is_hhmm_reading(t) ==> old(self).config().within_hours(t)) ==> r is Ok,
    {
        self.start_focus_session_with_override(false)
    }

    /// Starts a break: long when forced or when the completed focus sessions
    /// reach a multiple of the configured cycle group, short otherwise.
    pub fn start_break_at(&mut self, force_long: bool, within_now: bool, session_id: String, now: i128) -> (r:
        Result<Vec<CycleEvent>, String>)
        requires
            old(self).state().phase == CyclePhase::Idle && !force_long && old(self).state().cycle_count
                > 0 ==> old(self).config().cycles_per_long_break > 0,
        ensures
            final(self).config() == old(self).config(),
            old(self).state().phase != CyclePhase::Idle ==> is_err_msg(
                r,
                "Cannot start break from "@ + old(self).state().phase.name() + " state"@,
            ) && final(self).state() == old(self).state(),
            old(self).state().phase == CyclePhase::Idle ==> {
                let long = break_is_long(old(self).config(), old(self).state(), force_long);
                &&& r matches Ok(ev) && ev@ == break_events(
                    old(self).config(),
                    old(self).state(),
                    long,
                )
                &&& final(self).state() == old(self).state().started(
                    break_phase(long),
                    break_duration(old(self).config(), long),
                    session_id,
                    now,
                    within_now,
                )
            },
    {
        if self.state.phase != CyclePhase::Idle {
            let m = String::from_str("Cannot start break from ").concat(self.state.phase.as_str()).concat(
                " state",
            );
            return Err(m);
        }
        let is_long_break = force_long || (self.state.cycle_count > 0 && self.state.cycle_count
            % self.config.cycles_per_long_break == 0);
        let (phase, duration) = if is_long_break {
            (CyclePhase::LongBreak, self.config.long_break_duration)
        } else {
            (CyclePhase::ShortBreak, self.config.break_duration)
        };
        self.state.phase = phase;
        self.state.remaining_seconds = duration;
        self.state.is_running = true;
        self.state.session_id = Some(session_id);
        self.state.started_at = Some(now);
        self.state.within_work_hours = within_now;
        let mut events: Vec<CycleEvent> = Vec::new();
        events.push(
            CycleEvent::PhaseStarted { phase, duration, cycle_count: self.state.cycle_count },
        );
        if is_long_break {
            events.push(CycleEvent::LongBreakReached { cycles_completed: self.state.cycle_count });
        }
        Ok(events)
    }

    /// Starts a break; the clock supplies the session id, time and
    /// work-hours reading.
    pub fn start_break(&mut self, force_long: bool) -> (r: Result<Vec<CycleEvent>, String>)
        requires
            old(self).state().phase == CyclePhase::Idle && !force_long && old(self).state().cycle_count
                > 0 ==> old(self).config().cycles_per_long_break > 0,
        ensures
            final(self).config() == old(self).config(),
            old(self).state().phase != CyclePhase::Idle ==> is_err_msg(
                r,
                "Cannot start break from "@ + old(self).state().phase.name() + " state"@,
            ) && final(self).state() == old(self).state(),
            old(self).state().phase == CyclePhase::Idle ==> (r matches Ok(ev) && ev@ == break_events(
                old(self).config(),
                old(self).state(),
                break_is_long(old(self).config(), old(self).state(), force_long),
            )),
            old(self).state().phase == CyclePhase::Idle ==> exists|
                sid: String,
                now: i128,
                within: bool,
            |
                final(self).state() == #[trigger] old(self).state().started(
                    break_phase(break_is_long(old(self).config(), old(self).state(), force_long)),
                    break_duration(
                        old(self).config(),
                        break_is_long(old(self).config(), old(self).state(), force_long),
                    ),
                    sid,
                    now,
                    within,
                ),
    {
        let session_id = new_uuid_string();
        let within_now = self.is_within_work_hours();
        let now = unix_now_nanos();
        let ghost sid = session_id;
        let ghost st = self.state;
        let r = self.start_break_at(force_long, within_now, session_id, now);
        proof {
            if st.phase == CyclePhase::Idle {
                assert(self.state() == st.started(
                    break_phase(break_is_long(self.config(), st, force_long)),
                    break_duration(self.config(), break_is_long(self.config(), st, force_long)),
                    sid,
                    now,
                    within_now,
                ));
            }
        }
        r
    }

    /// Pauses the running session.
    pub fn pause(&mut self) -> (r: Result<(), String>)
        ensures
            final(self).config() == old(self).config(),
            !old(self).state().is_running ==> is_err_msg(r, "No active session to pause"@)
                && final(self).state() == old(self).state(),
            old(self).state().is_running ==> r is Ok && final(self).state() == old(self).state().with_running(false),
    {
        if !self.state.is_running {
            return Err(String::from_str("No active session to pause"));
        }
        self.state.is_running = false;
        Ok(())
    }

    /// Resumes a paused session.
    pub fn resume(&mut self) -> (r: Result<(), String>)
        ensures
            final(self).config() == old(self).config(),
            old(self).state().is_running ==> is_err_msg(r, "Session is already running"@)
                && final(self).state() == old(self).state(),
            !old(self).state().is_running && old(self).state().phase == CyclePhase::Idle
                ==> is_err_msg(r, "No session to resume"@) && final(self).state() == old(self).state(),
            !old(self).state().is_running && old(self).state().phase != CyclePhase::Idle ==> r is Ok
                && final(self).state() == old(self).state().with_running(true),
    {
        if self.state.is_running {
            return Err(String::from_str("Session is already running"));
        }
        if self.state.phase == CyclePhase::Idle {
            return Err(String::from_str("No session to resume"));
        }
        self.state.is_running = true;
        Ok(())
    }

    /// Ends the current session and returns to idle; a completed focus
    /// session counts one cycle.
    pub fn end_session(&mut self, completed: bool) -> (r: Result<Vec<CycleEvent>, String>)
        requires
            completed && old(self).state().phase == CyclePhase::Focus ==> old(self).state().cycle_count
                < u32::MAX,
        ensures
            final(self).config() == old(self).config(),
            old(self).state().phase == CyclePhase::Idle ==> is_err_msg(
                r,
                "No active session to end"@,
            ) && final(self).state() == old(self).state(),
            old(self).state().phase != CyclePhase::Idle ==> (r matches Ok(ev) && ev@ == end_events(
                old(self).state(),
                completed,
            )) && final(self).state() == old(self).state().ended(
                end_count(old(self).state(), completed),
            ),
    {
        let current_phase = self.state.phase;
        if current_phase == CyclePhase::Idle {
            return Err(String::from_str("No active session to end"));
        }
        let mut events: Vec<CycleEvent> = Vec::new();
        events.push(CycleEvent::PhaseEnded { phase: current_phase, completed });
        if completed && current_phase == CyclePhase::Focus {
            self.state.cycle_count = self.state.cycle_count + 1;
            events.push(CycleEvent::CycleCompleted { cycle_count: self.state.cycle_count });
        }
        self.state.phase = CyclePhase::Idle;
        self.state.remaining_seconds = 0;
        self.state.is_running = false;
        self.state.session_id = None;
        self.state.started_at = None;
        Ok(events)
    }

    /// One second of the running session.  When it reaches zero the session
    /// completes; a focus session is followed at once by a break (long when
    /// due), a short break by the next focus session, a long break by idle.
    /// `within_now`, `session_id` and `now` describe the session that starts
    /// by itself, if one does.
    pub fn tick_at(&mut self, within_now: bool, session_id: String, now: i128) -> (r: Result<
        Vec<CycleEvent>,
        String,
    >)
        requires
            tick_completes_focus(old(self).state()) ==> old(self).config().cycles_per_long_break > 0
                && old(self).state().cycle_count < u32::MAX,
        ensures
            final(self).config() == old(self).config(),
            r matches Ok(ev) && ev@ == tick_spec(
                old(self).config(),
                old(self).state(),
                within_now,
                session_id,
                now,
            ).1,
            final(self).state() == tick_spec(
                old(self).config(),
                old(self).state(),
                within_now,
                session_id,
                now,
            ).0,
    {
        let mut events: Vec<CycleEvent> = Vec::new();
        if !self.state.is_running || self.state.phase == CyclePhase::Idle {
            return Ok(events);
        }
        if self.state.remaining_seconds > 0 {
            let ghost st0 = self.state;
            self.state.remaining_seconds = self.state.remaining_seconds - 1;
            events.push(CycleEvent::Tick { remaining: self.state.remaining_seconds });
            if self.config.pre_alert_seconds > 0 && self.state.phase == CyclePhase::Focus
                && self.state.remaining_seconds == self.config.pre_alert_seconds {
                events.push(CycleEvent::PreAlert { remaining: self.state.remaining_seconds });
            }
            if self.state.remaining_seconds == 0 {
                let completed_phase = self.state.phase;
                let ghost ticked = self.state;
                let ghost before = events@;
                let completion_events = self.end_session(true);
                match completion_events {
                    Ok(ce) => {
                        let mut i: usize = 0;
                        while i < ce.len()
                            invariant
                                i <= ce.len(),
                                events@ == before + ce@.subrange(0, i as int),
                            decreases ce.len() - i,
                        {
                            events.push(ce[i]);
                            i = i + 1;
                            assert(events@ =~= before + ce@.subrange(0, i as int));
                        }
                        assert(ce@.subrange(0, ce.len() as int) =~= ce@);
                    },
                    Err(_) => {
                        assert(false);
                    },
                }
                if completed_phase == CyclePhase::Focus {
                    let is_long_break = self.state.cycle_count > 0 && self.state.cycle_count
                        % self.config.cycles_per_long_break == 0;
                    let (phase, duration) = if is_long_break {
                        (CyclePhase::LongBreak, self.config.long_break_duration)
                    } else {
                        (CyclePhase::ShortBreak, self.config.break_duration)
                    };
                    self.state.phase = phase;
                    self.state.remaining_seconds = duration;
                    self.state.is_running = true;
                    self.state.session_id = Some(session_id);
                    self.state.started_at = Some(now);
                    self.state.within_work_hours = within_now;
                    if is_long_break {
                        events.push(
                            CycleEvent::LongBreakReached { cycles_completed: self.state.cycle_count },
                        );
                    }
                } else if completed_phase == CyclePhase::ShortBreak {
                    self.state.phase = CyclePhase::Focus;
                    self.state.remaining_seconds = self.config.focus_duration;
                    self.state.is_running = true;
                    self.state.session_id = Some(session_id);
                    self.state.started_at = Some(now);
                    self.state.within_work_hours = within_now;
                }
            }
        }
        Ok(events)
    }

    /// One second of the running session, with the clock supplying what a
    /// session that starts by itself needs.
    pub fn tick(&mut self) -> (r: Result<Vec<CycleEvent>, String>)
        requires
            tick_completes_focus(old(self).state()) ==> old(self).config().cycles_per_long_break > 0
                && old(self).state().cycle_count < u32::MAX,
        ensures
            final(self).config() == old(self).config(),
            exists|within: bool, sid: String, now: i128|
                {
                    let t = #[trigger] tick_spec(old(self).config(), old(self).state(), within, sid, now);
                    &&& r matches Ok(ev) && ev@ == t.1
                    &&& final(self).state() == t.0
                },
    {
        let session_id = new_uuid_string();
        let within_now = self.is_within_work_hours();
        let now = unix_now_nanos();
        let ghost sid = session_id;
        let r = self.tick_at(within_now, session_id, now);
        assert({
            let t = tick_spec(old(self).config(), old(self).state(), within_now, sid, now);
            &&& r matches Ok(ev) && ev@ == t.1
            &&& self.state() == t.0
        });
        r
    }

    /// Resets the cycle counter.
    pub fn reset_cycle_count(&mut self)
        ensures
            final(self).config() == old(self).config(),
            final(self).state() == old(self).state().with_cycle_count(0),
    {
        self.state.cycle_count = 0;
    }

    /// Schedule details for display, given the work-hours reading.
    pub fn work_schedule_info_at(&self, is_within_hours: bool) -> (r: Option<WorkScheduleInfo>)
        ensures
            match self.config().work_schedule {
                Some(s) => if s.use_work_schedule {
                    r matches Some(i) && i.start_time == s.work_start_time && i.end_time
                        == s.work_end_time && i.timezone == s.timezone && i.is_within_hours
                        == is_within_hours
                } else {
                    r is None
                },
                None => r is None,
            },
    {
        match &self.config.work_schedule {
            Some(schedule) => {
                if schedule.use_work_schedule {
                    Some(
                        WorkScheduleInfo {
                            start_time: clone_opt_string(&schedule.work_start_time),
                            end_time: clone_opt_string(&schedule.work_end_time),
                            timezone: schedule.timezone.clone(),
                            is_within_hours,
                        },
                    )
                } else {
                    None
                }
            },
            None => None,
        }
    }

    /// Schedule details for display, when a schedule is in use.
    pub fn get_work_schedule_info(&self) -> (r: Option<WorkScheduleInfo>)
        ensures
            match self.config().work_schedule {
                Some(s) => if s.use_work_schedule {
                    r matches Some(i) && i.start_time == s.work_start_time && i.end_time
                        == s.work_end_time && i.timezone == s.timezone
                } else {
                    r is None
                },
                None => r is None,
            },
    {
        let within = match &self.config.work_schedule {
            Some(s) => if s.use_work_schedule {
                self.is_within_work_hours()
            } else {
                false
            },
            None => false,
        };
        self.work_schedule_info_at(within)
    }
}

/// Pausing a running session and resuming it gives back the same state.
pub proof fn law_pause_then_resume(st: CycleState)
    requires
        st.is_running,
        st.phase != CyclePhase::Idle,
    ensures
        !st.with_running(false).is_running,
        st.with_running(false).phase != CyclePhase::Idle,
        st.with_running(false).with_running(true) == st,
{
}

/// No session is held while idle: the initial state, every state that a
/// start, an end, a pause, a resume of a session, a tick or a counter reset
/// leaves, all keep the idle state empty.
pub proof fn law_idle_holds_no_session(
    cfg: CycleConfig,
    st: CycleState,
    phase: CyclePhase,
    duration: u32,
    session_id: String,
    now: i128,
    within: bool,
    count: u32,
)
    requires
        st.inv(),
    ensures
        CycleState::initial().inv(),
        phase != CyclePhase::Idle ==> st.started(phase, duration, session_id, now, within).inv(),
        st.ended(count).inv(),
        st.with_running(false).inv(),
        st.phase != CyclePhase::Idle ==> st.with_running(true).inv(),
        st.with_cycle_count(count).inv(),
        tick_spec(cfg, st, within, session_id, now).0.inv(),
{
}

/// A tick of a running session with more than one second left takes one
/// second off and reports it; nothing else changes.
pub proof fn law_tick_counts_down(
    cfg: CycleConfig,
    st: CycleState,
    within: bool,
    session_id: String,
    now: i128,
)
    requires
        st.is_running,
        st.phase != CyclePhase::Idle,
        st.remaining_seconds > 1,
    ensures
        tick_spec(cfg, st, within, session_id, now).0 == (CycleState {
            remaining_seconds: (st.remaining_seconds - 1) as u32,
            ..st
        }),
        tick_spec(cfg, st, within, session_id, now).1[0] == (CycleEvent::Tick {
            remaining: (st.remaining_seconds - 1) as u32,
        }),
{
}

/// A paused session, or an idle orchestrator, ignores ticks.
pub proof fn law_tick_ignored_when_stopped(
    cfg: CycleConfig,
    st: CycleState,
    within: bool,
    session_id: String,
    now: i128,
)
    requires
        !st.is_running || st.phase == CyclePhase::Idle,
    ensures
        tick_spec(cfg, st, within, session_id, now).0 == st,
        tick_spec(cfg, st, within, session_id, now).1.len() == 0,
{
}

/// The pre-alert is sent by exactly the tick of a focus session that leaves
/// the configured number of seconds (when that number is not zero).
pub proof fn law_pre_alert_when_threshold_reached(
    cfg: CycleConfig,
    st: CycleState,
    within: bool,
    session_id: String,
    now: i128,
)
    requires
        st.is_running,
        st.phase != CyclePhase::Idle,
        st.remaining_seconds > 0,
    ensures
        tick_spec(cfg, st, within, session_id, now).1.contains(
            CycleEvent::PreAlert { remaining: (st.remaining_seconds - 1) as u32 },
        ) <==> (cfg.pre_alert_seconds > 0 && st.phase == CyclePhase::Focus && st.remaining_seconds
            - 1 == cfg.pre_alert_seconds),
{
    let t = tick_spec(cfg, st, within, session_id, now);
    let r = (st.remaining_seconds - 1) as u32;
    let pre = CycleEvent::PreAlert { remaining: r };
    if cfg.pre_alert_seconds > 0 && st.phase == CyclePhase::Focus && r == cfg.pre_alert_seconds {
        assert(t.1[1] == pre);
    } else {
        assert forall|i: int| 0 <= i < t.1.len() implies t.1[i] != pre by {
            if r > 0 {
            } else {
                let ticked = CycleState { remaining_seconds: r, ..st };
                let base = seq![CycleEvent::Tick { remaining: r }] + end_events(ticked, true);
                assert(i < base.len() ==> t.1[i] == base[i]);
            }
        }
    }
}

/// When a focus session runs out, the completed cycle is counted and a break
/// starts at once: a long one when the count is a multiple of the cycle
/// group, a short one otherwise.
pub proof fn law_focus_completion_starts_break(
    cfg: CycleConfig,
    st: CycleState,
    within: bool,
    session_id: String,
    now: i128,
)
    requires
        tick_completes_focus(st),
        cfg.cycles_per_long_break > 0,
        st.cycle_count < u32::MAX,
    ensures
        tick_spec(cfg, st, within, session_id, now).0.cycle_count == st.cycle_count + 1,
        tick_spec(cfg, st, within, session_id, now).0.is_running,
        tick_spec(cfg, st, within, session_id, now).0.phase == (if (st.cycle_count + 1)
            % (cfg.cycles_per_long_break as int) == 0 {
            CyclePhase::LongBreak
        } else {
            CyclePhase::ShortBreak
        }),
        tick_spec(cfg, st, within, session_id, now).0.session_id == Some(session_id),
{
}

/// Ending a session counts a cycle exactly when a focus session is ended as
/// completed, and always returns to idle.
pub proof fn law_end_counts_completed_focus(st: CycleState, completed: bool)
    requires
        st.phase != CyclePhase::Idle,
        st.cycle_count < u32::MAX,
    ensures
        st.ended(end_count(st, completed)).phase == CyclePhase::Idle,
        end_count(st, completed) == (if completed && st.phase == CyclePhase::Focus {
            st.cycle_count + 1
        } else {
            st.cycle_count as int
        }),
{
}

} // verus!
