//! The records exchanged with the frontend, and their conversion to and from
//! the stored records.  Durations are in seconds unless a name says minutes;
//! times are Unix timestamps in seconds.

use vstd::prelude::*;
use crate::clock::new_uuid_string;
use crate::models::{Session, SessionStats as DbSessionStats, SessionType, UserSettings as DbUserSettings};
use crate::text::clone_opt_string;

verus! {

/// `x as u32` for an integer `x`: its residue modulo 2^32.
pub open spec fn wrap_u32(x: int) -> u32 {
    (x % 0x1_0000_0000) as u32
}

/// `x as i32` for an integer `x`: its low 32 bits read as a signed number.
pub open spec fn wrap_i32(x: int) -> i32 {
    let m = x % 0x1_0000_0000;
    if m < 0x8000_0000 {
        m as i32
    } else {
        (m - 0x1_0000_0000) as i32
    }
}

/// Integer division rounding toward zero, as Rust's `/` on signed numbers.
pub open spec fn div_toward_zero(a: int, b: int) -> int {
    if a >= 0 {
        a / b
    } else {
        -((-a) / b)
    }
}

/// `x as u32` for an `i64`.
pub fn i64_to_u32_wrapping(x: i64) -> (r: u32)
    ensures
        r == wrap_u32(x as int),
{
    let m: i64 = x % 0x1_0000_0000;
    let m2: i64 = if m < 0 {
        m + 0x1_0000_0000
    } else {
        m
    };
    assert(m2 == (x as int) % 0x1_0000_0000) by {
        assert(x as int == (x as int / 0x1_0000_0000) * 0x1_0000_0000 + (x as int) % 0x1_0000_0000);
    }
    m2 as u32
}

/// `x as i32` for an `i64`.
pub fn i64_to_i32_wrapping(x: i64) -> (r: i32)
    ensures
        r == wrap_i32(x as int),
{
    let m: u32 = i64_to_u32_wrapping(x);
    if m < 0x8000_0000 {
        m as i32
    } else {
        let k: i64 = m as i64 - 0x1_0000_0000i64;
        k as i32
    }
}

/// `a / 60` on an `i32`, rounding toward zero.
fn div60(a: i32) -> (q: i32)
    ensures
        q == div_toward_zero(a as int, 60),
{
    if a >= 0 {
        a / 60
    } else {
        let p: i64 = -(a as i64);
        let d: i64 = p / 60;
        (-d) as i32
    }
}

/// User settings as the frontend sees them (durations in minutes).
#[derive(Debug, Clone)]
pub struct UserSettings {
    pub focus_duration: u32,
    pub short_break_duration: u32,
    pub long_break_duration: u32,
    pub cycles_per_long_break: u32,
    pub pre_alert_seconds: u32,
    pub strict_mode: bool,
    pub pin_hash: Option<String>,
    pub emergency_key_combination: Option<String>,
}

impl UserSettings {
    /// 25 minute focus, 5 and 15 minute breaks, a long break every 4 cycles,
    /// a pre-alert 2 minutes before the end, no strict mode.
    pub open spec fn is_default(self) -> bool {
        &&& self.focus_duration == 25
        &&& self.short_break_duration == 5
        &&& self.long_break_duration == 15
        &&& self.cycles_per_long_break == 4
        &&& self.pre_alert_seconds == 120
        &&& !self.strict_mode
        &&& self.pin_hash is None
        &&& self.emergency_key_combination is None
    }

    /// The frontend view of stored settings: seconds become whole minutes
    /// (rounded toward zero), every number is taken as `u32`.
    pub open spec fn of_db(db: DbUserSettings) -> UserSettings {
        UserSettings {
            focus_duration: wrap_u32(div_toward_zero(db.focus_duration as int, 60)),
            short_break_duration: wrap_u32(div_toward_zero(db.short_break_duration as int, 60)),
            long_break_duration: wrap_u32(div_toward_zero(db.long_break_duration as int, 60)),
            cycles_per_long_break: wrap_u32(db.cycles_per_long_break as int),
            pre_alert_seconds: wrap_u32(db.pre_alert_seconds as int),
            strict_mode: db.strict_mode,
            pin_hash: db.pin_hash,
            emergency_key_combination: db.emergency_key_combination,
        }
    }

    /// The frontend view of stored settings (see `of_db`).
    pub fn from_db(db: &DbUserSettings) -> (s: UserSettings)
        ensures
            s == UserSettings::of_db(*db),
    {
        UserSettings {
            focus_duration: i64_to_u32_wrapping(div60(db.focus_duration) as i64),
            short_break_duration: i64_to_u32_wrapping(div60(db.short_break_duration) as i64),
            long_break_duration: i64_to_u32_wrapping(div60(db.long_break_duration) as i64),
            cycles_per_long_break: i64_to_u32_wrapping(db.cycles_per_long_break as i64),
            pre_alert_seconds: i64_to_u32_wrapping(db.pre_alert_seconds as i64),
            strict_mode: db.strict_mode,
            pin_hash: clone_opt_string(&db.pin_hash),
            emergency_key_combination: clone_opt_string(&db.emergency_key_combination),
        }
    }

    /// The stored form of these settings, stamped with `now`: minutes become
    /// seconds, both cycle counts get the same value, and the name and
    /// emergency key, which the frontend model does not carry, are cleared.
    pub open spec fn to_db_spec(self, now: i64) -> DbUserSettings {
        DbUserSettings {
            id: 1,
            focus_duration: wrap_i32(self.focus_duration * 60),
            short_break_duration: wrap_i32(self.short_break_duration * 60),
            long_break_duration: wrap_i32(self.long_break_duration * 60),
            cycles_per_long_break: wrap_i32(self.cycles_per_long_break as int),
            cycles_per_long_break_v2: wrap_i32(self.cycles_per_long_break as int),
            pre_alert_seconds: wrap_i32(self.pre_alert_seconds as int),
            strict_mode: self.strict_mode,
            pin_hash: self.pin_hash,
            user_name: None,
            emergency_key_combination: None,
            break_transition_seconds: 10,
            created_at: now,
            updated_at: now,
        }
    }

    /// The stored form of these settings (see `to_db_spec`).
    pub fn to_db_at(&self, now: i64) -> (db: DbUserSettings)
        requires
            self.focus_duration * 60 <= u32::MAX,
            self.short_break_duration * 60 <= u32::MAX,
            self.long_break_duration * 60 <= u32::MAX,
        ensures
            db == self.to_db_spec(now),
    {
        let mut db = DbUserSettings::default_at(now);
        db.focus_duration = i64_to_i32_wrapping((self.focus_duration * 60) as i64);
        db.short_break_duration = i64_to_i32_wrapping((self.short_break_duration * 60) as i64);
        db.long_break_duration = i64_to_i32_wrapping((self.long_break_duration * 60) as i64);
        db.cycles_per_long_break = i64_to_i32_wrapping(self.cycles_per_long_break as i64);
        db.cycles_per_long_break_v2 = i64_to_i32_wrapping(self.cycles_per_long_break as i64);
        db.pre_alert_seconds = i64_to_i32_wrapping(self.pre_alert_seconds as i64);
        db.strict_mode = self.strict_mode;
        db.pin_hash = clone_opt_string(&self.pin_hash);
        db
    }
}

impl Default for UserSettings {
    fn default() -> (s: UserSettings)
        ensures
            s.is_default(),
    {
        UserSettings {
            focus_duration: 25,
            short_break_duration: 5,
            long_break_duration: 15,
            cycles_per_long_break: 4,
            pre_alert_seconds: 120,
            strict_mode: false,
            pin_hash: None,
            emergency_key_combination: None,
        }
    }
}

/// State of a focus session as the focus widget shows it.
#[derive(Debug, Clone, Copy, PartialEq, Eq, Structural)]
pub enum SessionState {
    Idle,
    Running,
    PreAlert,
    Ending,
}

/// A focus session as the frontend sees it.
#[derive(Debug, Clone)]
pub struct FocusSession {
    pub id: String,
    pub start_time: i64,
    pub duration: u32,
    pub remaining: u32,
    pub is_running: bool,
    pub is_strict: bool,
    pub state: SessionState,
}

/// Kind of a break.
#[derive(Debug, Clone, Copy, PartialEq, Eq, Structural)]
pub enum BreakType {
    Short,
    Long,
}

/// Suggested activities for a break.
#[derive(Debug, Clone)]
pub struct BreakActivity {
    pub title: String,
    pub description: String,
    pub checklist: Vec<String>,
}

/// A break as the frontend sees it.
#[derive(Debug, Clone)]
pub struct BreakSession {
    pub id: String,
    pub break_type: BreakType,
    pub duration: u32,
    pub remaining: u32,
    pub activity: BreakActivity,
    pub allow_emergency: bool,
}

/// Per-day statistics as the frontend sees them.
#[derive(Debug, Clone)]
pub struct SessionStats {
    pub date: String,
    pub focus_minutes: u32,
    pub breaks_completed: u32,
    pub sessions_completed: u32,
    pub evasion_attempts: u32,
}

/// Seconds left of a session of `duration` seconds after `elapsed`.
pub open spec fn remaining_after(duration: u32, elapsed: u32) -> u32 {
    if elapsed >= duration {
        0
    } else {
        (duration - elapsed) as u32
    }
}

/// The widget state of a session: idle when stopped, a pre-alert in the
/// last two minutes, ending at zero, running otherwise.
pub open spec fn widget_state(is_running: bool, remaining: u32) -> SessionState {
    if !is_running {
        SessionState::Idle
    } else if remaining <= 120 && remaining > 0 {
        SessionState::PreAlert
    } else if remaining == 0 {
        SessionState::Ending
    } else {
        SessionState::Running
    }
}

impl FocusSession {
    /// The frontend view of a stored focus session at time `now` (its end
    /// time when it has one); `None` for a break.
    pub fn from_db_session(db: Session, now: i64) -> (r: Option<FocusSession>)
        requires
            i64::MIN <= (match db.end_time {
                Some(e) => e,
                None => now,
            }) - db.start_time <= i64::MAX,
        ensures
            db.session_type != SessionType::Focus ==> r is None,
            db.session_type == SessionType::Focus ==> (r matches Some(f) && {
                let elapsed = wrap_u32(
                    (match db.end_time {
                        Some(e) => e,
                        None => now,
                    }) - db.start_time,
                );
                let duration = wrap_u32(db.planned_duration as int);
                let running = db.end_time is None && !db.completed;
                &&& f.id == db.id
                &&& f.start_time == db.start_time
                &&& f.duration == duration
                &&& f.remaining == remaining_after(duration, elapsed)
                &&& f.is_running == running
                &&& f.is_strict == db.strict_mode
                &&& f.state == widget_state(running, remaining_after(duration, elapsed))
            }),
    {
        if db.session_type != SessionType::Focus {
            return None;
        }
        let until: i64 = match db.end_time {
            Some(e) => e,
            None => now,
        };
        let elapsed = i64_to_u32_wrapping(until - db.start_time);
        let duration = i64_to_u32_wrapping(db.planned_duration as i64);
        let remaining: u32 = if elapsed >= duration {
            0
        } else {
            duration - elapsed
        };
        let is_running = db.end_time.is_none() && !db.completed;
        let state = if !is_running {
            SessionState::Idle
        } else if remaining <= 120 && remaining > 0 {
            SessionState::PreAlert
        } else if remaining == 0 {
            SessionState::Ending
        } else {
            SessionState::Running
        };
        Some(
            FocusSession {
                id: db.id,
                start_time: db.start_time,
                duration,
                remaining,
                is_running,
                is_strict: db.strict_mode,
                state,
            },
        )
    }

    /// The stored form of this session.  A stopped session ends after the
    /// time it ran and counts as completed when nothing was left.
    pub open spec fn record(self) -> Session {
        Session {
            id: self.id,
            session_type: SessionType::Focus,
            start_time: self.start_time,
            end_time: if self.is_running {
                None
            } else {
                Some((self.start_time + self.duration - self.remaining) as i64)
            },
            planned_duration: wrap_i32(self.duration as int),
            actual_duration: if self.is_running {
                None
            } else {
                Some(wrap_i32(self.duration - self.remaining))
            },
            strict_mode: self.is_strict,
            completed: !self.is_running && self.remaining == 0,
            notes: None,
            created_at: self.start_time,
            within_work_hours: false,
            cycle_number: None,
            is_long_break: false,
        }
    }

    /// A copy of this session.
    pub fn duplicate(&self) -> (r: FocusSession)
        ensures
            r == *self,
    {
        FocusSession {
            id: self.id.clone(),
            start_time: self.start_time,
            duration: self.duration,
            remaining: self.remaining,
            is_running: self.is_running,
            is_strict: self.is_strict,
            state: self.state,
        }
    }

    /// The stored form of this session (see `record`).
    pub fn to_db_session(&self) -> (s: Session)
        requires
            !self.is_running ==> self.remaining <= self.duration,
            i64::MIN <= self.start_time + self.duration - self.remaining <= i64::MAX,
        ensures
            s == self.record(),
    {
        let end_time: Option<i64> = if !self.is_running {
            Some(self.start_time + (self.duration as i64 - self.remaining as i64))
        } else {
            None
        };
        let actual: Option<i32> = if end_time.is_some() {
            Some(i64_to_i32_wrapping((self.duration - self.remaining) as i64))
        } else {
            None
        };
        Session {
            id: self.id.clone(),
            session_type: SessionType::Focus,
            start_time: self.start_time,
            end_time,
            planned_duration: i64_to_i32_wrapping(self.duration as i64),
            actual_duration: actual,
            strict_mode: self.is_strict,
            completed: !self.is_running && self.remaining == 0,
            notes: None,
            created_at: self.start_time,
            within_work_hours: false,
            cycle_number: None,
            is_long_break: false,
        }
    }
}

/// The title of the activities suggested for a break.
pub open spec fn activity_title(t: BreakType) -> Seq<char> {
    match t {
        BreakType::Short => "Quick Refresh"@,
        BreakType::Long => "Extended Break"@,
    }
}

/// The description of the activities suggested for a break.
pub open spec fn activity_description(t: BreakType) -> Seq<char> {
    match t {
        BreakType::Short => "Take a moment to recharge with these quick activities"@,
        BreakType::Long => "Time for a longer break to fully recharge"@,
    }
}

/// The checklist suggested for a break.
pub open spec fn activity_checklist(t: BreakType) -> Seq<Seq<char>> {
    match t {
        BreakType::Short => seq![
            "💧 Drink a glass of water"@,
            "👀 Look away from the screen (20-20-20 rule)"@,
            "🧘 Take 3 deep breaths"@,
            "🚶 Stand up and stretch"@,
        ],
        BreakType::Long => seq![
            "🚶‍♂️ Take a short walk"@,
            "💧 Hydrate with water or herbal tea"@,
            "🥗 Have a healthy snack"@,
            "🧘‍♀️ Do some light stretching or meditation"@,
            "🌱 Step outside for fresh air"@,
            "📱 Check in with a friend or family member"@,
        ],
    }
}

/// Strings of a list, as character sequences.
pub open spec fn string_views(v: Seq<String>) -> Seq<Seq<char>> {
    v.map_values(|s: String| s@)
}

impl BreakActivity {
    /// The activities suggested for a break of the given kind.
    pub fn for_break(t: BreakType) -> (a: BreakActivity)
        ensures
            a.title@ == activity_title(t),
            a.description@ == activity_description(t),
            string_views(a.checklist@) == activity_checklist(t),
    {
        match t {
            BreakType::Short => {
                let checklist = vec![
                    String::from_str("💧 Drink a glass of water"),
                    String::from_str("👀 Look away from the screen (20-20-20 rule)"),
                    String::from_str("🧘 Take 3 deep breaths"),
                    String::from_str("🚶 Stand up and stretch"),
                ];
                assert(string_views(checklist@) =~= activity_checklist(t));
                BreakActivity {
                    title: String::from_str("Quick Refresh"),
                    description: String::from_str(
                        "Take a moment to recharge with these quick activities",
                    ),
                    checklist,
                }
            },
            BreakType::Long => {
                let checklist = vec![
                    String::from_str("🚶‍♂️ Take a short walk"),
                    String::from_str("💧 Hydrate with water or herbal tea"),
                    String::from_str("🥗 Have a healthy snack"),
                    String::from_str("🧘‍♀️ Do some light stretching or meditation"),
                    String::from_str("🌱 Step outside for fresh air"),
                    String::from_str("📱 Check in with a friend or family member"),
                ];
                assert(string_views(checklist@) =~= activity_checklist(t));
                BreakActivity {
                    title: String::from_str("Extended Break"),
                    description: String::from_str("Time for a longer break to fully recharge"),
                    checklist,
                }
            },
        }
    }
}

impl BreakSession {
    /// `b` is a new break with identifier `id`: `duration_minutes` minutes
    /// of the given kind, none of it run, with the activities suggested for
    /// its kind.
    pub open spec fn is_new(b: BreakSession, id: String, break_type: BreakType, duration_minutes: u32, allow_emergency: bool) -> bool {
        &&& b.id == id
        &&& b.break_type == break_type
        &&& b.duration == duration_minutes * 60
        &&& b.remaining == duration_minutes * 60
        &&& b.activity.title@ == activity_title(break_type)
        &&& b.activity.description@ == activity_description(break_type)
        &&& string_views(b.activity.checklist@) == activity_checklist(break_type)
        &&& b.allow_emergency == allow_emergency
    }

    /// A new break with the given identifier (see `is_new`).
    pub fn with_id(id: String, break_type: BreakType, duration_minutes: u32, allow_emergency: bool) -> (b: BreakSession)
        requires
            duration_minutes * 60 <= u32::MAX,
        ensures
            BreakSession::is_new(b, id, break_type, duration_minutes, allow_emergency),
    {
        let activity = BreakActivity::for_break(break_type);
        BreakSession {
            id,
            break_type,
            duration: duration_minutes * 60,
            remaining: duration_minutes * 60,
            activity,
            allow_emergency,
        }
    }

    /// A new break with a fresh random identifier (see `is_new`).
    pub fn new(break_type: BreakType, duration_minutes: u32, allow_emergency: bool) -> (b: BreakSession)
        requires
            duration_minutes * 60 <= u32::MAX,
        ensures
            b.id@.len() == 36,
            BreakSession::is_new(b, b.id, break_type, duration_minutes, allow_emergency),
    {
        BreakSession::with_id(new_uuid_string(), break_type, duration_minutes, allow_emergency)
    }

    /// The stored form of this break, started at `start_time`.
    pub open spec fn record(self, start_time: i64) -> Session {
        Session {
            id: self.id,
            session_type: match self.break_type {
                BreakType::Short => SessionType::ShortBreak,
                BreakType::Long => SessionType::LongBreak,
            },
            start_time,
            end_time: None,
            planned_duration: wrap_i32(self.duration as int),
            actual_duration: None,
            strict_mode: false,
            completed: false,
            notes: None,
            created_at: start_time,
            within_work_hours: false,
            cycle_number: None,
            is_long_break: self.break_type == BreakType::Long,
        }
    }

    /// Two breaks with the same fields (checklists compared by content).
    pub open spec fn same_as(self, other: BreakSession) -> bool {
        &&& self.id == other.id
        &&& self.break_type == other.break_type
        &&& self.duration == other.duration
        &&& self.remaining == other.remaining
        &&& self.activity.title == other.activity.title
        &&& self.activity.description == other.activity.description
        &&& self.activity.checklist@ == other.activity.checklist@
        &&& self.allow_emergency == other.allow_emergency
    }

    /// A copy of this break.
    pub fn duplicate(&self) -> (r: BreakSession)
        ensures
            r.same_as(*self),
    {
        let mut checklist: Vec<String> = Vec::new();
        let mut i: usize = 0;
        while i < self.activity.checklist.len()
            invariant
                i <= self.activity.checklist.len(),
                checklist@ == self.activity.checklist@.subrange(0, i as int),
            decreases self.activity.checklist.len() - i,
        {
            checklist.push(self.activity.checklist[i].clone());
            i = i + 1;
            assert(checklist@ =~= self.activity.checklist@.subrange(0, i as int));
        }
        assert(checklist@ =~= self.activity.checklist@);
        BreakSession {
            id: self.id.clone(),
            break_type: self.break_type,
            duration: self.duration,
            remaining: self.remaining,
            activity: BreakActivity {
                title: self.activity.title.clone(),
                description: self.activity.description.clone(),
                checklist,
            },
            allow_emergency: self.allow_emergency,
        }
    }

    /// The stored form of this break (see `record`).
    pub fn to_db_session(&self, start_time: i64) -> (s: Session)
        ensures
            s == self.record(start_time),
    {
        let session_type = match self.break_type {
            BreakType::Short => SessionType::ShortBreak,
            BreakType::Long => SessionType::LongBreak,
        };
        Session {
            id: self.id.clone(),
            session_type,
            start_time,
            end_time: None,
            planned_duration: i64_to_i32_wrapping(self.duration as i64),
            actual_duration: None,
            strict_mode: false,
            completed: false,
            notes: None,
            created_at: start_time,
            within_work_hours: false,
            cycle_number: None,
            is_long_break: self.break_type == BreakType::Long,
        }
    }
}

impl SessionStats {
    /// The frontend view of stored statistics (the same numbers).
    pub fn from_db(db: DbSessionStats) -> (s: SessionStats)
        ensures
            s.date == db.date,
            s.focus_minutes == db.focus_minutes,
            s.breaks_completed == db.breaks_completed,
            s.sessions_completed == db.sessions_completed,
            s.evasion_attempts == db.evasion_attempts,
    {
        SessionStats {
            date: db.date,
            focus_minutes: db.focus_minutes,
            breaks_completed: db.breaks_completed,
            sessions_completed: db.sessions_completed,
            evasion_attempts: db.evasion_attempts,
        }
    }
}

} // verus!
