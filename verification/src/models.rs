//! Records stored in the database: settings, sessions, block lists, work
//! schedules and statistics.  Times are Unix timestamps in seconds.

use vstd::prelude::*;
use crate::clock::unix_now;
use crate::text::{chars_of, eq_ignore_ascii_case, eq_ignore_ascii_case_exec};

verus! {

/// User settings as stored (durations in seconds).
#[derive(Debug, Clone)]
pub struct UserSettings {
    pub id: i32,
    pub focus_duration: i32,
    pub short_break_duration: i32,
    pub long_break_duration: i32,
    pub cycles_per_long_break: i32,
    pub cycles_per_long_break_v2: i32,
    pub pre_alert_seconds: i32,
    pub strict_mode: bool,
    pub pin_hash: Option<String>,
    pub user_name: Option<String>,
    pub emergency_key_combination: Option<String>,
    pub break_transition_seconds: i32,
    pub created_at: i64,
    pub updated_at: i64,
}

impl UserSettings {
    /// The stored defaults: 25 minute focus, 5 and 15 minute breaks, a long
    /// break every 4 cycles, a pre-alert 2 minutes before the end.
    pub open spec fn is_default_at(self, now: i64) -> bool {
        &&& self.id == 1
        &&& self.focus_duration == 1500
        &&& self.short_break_duration == 300
        &&& self.long_break_duration == 900
        &&& self.cycles_per_long_break == 4
        &&& self.cycles_per_long_break_v2 == 4
        &&& self.pre_alert_seconds == 120
        &&& !self.strict_mode
        &&& self.pin_hash is None
        &&& self.user_name is None
        &&& self.emergency_key_combination is None
        &&& self.break_transition_seconds == 10
        &&& self.created_at == now
        &&& self.updated_at == now
    }

    /// Default settings stamped with the given time.
    pub fn default_at(now: i64) -> (s: UserSettings)
        ensures
            s.is_default_at(now),
    {
        UserSettings {
            id: 1,
            focus_duration: 1500,
            short_break_duration: 300,
            long_break_duration: 900,
            cycles_per_long_break: 4,
            cycles_per_long_break_v2: 4,
            pre_alert_seconds: 120,
            strict_mode: false,
            pin_hash: None,
            user_name: None,
            emergency_key_combination: None,
            break_transition_seconds: 10,
            created_at: now,
            updated_at: now,
        }
    }
}

impl Default for UserSettings {
    fn default() -> (s: UserSettings)
        ensures
            s.is_default_at(s.created_at),
    {
        UserSettings::default_at(unix_now())
    }
}

/// Kind of an entry of the block list.
#[derive(Debug, Clone, Copy, PartialEq, Eq, Structural)]
pub enum BlockType {
    App,
    Website,
}

impl BlockType {
    /// The stored name.
    pub open spec fn name(self) -> Seq<char> {
        match self {
            BlockType::App => "app"@,
            BlockType::Website => "website"@,
        }
    }

    /// The stored name (`app` or `website`).
    pub fn as_str(&self) -> (s: &'static str)
        ensures
            s@ == self.name(),
    {
        match self {
            BlockType::App => "app",
            BlockType::Website => "website",
        }
    }

    /// Parses a stored name, ignoring case.
    pub fn parse(s: &str) -> (r: Result<BlockType, String>)
        ensures
            eq_ignore_ascii_case(s@, "app"@) ==> r == Ok::<BlockType, String>(BlockType::App),
            !eq_ignore_ascii_case(s@, "app"@) && eq_ignore_ascii_case(s@, "website"@) ==> r
                == Ok::<BlockType, String>(BlockType::Website),
            !eq_ignore_ascii_case(s@, "app"@) && !eq_ignore_ascii_case(s@, "website"@) ==> (r
                matches Err(m) && m@ == "Invalid block type: "@ + s@),
    {
        let v = chars_of(s);
        let app = chars_of("app");
        let web = chars_of("website");
        if eq_ignore_ascii_case_exec(&v, &app) {
            Ok(BlockType::App)
        } else if eq_ignore_ascii_case_exec(&v, &web) {
            Ok(BlockType::Website)
        } else {
            let m = String::from_str("Invalid block type: ").concat(s);
            Err(m)
        }
    }
}

/// Kind of a recorded session.
#[derive(Debug, Clone, Copy, PartialEq, Eq, Structural)]
pub enum SessionType {
    Focus,
    ShortBreak,
    LongBreak,
}

impl SessionType {
    /// The stored name.
    pub open spec fn name(self) -> Seq<char> {
        match self {
            SessionType::Focus => "focus"@,
            SessionType::ShortBreak => "short_break"@,
            SessionType::LongBreak => "long_break"@,
        }
    }

    /// The stored name (`focus`, `short_break`, `long_break`).
    pub fn as_str(&self) -> (s: &'static str)
        ensures
            s@ == self.name(),
    {
        match self {
            SessionType::Focus => "focus",
            SessionType::ShortBreak => "short_break",
            SessionType::LongBreak => "long_break",
        }
    }

    /// Parses a stored name; the match is exact.
    pub fn parse(s: &str) -> (r: Result<SessionType, String>)
        ensures
            s@ == "focus"@ ==> r == Ok::<SessionType, String>(SessionType::Focus),
            s@ == "short_break"@ ==> r == Ok::<SessionType, String>(SessionType::ShortBreak),
            s@ == "long_break"@ ==> r == Ok::<SessionType, String>(SessionType::LongBreak),
            s@ != "focus"@ && s@ != "short_break"@ && s@ != "long_break"@ ==> (r matches Err(m)
                && m@ == "Invalid session type: "@ + s@),
    {
        proof {
            reveal_strlit("focus");
            reveal_strlit("short_break");
            reveal_strlit("long_break");
            assert("focus"@.len() == 5);
            assert("short_break"@.len() == 11);
            assert("long_break"@.len() == 10);
        }
        if crate::text::str_eq(s, "focus") {
            Ok(SessionType::Focus)
        } else if crate::text::str_eq(s, "short_break") {
            Ok(SessionType::ShortBreak)
        } else if crate::text::str_eq(s, "long_break") {
            Ok(SessionType::LongBreak)
        } else {
            Err(String::from_str("Invalid session type: ").concat(s))
        }
    }
}

/// A blocked application or website.
#[derive(Debug, Clone)]
pub struct BlockListItem {
    pub id: Option<i32>,
    pub item_type: BlockType,
    pub value: String,
    pub platform: Option<String>,
    pub enabled: bool,
    pub created_at: i64,
}

/// A focus or break session as stored.
#[derive(Debug, Clone)]
pub struct Session {
    pub id: String,
    pub session_type: SessionType,
    pub start_time: i64,
    pub end_time: Option<i64>,
    pub planned_duration: i32,
    pub actual_duration: Option<i32>,
    pub strict_mode: bool,
    pub completed: bool,
    pub notes: Option<String>,
    pub created_at: i64,
    pub within_work_hours: bool,
    pub cycle_number: Option<i32>,
    pub is_long_break: bool,
}

/// An attempt to open blocked content during a session.
#[derive(Debug, Clone)]
pub struct EvasionAttempt {
    pub id: Option<i32>,
    pub session_id: String,
    pub attempt_type: BlockType,
    pub blocked_item: String,
    pub timestamp: i64,
}

/// Per-day session statistics.
#[derive(Debug, Clone)]
pub struct SessionStats {
    pub date: String,
    pub focus_minutes: u32,
    pub breaks_completed: u32,
    pub sessions_completed: u32,
    pub evasion_attempts: u32,
}

/// Work schedule (times as `HH:MM`).
#[derive(Debug, Clone)]
pub struct WorkSchedule {
    pub id: i32,
    pub user_id: i32,
    pub use_work_schedule: bool,
    pub work_start_time: Option<String>,
    pub work_end_time: Option<String>,
    pub timezone: String,
    pub created_at: i64,
    pub updated_at: i64,
}

impl WorkSchedule {
    /// A disabled schedule in the local time zone, stamped with `now`.
    pub fn default_at(now: i64) -> (w: WorkSchedule)
        ensures
            w.id == 1,
            w.user_id == 1,
            !w.use_work_schedule,
            w.work_start_time is None,
            w.work_end_time is None,
            w.timezone@ == "local"@,
            w.created_at == now,
            w.updated_at == now,
    {
        WorkSchedule {
            id: 1,
            user_id: 1,
            use_work_schedule: false,
            work_start_time: None,
            work_end_time: None,
            timezone: String::from_str("local"),
            created_at: now,
            updated_at: now,
        }
    }
}

impl Default for WorkSchedule {
    fn default() -> (w: WorkSchedule)
        ensures
            w.id == 1,
            w.user_id == 1,
            !w.use_work_schedule,
            w.work_start_time is None,
            w.work_end_time is None,
            w.timezone@ == "local"@,
            w.created_at == w.updated_at,
    {
        WorkSchedule::default_at(unix_now())
    }
}

/// Page statistics of the database file.
#[derive(Debug, Clone, Copy)]
pub struct DatabaseStats {
    pub page_count: i64,
    pub page_size: i64,
    pub freelist_count: i64,
    pub total_size: i64,
    pub free_size: i64,
    pub user_version: i32,
}

impl DatabaseStats {
    /// The statistics of the given page counts: the sizes are the counts
    /// times the page size.
    pub open spec fn of_pages(page_count: i64, page_size: i64, freelist_count: i64, user_version: i32) -> DatabaseStats {
        DatabaseStats {
            page_count,
            page_size,
            freelist_count,
            total_size: (page_count * page_size) as i64,
            free_size: (freelist_count * page_size) as i64,
            user_version,
        }
    }

    /// Bytes in use: the total size minus the free size.
    pub open spec fn used_bytes(self) -> int {
        self.total_size - self.free_size
    }

    /// Statistics from the page counts that SQLite reports.
    pub fn from_pages(page_count: i64, page_size: i64, freelist_count: i64, user_version: i32) -> (s:
        DatabaseStats)
        requires
            i64::MIN <= page_count * page_size <= i64::MAX,
            i64::MIN <= freelist_count * page_size <= i64::MAX,
        ensures
            s == DatabaseStats::of_pages(page_count, page_size, freelist_count, user_version),
            s.page_count == page_count,
            s.page_size == page_size,
            s.freelist_count == freelist_count,
            s.total_size == page_count * page_size,
            s.free_size == freelist_count * page_size,
            s.user_version == user_version,
    {
        DatabaseStats {
            page_count,
            page_size,
            freelist_count,
            total_size: page_count * page_size,
            free_size: freelist_count * page_size,
            user_version,
        }
    }

    /// Bytes in use: the total size minus the free pages.
    pub fn used_size(&self) -> (u: i64)
        requires
            i64::MIN <= self.total_size - self.free_size <= i64::MAX,
        ensures
            u == self.used_bytes(),
    {
        self.total_size - self.free_size
    }
}

/// The bytes in use are the pages in use times the page size: for the
/// statistics of any page counts whose sizes fit in `i64`, the total size
/// minus the free size is the page count minus the free pages, times the
/// page size.
pub proof fn law_used_size_counts_used_pages(page_count: i64, page_size: i64, freelist_count: i64, user_version: i32)
    requires
        i64::MIN <= page_count * page_size <= i64::MAX,
        i64::MIN <= freelist_count * page_size <= i64::MAX,
    ensures
        DatabaseStats::of_pages(page_count, page_size, freelist_count, user_version).used_bytes() == (
        page_count - freelist_count) * page_size,
{
    assert((page_count - freelist_count) * page_size == page_count * page_size - freelist_count * page_size)
        by (nonlinear_arith);
}

} // verus!
