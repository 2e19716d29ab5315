//! Database schema versions: which migrations bring a database up to date,
//! the statements of each, and the checks of a migrated database.

use vstd::prelude::*;
use crate::text::decimal_int;

verus! {

/// The schema version this application expects.
pub const SCHEMA_VERSION: i32 = 5;

/// The statements of each migration.
pub open spec fn migration_sql(version: i32) -> Option<Seq<Seq<char>>> {
    if version == 1 {
        Some(seq![])
    } else if version == 2 {
        Some(
            seq![
                "CREATE TABLE work_schedule (id INTEGER PRIMARY KEY, user_id INTEGER NOT NULL DEFAULT 1, use_work_schedule BOOLEAN NOT NULL DEFAULT FALSE, work_start_time TEXT, work_end_time TEXT, timezone TEXT NOT NULL DEFAULT 'local', created_at DATETIME DEFAULT CURRENT_TIMESTAMP, updated_at DATETIME DEFAULT CURRENT_TIMESTAMP, FOREIGN KEY (user_id) REFERENCES user_settings (id))"@,
                "INSERT INTO work_schedule (id, user_id) VALUES (1, 1)"@,
                "INSERT INTO schema_version (version) VALUES (2)"@,
            ],
        )
    } else if version == 3 {
        Some(
            seq![
                "ALTER TABLE user_settings ADD COLUMN cycles_per_long_break_v2 INTEGER NOT NULL DEFAULT 4"@,
                "ALTER TABLE user_settings ADD COLUMN user_name TEXT"@,
                "ALTER TABLE user_settings ADD COLUMN emergency_key_combination TEXT"@,
                "INSERT INTO schema_version (version) VALUES (3)"@,
            ],
        )
    } else if version == 4 {
        Some(
            seq![
                "CREATE TABLE onboarding_completion (id INTEGER PRIMARY KEY, completed_at DATETIME DEFAULT CURRENT_TIMESTAMP, version TEXT NOT NULL DEFAULT '1.0', config_snapshot TEXT)"@,
                "INSERT INTO schema_version (version) VALUES (4)"@,
            ],
        )
    } else if version == 5 {
        Some(
            seq![
                "ALTER TABLE onboarding_completion ADD COLUMN user_email TEXT"@,
                "INSERT INTO schema_version (version) VALUES (5)"@,
            ],
        )
    } else if version == 6 {
        Some(
            seq![
                "CREATE TABLE notification_history (id INTEGER PRIMARY KEY, session_id TEXT, notification_type TEXT NOT NULL, title TEXT NOT NULL, message TEXT NOT NULL, sent_at DATETIME DEFAULT CURRENT_TIMESTAMP, FOREIGN KEY (session_id) REFERENCES sessions (id))"@,
                "CREATE INDEX idx_notification_history_sent_at ON notification_history (sent_at)"@,
                "CREATE INDEX idx_notification_history_session ON notification_history (session_id)"@,
                "INSERT INTO schema_version (version) VALUES (6)"@,
            ],
        )
    } else if version == 7 {
        Some(
            seq![
                "CREATE TABLE bypass_attempts (id INTEGER PRIMARY KEY, session_id TEXT NOT NULL, method TEXT NOT NULL, timestamp TEXT NOT NULL, created_at DATETIME DEFAULT CURRENT_TIMESTAMP)"@,
                "CREATE INDEX idx_bypass_attempts_session ON bypass_attempts (session_id)"@,
                "CREATE INDEX idx_bypass_attempts_created_at ON bypass_attempts (created_at)"@,
                "INSERT INTO schema_version (version) VALUES (7)"@,
            ],
        )
    } else if version == 8 {
        Some(
            seq![
                "ALTER TABLE sessions ADD COLUMN within_work_hours BOOLEAN DEFAULT TRUE"@,
                "ALTER TABLE sessions ADD COLUMN cycle_number INTEGER"@,
                "ALTER TABLE sessions ADD COLUMN is_long_break BOOLEAN DEFAULT FALSE"@,
                "CREATE INDEX idx_sessions_within_work_hours ON sessions (within_work_hours)"@,
                "INSERT INTO schema_version (version) VALUES (8)"@,
            ],
        )
    } else {
        None
    }
}

/// Strings of a list, as character sequences.
pub open spec fn str_views(v: Seq<&'static str>) -> Seq<Seq<char>> {
    v.map_values(|s: &'static str| s@)
}

/// The tables a valid database must have.
pub open spec fn required_tables() -> Seq<Seq<char>> {
    seq![
        "user_settings"@,
        "block_list"@,
        "sessions"@,
        "evasion_attempts"@,
        "insights"@,
        "work_schedule"@,
        "onboarding_completion"@,
        "notification_history"@,
        "bypass_attempts"@,
        "schema_version"@,
    ]
}

/// The rows of the integrity check other than `ok`.
pub open spec fn integrity_problems(rows: Seq<Seq<char>>) -> Seq<Seq<char>>
    decreases rows.len(),
{
    if rows.len() == 0 {
        seq![]
    } else if rows.last() == "ok"@ {
        integrity_problems(rows.drop_last())
    } else {
        integrity_problems(rows.drop_last()).push(rows.last())
    }
}

/// Strings of a list, as character sequences.
pub open spec fn string_views(v: Seq<String>) -> Seq<Seq<char>> {
    v.map_values(|s: String| s@)
}

/// The schema migrations of the application database.
pub struct MigrationManager;

impl MigrationManager {
    /// The migrations that bring a database at `current` up to
    /// `SCHEMA_VERSION`, in order; a database newer than the application is an
    /// error.
    pub fn migration_plan(current: i32) -> (r: Result<Vec<i32>, String>)
        ensures
            match r {
                Ok(v) => current <= SCHEMA_VERSION && v@.len() == (if current < SCHEMA_VERSION {
                    SCHEMA_VERSION - current
                } else {
                    0
                }) && forall|k: int| 0 <= k < v@.len() ==> #[trigger] v@[k] == current + 1 + k,
                Err(m) => current > SCHEMA_VERSION && m@ == "Database version "@ + decimal_int(
                    current as int,
                ) + " is newer than application version "@ + decimal_int(SCHEMA_VERSION as int),
            },
    {
        if current > SCHEMA_VERSION {
            let mut m = String::from_str("Database version ");
            let a = crate::text::i64_to_decimal(current as i64);
            m.append(a.as_str());
            m.append(" is newer than application version ");
            let b = crate::text::i64_to_decimal(SCHEMA_VERSION as i64);
            m.append(b.as_str());
            return Err(m);
        }
        let mut v: Vec<i32> = Vec::new();
        let mut next: i32 = current;
        while next < SCHEMA_VERSION
            invariant
                current <= next <= SCHEMA_VERSION,
                v@.len() == next - current,
                forall|k: int| 0 <= k < v@.len() ==> #[trigger] v@[k] == current + 1 + k,
            decreases SCHEMA_VERSION - next,
        {
            next = next + 1;
            v.push(next);
        }
        Ok(v)
    }

    /// The statements that migrate a database to `version` (none for the
    /// initial version, which the initial schema creates); an unknown version
    /// is an error.
    pub fn migration_statements(version: i32) -> (r: Result<Vec<&'static str>, String>)
        ensures
            match r {
                Ok(v) => migration_sql(version) == Some(str_views(v@)),
                Err(m) => migration_sql(version) is None && m@ == "Unknown migration version: "@
                    + decimal_int(version as int),
            },
    {
        let v: Vec<&'static str> = if version == 1 {
            vec![]
        } else if version == 2 {
            vec![
                "CREATE TABLE work_schedule (id INTEGER PRIMARY KEY, user_id INTEGER NOT NULL DEFAULT 1, use_work_schedule BOOLEAN NOT NULL DEFAULT FALSE, work_start_time TEXT, work_end_time TEXT, timezone TEXT NOT NULL DEFAULT 'local', created_at DATETIME DEFAULT CURRENT_TIMESTAMP, updated_at DATETIME DEFAULT CURRENT_TIMESTAMP, FOREIGN KEY (user_id) REFERENCES user_settings (id))",
                "INSERT INTO work_schedule (id, user_id) VALUES (1, 1)",
                "INSERT INTO schema_version (version) VALUES (2)",
            ]
        } else if version == 3 {
            vec![
                "ALTER TABLE user_settings ADD COLUMN cycles_per_long_break_v2 INTEGER NOT NULL DEFAULT 4",
                "ALTER TABLE user_settings ADD COLUMN user_name TEXT",
                "ALTER TABLE user_settings ADD COLUMN emergency_key_combination TEXT",
                "INSERT INTO schema_version (version) VALUES (3)",
            ]
        } else if version == 4 {
            vec![
                "CREATE TABLE onboarding_completion (id INTEGER PRIMARY KEY, completed_at DATETIME DEFAULT CURRENT_TIMESTAMP, version TEXT NOT NULL DEFAULT '1.0', config_snapshot TEXT)",
                "INSERT INTO schema_version (version) VALUES (4)",
            ]
        } else if version == 5 {
            vec![
                "ALTER TABLE onboarding_completion ADD COLUMN user_email TEXT",
                "INSERT INTO schema_version (version) VALUES (5)",
            ]
        } else if version == 6 {
            vec![
                "CREATE TABLE notification_history (id INTEGER PRIMARY KEY, session_id TEXT, notification_type TEXT NOT NULL, title TEXT NOT NULL, message TEXT NOT NULL, sent_at DATETIME DEFAULT CURRENT_TIMESTAMP, FOREIGN KEY (session_id) REFERENCES sessions (id))",
                "CREATE INDEX idx_notification_history_sent_at ON notification_history (sent_at)",
                "CREATE INDEX idx_notification_history_session ON notification_history (session_id)",
                "INSERT INTO schema_version (version) VALUES (6)",
            ]
        } else if version == 7 {
            vec![
                "CREATE TABLE bypass_attempts (id INTEGER PRIMARY KEY, session_id TEXT NOT NULL, method TEXT NOT NULL, timestamp TEXT NOT NULL, created_at DATETIME DEFAULT CURRENT_TIMESTAMP)",
                "CREATE INDEX idx_bypass_attempts_session ON bypass_attempts (session_id)",
                "CREATE INDEX idx_bypass_attempts_created_at ON bypass_attempts (created_at)",
                "INSERT INTO schema_version (version) VALUES (7)",
            ]
        } else if version == 8 {
            vec![
                "ALTER TABLE sessions ADD COLUMN within_work_hours BOOLEAN DEFAULT TRUE",
                "ALTER TABLE sessions ADD COLUMN cycle_number INTEGER",
                "ALTER TABLE sessions ADD COLUMN is_long_break BOOLEAN DEFAULT FALSE",
                "CREATE INDEX idx_sessions_within_work_hours ON sessions (within_work_hours)",
                "INSERT INTO schema_version (version) VALUES (8)",
            ]
        } else {
            let mut m = String::from_str("Unknown migration version: ");
            let d = crate::text::i64_to_decimal(version as i64);
            m.append(d.as_str());
            return Err(m);
        };
        assert(str_views(v@) =~= migration_sql(version)->0);
        Ok(v)
    }

    /// The tables a valid database must have, in the order they are checked.
    pub fn required_table_names() -> (v: Vec<&'static str>)
        ensures
            str_views(v@) == required_tables(),
    {
        let v = vec![
            "user_settings",
            "block_list",
            "sessions",
            "evasion_attempts",
            "insights",
            "work_schedule",
            "onboarding_completion",
            "notification_history",
            "bypass_attempts",
            "schema_version",
        ];
        assert(str_views(v@) =~= required_tables());
        v
    }

    /// The error for a missing table.
    pub fn missing_table_message(table: &str) -> (m: String)
        ensures
            m@ == "Required table '"@ + table@ + "' is missing"@,
    {
        let mut m = String::from_str("Required table '");
        m.append(table);
        m.append("' is missing");
        m
    }

    /// The verdict on the rows of `PRAGMA integrity_check`: it fails only when
    /// no row says `ok` and some row reports a problem, with the problems
    /// joined by `, `.
    pub fn integrity_verdict(rows: &Vec<String>) -> (r: Result<(), String>)
        ensures
            match r {
                Ok(()) => string_views(rows@).contains("ok"@) || integrity_problems(string_views(rows@)).len() == 0,
                Err(m) => !string_views(rows@).contains("ok"@) && integrity_problems(string_views(rows@)).len() > 0
                    && m@ == "Database integrity check failed: "@ + crate::onboarding::flow::joined(
                    integrity_problems(string_views(rows@)),
                    ", "@,
                ),
            },
    {
        let mut ok = false;
        let mut problems: Vec<String> = Vec::new();
        let mut i: usize = 0;
        while i < rows.len()
            invariant
                i <= rows.len(),
                ok == string_views(rows@.subrange(0, i as int)).contains("ok"@),
                string_views(problems@) == integrity_problems(string_views(rows@.subrange(0, i as int))),
            decreases rows.len() - i,
        {
            let ghost prev = string_views(rows@.subrange(0, i as int));
            let ghost next = string_views(rows@.subrange(0, i + 1));
            assert(next.drop_last() =~= prev);
            assert(next.last() == rows@[i as int]@);
            if crate::text::str_eq(rows[i].as_str(), "ok") {
                ok = true;
                assert(next.contains("ok"@)) by {
                    assert(next[i as int] == "ok"@);
                }
            } else {
                problems.push(rows[i].clone());
                assert(string_views(problems@) =~= integrity_problems(next));
                assert(ok == next.contains("ok"@)) by {
                    if next.contains("ok"@) {
                        let k = choose|k: int| 0 <= k < next.len() && next[k] == "ok"@;
                        if k < i {
                            assert(prev[k] == next[k]);
                        }
                    }
                    if prev.contains("ok"@) {
                        let k = choose|k: int| 0 <= k < prev.len() && prev[k] == "ok"@;
                        assert(next[k] == prev[k]);
                    }
                }
            }
            if ok {
                assert(ok == next.contains("ok"@)) by {
                    if prev.contains("ok"@) {
                        let k = choose|k: int| 0 <= k < prev.len() && prev[k] == "ok"@;
                        assert(next[k] == prev[k]);
                    }
                }
            }
            i = i + 1;
        }
        assert(rows@.subrange(0, rows.len() as int) =~= rows@);
        if !ok && problems.len() > 0 {
            let mut m = String::from_str("Database integrity check failed: ");
            let mut j: usize = 0;
            let mut joined_text = String::new();
            while j < problems.len()
                invariant
                    j <= problems.len(),
                    joined_text@ == crate::onboarding::flow::joined(
                        string_views(problems@.subrange(0, j as int)),
                        ", "@,
                    ),
                decreases problems.len() - j,
            {
                let ghost prev = string_views(problems@.subrange(0, j as int));
                if j > 0 {
                    joined_text.append(", ");
                }
                joined_text.append(problems[j].as_str());
                let ghost next = string_views(problems@.subrange(0, j + 1));
                assert(next.drop_last() =~= prev);
                j = j + 1;
            }
            assert(problems@.subrange(0, problems.len() as int) =~= problems@);
            m.append(joined_text.as_str());
            return Err(m);
        }
        Ok(())
    }
}

} // verus!
