//! Configuration backups: their kinds and identifiers, what a backup
//! holds, which backups are kept, and the errors of the backup store.
//! Times are nanoseconds since the Unix epoch.

use vstd::prelude::*;
use crate::onboarding::json::JsonValue;
use crate::text::{decimal, decimal_int, i64_to_decimal};
use crate::clock::{second_of, wall_nanos_ok, whole_seconds};

verus! {

/// Why a backup operation failed.
#[derive(Debug, Clone)]
pub enum BackupError {
    Io(String),
    Serialization(String),
    Database(String),
    BackupNotFound { path: String },
    InvalidFormat { reason: String },
}

impl BackupError {
    /// The display text of the error.
    pub open spec fn message_spec(self) -> Seq<char> {
        match self {
            BackupError::Io(e) => "IO error: "@ + e@,
            BackupError::Serialization(e) => "Serialization error: "@ + e@,
            BackupError::Database(e) => "Database error: "@ + e@,
            BackupError::BackupNotFound { path } => "Backup not found: "@ + path@,
            BackupError::InvalidFormat { reason } => "Invalid backup format: "@ + reason@,
        }
    }

    /// The display text of the error.
    pub fn to_message(&self) -> (m: String)
        ensures
            m@ == self.message_spec(),
    {
        let (prefix, detail) = match self {
            BackupError::Io(e) => ("IO error: ", e),
            BackupError::Serialization(e) => ("Serialization error: ", e),
            BackupError::Database(e) => ("Database error: ", e),
            BackupError::BackupNotFound { path } => ("Backup not found: ", path),
            BackupError::InvalidFormat { reason } => ("Invalid backup format: ", reason),
        };
        let mut m = String::from_str(prefix);
        m.append(detail.as_str());
        m
    }
}

/// The kinds of backup.
#[derive(Debug, Clone, Copy, PartialEq, Eq, Structural)]
pub enum BackupType {
    PreOnboarding,
    PostOnboarding,
    Manual,
    PreUpdate,
}

impl BackupType {
    /// The tag that ends a backup's identifier.
    pub open spec fn tag_spec(self) -> Seq<char> {
        match self {
            BackupType::PreOnboarding => "pre_onboarding"@,
            BackupType::PostOnboarding => "post_onboarding"@,
            BackupType::Manual => "manual"@,
            BackupType::PreUpdate => "pre_update"@,
        }
    }

    /// The tag that ends a backup's identifier.
    pub fn tag(&self) -> (s: &'static str)
        ensures
            s@ == self.tag_spec(),
    {
        match self {
            BackupType::PreOnboarding => "pre_onboarding",
            BackupType::PostOnboarding => "post_onboarding",
            BackupType::Manual => "manual",
            BackupType::PreUpdate => "pre_update",
        }
    }

    /// The kind a user may ask for by name: `manual` or `pre_update`.
    pub fn from_request(name: &str) -> (r: Result<BackupType, String>)
        ensures
            name@ == "manual"@ ==> r == Ok::<BackupType, String>(BackupType::Manual),
            name@ != "manual"@ && name@ == "pre_update"@ ==> r == Ok::<BackupType, String>(
                BackupType::PreUpdate,
            ),
            name@ != "manual"@ && name@ != "pre_update"@ ==> (r matches Err(m) && m@
                == "Invalid backup type. Use 'manual' or 'pre_update'"@),
    {
        if crate::text::str_eq(name, "manual") {
            Ok(BackupType::Manual)
        } else if crate::text::str_eq(name, "pre_update") {
            Ok(BackupType::PreUpdate)
        } else {
            Err(String::from_str("Invalid backup type. Use 'manual' or 'pre_update'"))
        }
    }
}

/// What chrono writes for the UTC time `secs` with the format
/// `%Y%m%d_%H%M%S`.
pub uninterp spec fn chrono_compact_stamp(secs: i64) -> Seq<char>;

/// The UTC time `secs` formatted by chrono as `%Y%m%d_%H%M%S`
/// (`DateTime::<Utc>::from_timestamp(secs, 0)` then `format`); the text is
/// named `chrono_compact_stamp`.
#[verifier::external_body]
pub(crate) fn compact_stamp(secs: i64) -> (s: String)
    requires
        -0x4_0000_0000_0000 <= secs <= 0x4_0000_0000_0000,
    ensures
        s@ == chrono_compact_stamp(secs),
{
    chrono::DateTime::<chrono::Utc>::from_timestamp(secs, 0).unwrap_or_default().format(
        "%Y%m%d_%H%M%S",
    ).to_string()
}

/// The identifier of a backup of the given kind made at time `secs`: its
/// stamp, an underscore, and its tag.
pub fn backup_id(secs: i64, backup_type: BackupType) -> (id: String)
    requires
        -0x4_0000_0000_0000 <= secs <= 0x4_0000_0000_0000,
    ensures
        id@ == chrono_compact_stamp(secs) + "_"@ + backup_type.tag_spec(),
{
    let mut id = compact_stamp(secs);
    id.append("_");
    id.append(backup_type.tag());
    id
}

/// The file a backup is stored in, relative to the backup directory.
pub fn backup_file_name(backup_id: &str) -> (f: String)
    ensures
        f@ == backup_id@ + ".json"@,
{
    let mut f = String::from_str(backup_id);
    f.append(".json");
    f
}

/// What describes a backup.  It was created `created_at` nanoseconds after
/// the Unix epoch.
#[derive(Debug, Clone)]
pub struct BackupMetadata {
    pub created_at: i128,
    pub version: String,
    pub backup_type: BackupType,
    pub description: Option<String>,
    pub file_size: u64,
}

/// A complete configuration backup.
#[derive(Debug)]
pub struct ConfigurationBackup {
    pub metadata: BackupMetadata,
    pub onboarding_config: Option<JsonValue>,
    pub user_settings: Option<JsonValue>,
    pub work_schedule: Option<JsonValue>,
    pub database_version: Option<String>,
}

/// The backup made of what the store gave: the user settings, the work
/// schedule and the onboarding configuration (each possibly absent), and
/// the database's user version.  The first part that could not be read
/// fails the backup with a database error naming it.
pub fn assemble_backup(
    backup_type: BackupType,
    description: Option<String>,
    created_at: i128,
    version: String,
    user_settings: Result<Option<JsonValue>, String>,
    work_schedule: Result<Option<JsonValue>, String>,
    onboarding_config: Result<Option<JsonValue>, String>,
    user_version: Result<i32, String>,
) -> (r: Result<ConfigurationBackup, BackupError>)
    ensures
        match r {
            Ok(b) => {
                &&& user_settings == Ok::<Option<JsonValue>, String>(b.user_settings)
                &&& work_schedule == Ok::<Option<JsonValue>, String>(b.work_schedule)
                &&& onboarding_config == Ok::<Option<JsonValue>, String>(b.onboarding_config)
                &&& user_version matches Ok(v) && b.database_version matches Some(d) && d@
                    == decimal_int(v as int)
                &&& b.metadata.created_at == created_at
                &&& b.metadata.version == version
                &&& b.metadata.backup_type == backup_type
                &&& b.metadata.description == description
                &&& b.metadata.file_size == 0
            },
            Err(e) => e matches BackupError::Database(m) && match user_settings {
                Err(x) => m@ == "Failed to get user settings: "@ + x@,
                Ok(_) => match work_schedule {
                    Err(x) => m@ == "Failed to get work schedule: "@ + x@,
                    Ok(_) => match onboarding_config {
                        Err(x) => m@ == "Failed to get onboarding completion: "@ + x@,
                        Ok(_) => user_version matches Err(x) && m@ == "Failed to get database stats: "@ + x@,
                    },
                },
            },
        },
{
    let s = match user_settings {
        Ok(s) => s,
        Err(x) => {
            let mut m = String::from_str("Failed to get user settings: ");
            m.append(x.as_str());
            return Err(BackupError::Database(m));
        },
    };
    let w = match work_schedule {
        Ok(w) => w,
        Err(x) => {
            let mut m = String::from_str("Failed to get work schedule: ");
            m.append(x.as_str());
            return Err(BackupError::Database(m));
        },
    };
    let o = match onboarding_config {
        Ok(o) => o,
        Err(x) => {
            let mut m = String::from_str("Failed to get onboarding completion: ");
            m.append(x.as_str());
            return Err(BackupError::Database(m));
        },
    };
    let v = match user_version {
        Ok(v) => v,
        Err(x) => {
            let mut m = String::from_str("Failed to get database stats: ");
            m.append(x.as_str());
            return Err(BackupError::Database(m));
        },
    };
    let d = i64_to_decimal(v as i64);
    Ok(
        ConfigurationBackup {
            metadata: BackupMetadata {
                created_at,
                version,
                backup_type,
                description,
                file_size: 0,
            },
            onboarding_config: o,
            user_settings: s,
            work_schedule: w,
            database_version: Some(d),
        },
    )
}

/// The description given to the automatic backups around onboarding.
pub fn automatic_description(backup_type: BackupType) -> (d: Option<String>)
    ensures
        backup_type == BackupType::PreOnboarding ==> (d matches Some(s) && s@
            == "Automatic backup before onboarding completion"@),
        backup_type == BackupType::PostOnboarding ==> (d matches Some(s) && s@
            == "Automatic backup after onboarding completion"@),
        backup_type != BackupType::PreOnboarding && backup_type != BackupType::PostOnboarding ==> d is None,
{
    match backup_type {
        BackupType::PreOnboarding => Some(String::from_str("Automatic backup before onboarding completion")),
        BackupType::PostOnboarding => Some(String::from_str("Automatic backup after onboarding completion")),
        _ => None,
    }
}

/// `x` placed in a list that is newest first, after every entry that is
/// not older than it.
pub open spec fn insert_newest_first(sorted: Seq<(String, i128)>, x: (String, i128)) -> Seq<(String, i128)>
    decreases sorted.len(),
{
    if sorted.len() == 0 {
        seq![x]
    } else if sorted.last().1 >= x.1 {
        sorted.push(x)
    } else {
        insert_newest_first(sorted.drop_last(), x).push(sorted.last())
    }
}

/// The entries ordered newest first; entries made at the same time keep
/// their order (a stable sort by creation time, latest first).
pub open spec fn newest_first(s: Seq<(String, i128)>) -> Seq<(String, i128)>
    decreases s.len(),
{
    if s.len() == 0 {
        seq![]
    } else {
        insert_newest_first(newest_first(s.drop_last()), s.last())
    }
}

/// The entries are ordered newest first.
pub open spec fn is_newest_first(s: Seq<(String, i128)>) -> bool {
    forall|i: int, j: int| 0 <= i < j < s.len() ==> s[i].1 >= s[j].1
}

proof fn lemma_insert_at(sorted: Seq<(String, i128)>, x: (String, i128), j: int)
    requires
        0 <= j <= sorted.len(),
        forall|k: int| j <= k < sorted.len() ==> sorted[k].1 < x.1,
        j == 0 || sorted[j - 1].1 >= x.1,
    ensures
        insert_newest_first(sorted, x) == sorted.insert(j, x),
    decreases sorted.len() - j,
{
    if sorted.len() == 0 {
        assert(sorted.insert(j, x) =~= seq![x]);
    } else if j == sorted.len() {
        assert(sorted.insert(j, x) =~= sorted.push(x));
    } else {
        lemma_insert_at(sorted.drop_last(), x, j);
        assert(sorted.drop_last().insert(j, x).push(sorted.last()) =~= sorted.insert(j, x));
    }
}

proof fn lemma_insert_sorted(sorted: Seq<(String, i128)>, x: (String, i128))
    requires
        is_newest_first(sorted),
    ensures
        is_newest_first(insert_newest_first(sorted, x)),
        insert_newest_first(sorted, x).to_multiset() == sorted.to_multiset().insert(x),
        insert_newest_first(sorted, x).len() == sorted.len() + 1,
    decreases sorted.len(),
{
    broadcast use vstd::seq_lib::group_to_multiset_ensures;
    if sorted.len() == 0 {
        assert(seq![x] =~= Seq::<(String, i128)>::empty().push(x));
    } else if sorted.last().1 >= x.1 {
    } else {
        let rest = sorted.drop_last();
        assert(is_newest_first(rest));
        lemma_insert_sorted(rest, x);
        let r = insert_newest_first(rest, x);
        assert(r.contains(x)) by {
            assert(r.to_multiset().count(x) > 0);
        }
        assert forall|k: int| 0 <= k < r.len() implies r[k].1 >= sorted.last().1 by {
            assert(r.to_multiset().count(r[k]) > 0);
            assert(rest.to_multiset().insert(x).count(r[k]) > 0);
            if r[k] != x {
                assert(rest.to_multiset().count(r[k]) > 0);
                assert(rest.contains(r[k]));
                let m = choose|m: int| 0 <= m < rest.len() && rest[m] == r[k];
                assert(sorted[m] == rest[m]);
            }
        }
        assert(sorted =~= rest.push(sorted.last()));
    }
}

/// Ordering newest first keeps every entry and orders them newest first.
pub proof fn law_newest_first_sorts(s: Seq<(String, i128)>)
    ensures
        is_newest_first(newest_first(s)),
        newest_first(s).to_multiset() == s.to_multiset(),
        newest_first(s).len() == s.len(),
    decreases s.len(),
{
    broadcast use vstd::seq_lib::group_to_multiset_ensures;
    if s.len() > 0 {
        law_newest_first_sorts(s.drop_last());
        lemma_insert_sorted(newest_first(s.drop_last()), s.last());
        assert(s =~= s.drop_last().push(s.last()));
    }
}



/// Where backups are kept, and what is decided about them: the identifier
/// and contents of a new backup, the order in which they are listed, and
/// which are removed when old ones are cleaned up.  Reading and writing the
/// files is left to the caller.
pub struct BackupManager {
    pub backup_dir: String,
}

impl BackupManager {
    /// A manager of the backups kept in `backup_dir`.
    pub fn new(backup_dir: String) -> (m: BackupManager)
        ensures
            m.backup_dir == backup_dir,
    {
        BackupManager { backup_dir }
    }

    /// The identifier and the contents of a backup made at time `now`
    /// (nanoseconds since the Unix epoch; the identifier names its second)
    /// from what the store gave (see `assemble_backup`).
    pub fn create_backup(
        &self,
        backup_type: BackupType,
        description: Option<String>,
        now: i128,
        version: String,
        user_settings: Result<Option<JsonValue>, String>,
        work_schedule: Result<Option<JsonValue>, String>,
        onboarding_config: Result<Option<JsonValue>, String>,
        user_version: Result<i32, String>,
    ) -> (r: Result<(String, ConfigurationBackup), BackupError>)
        requires
            wall_nanos_ok(now),
        ensures
            match r {
                Ok((id, b)) => {
                    &&& id@ == chrono_compact_stamp(second_of(now) as i64) + "_"@ + backup_type.tag_spec()
                    &&& user_settings == Ok::<Option<JsonValue>, String>(b.user_settings)
                    &&& work_schedule == Ok::<Option<JsonValue>, String>(b.work_schedule)
                    &&& onboarding_config == Ok::<Option<JsonValue>, String>(b.onboarding_config)
                    &&& user_version matches Ok(v) && b.database_version matches Some(d) && d@
                        == decimal_int(v as int)
                    &&& b.metadata.created_at == now
                    &&& b.metadata.version == version
                    &&& b.metadata.backup_type == backup_type
                    &&& b.metadata.description == description
                    &&& b.metadata.file_size == 0
                },
                Err(e) => e matches BackupError::Database(m) && match user_settings {
                    Err(x) => m@ == "Failed to get user settings: "@ + x@,
                    Ok(_) => match work_schedule {
                        Err(x) => m@ == "Failed to get work schedule: "@ + x@,
                        Ok(_) => match onboarding_config {
                            Err(x) => m@ == "Failed to get onboarding completion: "@ + x@,
                            Ok(_) => user_version matches Err(x) && m@ == "Failed to get database stats: "@ + x@,
                        },
                    },
                },
            },
    {
        let id = backup_id(whole_seconds(now), backup_type);
        match assemble_backup(
            backup_type,
            description,
            now,
            version,
            user_settings,
            work_schedule,
            onboarding_config,
            user_version,
        ) {
            Ok(b) => Ok((id, b)),
            Err(e) => Err(e),
        }
    }

    /// The backups found, identifier and creation time (in nanoseconds)
    /// each, newest first; backups made at the same time keep the order in
    /// which they were found.
    pub fn list_backups(&self, found: Vec<(String, i128)>) -> (r: Vec<(String, i128)>)
        ensures
            r@ == newest_first(found@),
            is_newest_first(r@),
            r@.to_multiset() == found@.to_multiset(),
    {
        let mut r: Vec<(String, i128)> = Vec::new();
        let mut i: usize = 0;
        while i < found.len()
            invariant
                i <= found.len(),
                r@ == newest_first(found@.subrange(0, i as int)),
                is_newest_first(r@),
            decreases found.len() - i,
        {
            let x = (found[i].0.clone(), found[i].1);
            let ghost before = r@;
            let mut j: usize = r.len();
            while j > 0 && r[j - 1].1 < x.1
                invariant
                    j <= r.len(),
                    r@ == before,
                    forall|k: int| j <= k < r.len() ==> r@[k].1 < x.1,
                decreases j,
            {
                j = j - 1;
            }
            proof {
                lemma_insert_at(before, x, j as int);
                lemma_insert_sorted(before, x);
                let p = found@.subrange(0, i + 1);
                assert(p.drop_last() =~= found@.subrange(0, i as int));
                assert(p.last() == x);
            }
            r.insert(j, x);
            i = i + 1;
        }
        assert(found@.subrange(0, found.len() as int) =~= found@);
        proof {
            law_newest_first_sorts(found@);
        }
        r
    }

    /// The identifiers of the backups to remove so that the `keep_count`
    /// newest of those found remain.
    pub fn cleanup_old_backups(&self, found: Vec<(String, i128)>, keep_count: usize) -> (ids: Vec<String>)
        ensures
            ids@ == (if newest_first(found@).len() > keep_count {
                newest_first(found@).skip(keep_count as int).map_values(|e: (String, i128)| e.0)
            } else {
                Seq::<String>::empty()
            }),
    {
        let sorted = self.list_backups(found);
        let mut ids: Vec<String> = Vec::new();
        if sorted.len() > keep_count {
            let mut i: usize = keep_count;
            while i < sorted.len()
                invariant
                    keep_count <= i <= sorted.len(),
                    ids@ == sorted@.subrange(keep_count as int, i as int).map_values(|e: (String, i128)| e.0),
                decreases sorted.len() - i,
            {
                ids.push(sorted[i].0.clone());
                i = i + 1;
                assert(ids@ =~= sorted@.subrange(keep_count as int, i as int).map_values(
                    |e: (String, i128)| e.0,
                ));
            }
            assert(sorted@.subrange(keep_count as int, sorted.len() as int) =~= sorted@.skip(keep_count as int));
        } else {
            assert(ids@ =~= Seq::<String>::empty());
        }
        ids
    }
}

} // verus!
