//! Product analytics: the events recorded, their queue, and the batches
//! sent to PostHog.

use vstd::prelude::*;
use crate::onboarding::json::{member, JsonValue};

verus! {

/// An event waiting to be sent.
#[derive(Debug)]
pub struct TelemetryEvent {
    pub event: String,
    pub distinct_id: String,
    pub properties: JsonValue,
    pub timestamp: Option<String>,
}

/// An error reported by the frontend.
#[derive(Debug)]
pub struct ErrorEvent {
    pub error_type: String,
    pub message: String,
    pub context: Option<String>,
    pub stack: Option<String>,
    pub user_action: Option<String>,
    pub recoverable: bool,
}

/// A sign-in step reported by the frontend.
#[derive(Debug)]
pub struct LoginEvent {
    pub event: String,
    pub provider: String,
    pub error: Option<String>,
}

/// The current time in RFC 3339 (`chrono::Utc::now().to_rfc3339()`).
/// Which time it is stays unsaid.
#[verifier::external_body]
fn rfc3339_now() -> (s: String) {
    chrono::Utc::now().to_rfc3339()
}

/// The queue of events and what identifies the sender.
#[derive(Debug)]
pub struct TelemetryService {
    api_key: Option<String>,
    enabled: bool,
    queue: Vec<TelemetryEvent>,
    user_id: Option<String>,
    lib_version: String,
}

/// Optional text as JSON: the string, or `null`.
pub open spec fn text_or_null(o: Option<String>, v: JsonValue) -> bool {
    match o {
        Some(s) => v matches JsonValue::String(t) && t@ == s@,
        None => v is Null,
    }
}

fn json_text(o: Option<String>) -> (v: JsonValue)
    ensures
        text_or_null(o, v),
{
    match o {
        Some(s) => JsonValue::String(s),
        None => JsonValue::Null,
    }
}

/// The member `key` of an object (entries) is the string `s`.
pub open spec fn has_text(entries: Seq<(String, JsonValue)>, key: Seq<char>, s: Seq<char>) -> bool {
    member(entries, key) matches Some(JsonValue::String(t)) && t@ == s
}

/// Sets member `key` of an object to `value`, replacing the member of that
/// name if there is one.
pub fn object_insert(entries: &mut Vec<(String, JsonValue)>, key: String, value: JsonValue)
    ensures
        member(final(entries)@, key@) == Some(value),
        forall|k: Seq<char>| k != key@ ==> #[trigger] member(final(entries)@, k) == member(old(entries)@, k),
{
    let mut i: usize = 0;
    while i < entries.len() && !crate::text::str_eq(entries[i].0.as_str(), key.as_str())
        invariant
            i <= entries.len(),
            entries@ == old(entries)@,
            forall|j: int| 0 <= j < i ==> #[trigger] entries@[j].0@ != key@,
        decreases entries.len() - i,
    {
        i = i + 1;
    }
    let ghost before = entries@;
    let ghost k = key@;
    if i < entries.len() {
        proof {
            lemma_member_update(before, i as int, (key, value));
        }
        entries.set(i, (key, value));
    } else {
        proof {
            lemma_member_push(before, (key, value));
        }
        entries.push((key, value));
    }
}

proof fn lemma_member_update(e: Seq<(String, JsonValue)>, i: int, kv: (String, JsonValue))
    requires
        0 <= i < e.len(),
        e[i].0@ == kv.0@,
        forall|j: int| 0 <= j < i ==> #[trigger] e[j].0@ != kv.0@,
    ensures
        member(e.update(i, kv), kv.0@) == Some(kv.1),
        forall|k: Seq<char>| k != kv.0@ ==> #[trigger] member(e.update(i, kv), k) == member(e, k),
    decreases i,
{
    let e2 = e.update(i, kv);
    if i > 0 {
        lemma_member_update(e.drop_first(), i - 1, kv);
        assert(e2.drop_first() =~= e.drop_first().update(i - 1, kv));
        assert(e2[0] == e[0]);
        assert forall|k: Seq<char>| k != kv.0@ implies #[trigger] member(e2, k) == member(e, k) by {
            assert(e2[0] == e[0]);
            assert(member(e.drop_first().update(i - 1, kv), k) == member(e.drop_first(), k));
        }
    } else {
        assert(e2.drop_first() =~= e.drop_first());
        assert forall|k: Seq<char>| k != kv.0@ implies #[trigger] member(e2, k) == member(e, k) by {
            assert(e2[0] == kv);
        }
    }
}

proof fn lemma_member_push(e: Seq<(String, JsonValue)>, kv: (String, JsonValue))
    requires
        forall|j: int| 0 <= j < e.len() ==> #[trigger] e[j].0@ != kv.0@,
    ensures
        member(e.push(kv), kv.0@) == Some(kv.1),
        forall|k: Seq<char>| k != kv.0@ ==> #[trigger] member(e.push(kv), k) == member(e, k),
    decreases e.len(),
{
    let e2 = e.push(kv);
    if e.len() > 0 {
        lemma_member_push(e.drop_first(), kv);
        assert(e2.drop_first() =~= e.drop_first().push(kv));
        assert(e2[0] == e[0]);
        assert forall|k: Seq<char>| k != kv.0@ implies #[trigger] member(e2, k) == member(e, k) by {
            assert(e2[0] == e[0]);
            assert(member(e.drop_first().push(kv), k) == member(e.drop_first(), k));
        }
    } else {
        assert(e2.drop_first() =~= e);
        assert(e2[0] == kv);
        assert forall|k: Seq<char>| k != kv.0@ implies #[trigger] member(e2, k) == member(e, k) by {
            assert(e2[0] == kv);
        }
    }
}

/// The member named `key` is the first entry of that name.
proof fn lemma_member_at(e: Seq<(String, JsonValue)>, i: int, key: Seq<char>)
    requires
        0 <= i < e.len(),
        e[i].0@ == key,
        forall|j: int| 0 <= j < i ==> #[trigger] e[j].0@ != key,
    ensures
        member(e, key) == Some(e[i].1),
    decreases i,
{
    if i > 0 {
        lemma_member_at(e.drop_first(), i - 1, key);
    }
}

/// No entry is named `key`: the object has no such member.
proof fn lemma_member_absent(e: Seq<(String, JsonValue)>, key: Seq<char>)
    requires
        forall|j: int| 0 <= j < e.len() ==> #[trigger] e[j].0@ != key,
    ensures
        member(e, key) is None,
    decreases e.len(),
{
    if e.len() > 0 {
        assert(e[0].0@ != key);
        assert forall|j: int| 0 <= j < e.drop_first().len() implies #[trigger] e.drop_first()[j].0@ != key by {
            assert(e.drop_first()[j] == e[j + 1]);
        }
        lemma_member_absent(e.drop_first(), key);
    }
}

/// The value the last entry named `key` carries, if one is.
pub open spec fn last_entry(entries: Seq<(String, JsonValue)>, key: Seq<char>) -> Option<JsonValue>
    decreases entries.len(),
{
    if entries.len() == 0 {
        None
    } else if entries.last().0@ == key {
        Some(entries.last().1)
    } else {
        last_entry(entries.drop_last(), key)
    }
}

/// The members of `tags` when it is an object; none otherwise.
pub open spec fn tag_entries(tags: Option<JsonValue>) -> Seq<(String, JsonValue)> {
    match tags {
        Some(JsonValue::Object(t)) => t@,
        _ => Seq::empty(),
    }
}

/// An object `base` after each of `entries` is set in it in turn: a member
/// is the last entry of its name, else what `base` had.
pub open spec fn overlaid(base: Seq<(String, JsonValue)>, entries: Seq<(String, JsonValue)>, key: Seq<char>) -> Option<JsonValue> {
    match last_entry(entries, key) {
        Some(v) => Some(v),
        None => member(base, key),
    }
}

/// The properties of a metric: its `value`, the library's name and
/// `version`, and the tags, a tag replacing a property of its name; no
/// other member.
pub open spec fn metric_properties(p: Seq<(String, JsonValue)>, value: JsonValue, version: Seq<char>, tags: Seq<(String, JsonValue)>) -> bool {
    &&& forall|k: Seq<char>| last_entry(tags, k) is Some ==> #[trigger] member(p, k) == last_entry(tags, k)
    &&& last_entry(tags, "value"@) is None ==> member(p, "value"@) == Some(value)
    &&& last_entry(tags, "$lib"@) is None ==> has_text(p, "$lib"@, "pausa-app"@)
    &&& last_entry(tags, "$lib_version"@) is None ==> has_text(p, "$lib_version"@, version)
    &&& forall|k: Seq<char>|
        k != "value"@ && k != "$lib"@ && k != "$lib_version"@ && last_entry(tags, k) is None ==> #[trigger] member(p, k) is None
}

impl TelemetryService {
    /// The key events are sent with.
    pub closed spec fn key(&self) -> Option<String> {
        self.api_key
    }

    /// Whether the service is enabled.
    pub closed spec fn is_on(&self) -> bool {
        self.enabled
    }

    /// The events waiting to be sent, oldest first.
    pub closed spec fn queued(&self) -> Seq<TelemetryEvent> {
        self.queue@
    }

    /// The user events are attributed to.
    pub closed spec fn user(&self) -> Option<String> {
        self.user_id
    }

    /// The version the service reports.
    pub closed spec fn version(&self) -> String {
        self.lib_version
    }

    /// A service sending with `api_key` (enabled exactly when there is
    /// one), naming itself with `lib_version`, with an empty queue and no
    /// user.
    pub fn new(api_key: Option<String>, lib_version: String) -> (t: Self)
        ensures
            t.key() == api_key,
            t.is_on() == api_key is Some,
            t.queued().len() == 0,
            t.user() is None,
            t.version() == lib_version,
    {
        let enabled = api_key.is_some();
        TelemetryService { api_key, enabled, queue: Vec::new(), user_id: None, lib_version }
    }

    /// Whether the service is enabled.
    pub fn is_enabled(&self) -> (b: bool)
        ensures
            b == self.is_on(),
    {
        self.enabled
    }

    /// Sets the user the events are attributed to.
    pub fn set_user_id(&mut self, user_id: Option<String>)
        ensures
            final(self).user() == user_id,
            final(self).key() == old(self).key(),
            final(self).is_on() == old(self).is_on(),
            final(self).queued() == old(self).queued(),
            final(self).version() == old(self).version(),
    {
        self.user_id = user_id;
    }

    /// Whether events are recorded: the service is on and has a key.
    pub open spec fn records(&self) -> bool {
        self.is_on() && self.key() is Some
    }

    /// Who the events are attributed to: the user, else `anonymous`.
    pub open spec fn attributed_to(&self, id: Seq<char>) -> bool {
        match self.user() {
            Some(u) => id == u@,
            None => id == "anonymous"@,
        }
    }

    fn distinct_id(&self) -> (s: String)
        ensures
            self.attributed_to(s@),
    {
        match &self.user_id {
            Some(u) => u.clone(),
            None => String::from_str("anonymous"),
        }
    }

    fn lib_entries(&self) -> (e: Vec<(String, JsonValue)>)
        ensures
            e@.len() == 2,
            e@[0].0@ == "$lib"@ && (e@[0].1 matches JsonValue::String(s) && s@ == "pausa-app"@),
            e@[1].0@ == "$lib_version"@ && (e@[1].1 matches JsonValue::String(s) && s@ == self.version()@),
    {
        let mut e: Vec<(String, JsonValue)> = Vec::new();
        e.push((String::from_str("$lib"), JsonValue::String(String::from_str("pausa-app"))));
        e.push((String::from_str("$lib_version"), JsonValue::String(self.lib_version.clone())));
        e
    }

    /// Queues an event and says whether the queue is now due to be sent
    /// (ten events or more).
    fn queue_event(&mut self, event: TelemetryEvent) -> (flush: bool)
        ensures
            final(self).queued() == old(self).queued().push(event),
            final(self).key() == old(self).key(),
            final(self).is_on() == old(self).is_on(),
            final(self).user() == old(self).user(),
            final(self).version() == old(self).version(),
            flush == (final(self).queued().len() >= 10),
    {
        self.queue.push(event);
        self.queue.len() >= 10
    }

    /// Records an error (`app_error`) with its fields; says whether the
    /// queue is due to be sent.  Nothing is recorded when the service does
    /// not record.
    pub fn log_error(&mut self, error: ErrorEvent) -> (flush: bool)
        ensures
            final(self).key() == old(self).key(),
            final(self).user() == old(self).user(),
            !old(self).records() ==> final(self).queued() == old(self).queued() && !flush,
            old(self).records() ==> final(self).queued().len() == old(self).queued().len() + 1 && {
                let e = final(self).queued().last();
                &&& final(self).queued().drop_last() == old(self).queued()
                &&& e.event@ == "app_error"@
                &&& old(self).attributed_to(e.distinct_id@)
                &&& e.timestamp is Some
                &&& e.properties matches JsonValue::Object(p) && {
                    &&& has_text(p@, "error_type"@, error.error_type@)
                    &&& has_text(p@, "message"@, error.message@)
                    &&& member(p@, "context"@) matches Some(v) && text_or_null(error.context, v)
                    &&& member(p@, "stack"@) matches Some(v) && text_or_null(error.stack, v)
                    &&& member(p@, "user_action"@) matches Some(v) && text_or_null(error.user_action, v)
                    &&& member(p@, "recoverable"@) == Some(JsonValue::Bool(error.recoverable))
                    &&& has_text(p@, "$lib"@, "pausa-app"@)
                    &&& has_text(p@, "$lib_version"@, old(self).version()@)
                }
                &&& flush == (final(self).queued().len() >= 10)
            },
    {
        if !self.enabled || self.api_key.is_none() {
            return false;
        }
        let distinct_id = self.distinct_id();
        let mut p: Vec<(String, JsonValue)> = Vec::new();
        p.push((String::from_str("error_type"), JsonValue::String(error.error_type)));
        p.push((String::from_str("message"), JsonValue::String(error.message)));
        p.push((String::from_str("context"), json_text(error.context)));
        p.push((String::from_str("stack"), json_text(error.stack)));
        p.push((String::from_str("user_action"), json_text(error.user_action)));
        p.push((String::from_str("recoverable"), JsonValue::Bool(error.recoverable)));
        let mut lib = self.lib_entries();
        p.append(&mut lib);
        proof {
            reveal_strlit("error_type");
            reveal_strlit("message");
            reveal_strlit("context");
            reveal_strlit("stack");
            reveal_strlit("user_action");
            reveal_strlit("recoverable");
            reveal_strlit("$lib");
            reveal_strlit("$lib_version");
            let ghost keys = seq![
                "error_type"@,
                "message"@,
                "context"@,
                "stack"@,
                "user_action"@,
                "recoverable"@,
                "$lib"@,
                "$lib_version"@,
            ];
            assert(p@.len() == 8);
            assert forall|j: int| 0 <= j < 8 implies #[trigger] p@[j].0@ == keys[j] by {}
            assert(keys[0].len() == 10 && keys[1].len() == 7 && keys[2].len() == 7 && keys[3].len() == 5);
            assert(keys[4].len() == 11 && keys[5].len() == 11 && keys[6].len() == 4 && keys[7].len() == 12);
            assert(keys[4][0] != keys[5][0]);
            assert(keys[1][0] != keys[2][0]);
            lemma_member_at(p@, 0, keys[0]);
            lemma_member_at(p@, 1, keys[1]);
            lemma_member_at(p@, 2, keys[2]);
            lemma_member_at(p@, 3, keys[3]);
            lemma_member_at(p@, 4, keys[4]);
            lemma_member_at(p@, 5, keys[5]);
            lemma_member_at(p@, 6, keys[6]);
            lemma_member_at(p@, 7, keys[7]);
        }
        let ts = rfc3339_now();
        let e = TelemetryEvent {
            event: String::from_str("app_error"),
            distinct_id,
            properties: JsonValue::Object(p),
            timestamp: Some(ts),
        };
        self.queue_event(e)
    }

    /// Records a sign-in step (`login_` and the step) with its provider and
    /// error; says whether the queue is due to be sent.  Nothing is recorded
    /// when the service does not record.
    pub fn log_login(&mut self, login: LoginEvent) -> (flush: bool)
        ensures
            final(self).key() == old(self).key(),
            final(self).user() == old(self).user(),
            !old(self).records() ==> final(self).queued() == old(self).queued() && !flush,
            old(self).records() ==> final(self).queued().len() == old(self).queued().len() + 1 && {
                let e = final(self).queued().last();
                &&& final(self).queued().drop_last() == old(self).queued()
                &&& e.event@ == "login_"@ + login.event@
                &&& old(self).attributed_to(e.distinct_id@)
                &&& e.timestamp is Some
                &&& e.properties matches JsonValue::Object(p) && {
                    &&& has_text(p@, "provider"@, login.provider@)
                    &&& has_text(p@, "$lib"@, "pausa-app"@)
                    &&& has_text(p@, "$lib_version"@, old(self).version()@)
                }
                &&& flush == (final(self).queued().len() >= 10)
            },
    {
        if !self.enabled || self.api_key.is_none() {
            return false;
        }
        let distinct_id = self.distinct_id();
        let mut p: Vec<(String, JsonValue)> = Vec::new();
        p.push((String::from_str("provider"), JsonValue::String(login.provider)));
        p.push((String::from_str("error"), json_text(login.error)));
        let mut lib = self.lib_entries();
        p.append(&mut lib);
        proof {
            reveal_strlit("provider");
            reveal_strlit("error");
            reveal_strlit("$lib");
            reveal_strlit("$lib_version");
            let ghost keys = seq!["provider"@, "error"@, "$lib"@, "$lib_version"@];
            assert forall|j: int| 0 <= j < 4 implies #[trigger] p@[j].0@ == keys[j] by {}
            assert(keys[0].len() == 8 && keys[1].len() == 5 && keys[2].len() == 4 && keys[3].len() == 12);
            lemma_member_at(p@, 0, keys[0]);
            lemma_member_at(p@, 2, keys[2]);
            lemma_member_at(p@, 3, keys[3]);
        }
        let mut name = String::from_str("login_");
        name.append(login.event.as_str());
        let ts = rfc3339_now();
        let e = TelemetryEvent { event: name, distinct_id, properties: JsonValue::Object(p), timestamp: Some(ts) };
        self.queue_event(e)
    }

    /// Records a metric: its value, the library's name and version, and the
    /// members of `tags` when it is an object (a tag replaces a property of
    /// the same name); says whether the queue is due to be sent.  Nothing is
    /// recorded when the service does not record.
    pub fn log_metric(&mut self, metric_name: String, value: JsonValue, tags: Option<JsonValue>) -> (flush: bool)
        ensures
            final(self).key() == old(self).key(),
            final(self).user() == old(self).user(),
            !old(self).records() ==> final(self).queued() == old(self).queued() && !flush,
            old(self).records() ==> final(self).queued().len() == old(self).queued().len() + 1 && {
                let e = final(self).queued().last();
                &&& final(self).queued().drop_last() == old(self).queued()
                &&& e.event == metric_name
                &&& old(self).attributed_to(e.distinct_id@)
                &&& e.timestamp is Some
                &&& e.properties matches JsonValue::Object(p) && metric_properties(
                    p@,
                    value,
                    old(self).version()@,
                    tag_entries(tags),
                )
                &&& flush == (final(self).queued().len() >= 10)
            },
    {
        if !self.enabled || self.api_key.is_none() {
            return false;
        }
        let distinct_id = self.distinct_id();
        let mut p: Vec<(String, JsonValue)> = Vec::new();
        p.push((String::from_str("value"), value));
        let mut lib = self.lib_entries();
        p.append(&mut lib);
        let ghost base = p@;
        let ghost version = self.lib_version@;
        proof {
            reveal_strlit("value");
            reveal_strlit("$lib");
            reveal_strlit("$lib_version");
            assert("value"@.len() == 5 && "$lib"@.len() == 4 && "$lib_version"@.len() == 12);
            lemma_member_at(base, 0, "value"@);
            lemma_member_at(base, 1, "$lib"@);
            lemma_member_at(base, 2, "$lib_version"@);
            assert forall|k: Seq<char>| k != "value"@ && k != "$lib"@ && k != "$lib_version"@ implies #[trigger] member(base, k) is None by {
                assert forall|j: int| 0 <= j < base.len() implies #[trigger] base[j].0@ != k by {}
                lemma_member_absent(base, k);
            }
        }
        let ghost all = tag_entries(tags);
        match tags {
            Some(JsonValue::Object(entries)) => {
                let mut t = entries;
                while t.len() > 0
                    invariant
                        t@.len() <= all.len(),
                        t@ == all.subrange(all.len() - t@.len(), all.len() as int),
                        forall|k: Seq<char>| #[trigger] member(p@, k) == overlaid(
                            base,
                            all.subrange(0, all.len() - t@.len()),
                            k,
                        ),
                    decreases t.len(),
                {
                    let ghost n = all.len() - t@.len();
                    let ghost before = p@;
                    let (k, v) = t.remove(0);
                    assert(all[n] == (k, v));
                    let ghost done = all.subrange(0, n + 1);
                    assert(done.drop_last() =~= all.subrange(0, n));
                    assert(done.last() == (k, v));
                    object_insert(&mut p, k, v);
                    assert(t@ =~= all.subrange(all.len() - t@.len(), all.len() as int));
                    assert forall|q: Seq<char>| #[trigger] member(p@, q) == overlaid(base, done, q) by {
                        if q != k@ {
                            assert(member(p@, q) == member(before, q));
                        }
                    }
                }
                assert(all.subrange(0, all.len() as int) =~= all);
            },
            _ => {},
        }
        proof {
            assert forall|k: Seq<char>| #[trigger] member(p@, k) == overlaid(base, all, k) by {}
            assert(member(p@, "value"@) == overlaid(base, all, "value"@));
            assert(member(p@, "$lib"@) == overlaid(base, all, "$lib"@));
            assert(member(p@, "$lib_version"@) == overlaid(base, all, "$lib_version"@));
        }
        let ts = rfc3339_now();
        let e = TelemetryEvent { event: metric_name, distinct_id, properties: JsonValue::Object(p), timestamp: Some(ts) };
        self.queue_event(e)
    }

    /// Records a completed session with the given properties, adding the
    /// library's name and version when they form an object; says whether the
    /// queue is due to be sent.  Nothing is recorded when the service does
    /// not record.
    pub fn log_session_completed(&mut self, session_data: JsonValue) -> (flush: bool)
        ensures
            final(self).key() == old(self).key(),
            final(self).user() == old(self).user(),
            !old(self).records() ==> final(self).queued() == old(self).queued() && !flush,
            old(self).records() ==> final(self).queued().len() == old(self).queued().len() + 1 && {
                let e = final(self).queued().last();
                &&& final(self).queued().drop_last() == old(self).queued()
                &&& e.event@ == "session_completed"@
                &&& old(self).attributed_to(e.distinct_id@)
                &&& e.timestamp is Some
                &&& match session_data {
                    JsonValue::Object(d) => e.properties matches JsonValue::Object(p) && {
                        &&& has_text(p@, "$lib"@, "pausa-app"@)
                        &&& has_text(p@, "$lib_version"@, old(self).version()@)
                        &&& forall|k: Seq<char>|
                            k != "$lib"@ && k != "$lib_version"@ ==> #[trigger] member(p@, k) == member(d@, k)
                    },
                    _ => e.properties == session_data,
                }
                &&& flush == (final(self).queued().len() >= 10)
            },
    {
        if !self.enabled || self.api_key.is_none() {
            return false;
        }
        let distinct_id = self.distinct_id();
        let properties = match session_data {
            JsonValue::Object(entries) => {
                let mut p = entries;
                let ghost first = p@;
                object_insert(&mut p, String::from_str("$lib"), JsonValue::String(String::from_str("pausa-app")));
                let ghost mid = p@;
                object_insert(&mut p, String::from_str("$lib_version"), JsonValue::String(self.lib_version.clone()));
                proof {
                    reveal_strlit("$lib");
                    reveal_strlit("$lib_version");
                    assert("$lib"@.len() == 4 && "$lib_version"@.len() == 12);
                    assert(member(p@, "$lib"@) == member(mid, "$lib"@));
                    assert forall|k: Seq<char>| k != "$lib"@ && k != "$lib_version"@ implies #[trigger] member(p@, k) == member(first, k) by {
                        assert(member(p@, k) == member(mid, k));
                        assert(member(mid, k) == member(first, k));
                    }
                }
                JsonValue::Object(p)
            },
            other => other,
        };
        let ts = rfc3339_now();
        let e = TelemetryEvent {
            event: String::from_str("session_completed"),
            distinct_id,
            properties,
            timestamp: Some(ts),
        };
        self.queue_event(e)
    }

    /// Takes the queued events for sending, with the key to send them with;
    /// nothing when the service does not record or nothing is queued.
    pub fn take_batch(&mut self) -> (b: Option<(String, Vec<TelemetryEvent>)>)
        ensures
            final(self).key() == old(self).key(),
            final(self).is_on() == old(self).is_on(),
            final(self).user() == old(self).user(),
            final(self).version() == old(self).version(),
            (!old(self).records() || old(self).queued().len() == 0) ==> b is None && final(self).queued()
                == old(self).queued(),
            (old(self).records() && old(self).queued().len() > 0) ==> (b matches Some((k, v)) && Some(k)
                == old(self).key() && v@ == old(self).queued() && final(self).queued().len() == 0),
    {
        let key = match &self.api_key {
            Some(k) => k.clone(),
            None => {
                return None;
            },
        };
        if !self.enabled || self.queue.len() == 0 {
            return None;
        }
        let mut events: Vec<TelemetryEvent> = Vec::new();
        self.queue.append(&mut events);
        std::mem::swap(&mut events, &mut self.queue);
        Some((key, events))
    }
}

/// An event as the batch request carries it: an object of its name, its
/// sender, its properties and its time (or `null`).
pub open spec fn is_batch_item(item: JsonValue, e: TelemetryEvent) -> bool {
    item matches JsonValue::Object(o) && {
        &&& o@.len() == 4
        &&& o@[0].0@ == "event"@ && o@[0].1 == JsonValue::String(e.event)
        &&& o@[1].0@ == "distinct_id"@ && o@[1].1 == JsonValue::String(e.distinct_id)
        &&& o@[2].0@ == "properties"@ && o@[2].1 == e.properties
        &&& o@[3].0@ == "timestamp"@ && text_or_null(e.timestamp, o@[3].1)
    }
}

/// The body of a batch request: the key, and the events with their name,
/// sender, properties and time, in order.
pub fn batch_body(api_key: String, events: Vec<TelemetryEvent>) -> (b: JsonValue)
    ensures
        b matches JsonValue::Object(top) && top@.len() == 2 && top@[0].0@ == "api_key"@ && (top@[0].1 matches JsonValue::String(k) && k == api_key)
            && top@[1].0@ == "batch"@ && (top@[1].1 matches JsonValue::Array(items) && items@.len() == events@.len()
            && forall|i: int| 0 <= i < events@.len() ==> is_batch_item(#[trigger] items@[i], events@[i])),
{
    let ghost all = events@;
    let mut items: Vec<JsonValue> = Vec::new();
    let mut rest = events;
    while rest.len() > 0
        invariant
            items@.len() + rest@.len() == all.len(),
            rest@ == all.subrange(items@.len() as int, all.len() as int),
            forall|i: int| 0 <= i < items@.len() ==> is_batch_item(#[trigger] items@[i], all[i]),
        decreases rest.len(),
    {
        let ghost k = items@.len();
        let e = rest.remove(0);
        assert(e == all[k as int]);
        let mut o: Vec<(String, JsonValue)> = Vec::new();
        o.push((String::from_str("event"), JsonValue::String(e.event)));
        o.push((String::from_str("distinct_id"), JsonValue::String(e.distinct_id)));
        o.push((String::from_str("properties"), e.properties));
        o.push((String::from_str("timestamp"), json_text(e.timestamp)));
        items.push(JsonValue::Object(o));
        assert(rest@ =~= all.subrange(items@.len() as int, all.len() as int));
    }
    let mut top: Vec<(String, JsonValue)> = Vec::new();
    top.push((String::from_str("api_key"), JsonValue::String(api_key)));
    top.push((String::from_str("batch"), JsonValue::Array(items)));
    JsonValue::Object(top)
}

/// The error for a batch that could not be sent.
pub fn send_error(detail: &str) -> (m: String)
    ensures
        m@ == "Failed to send telemetry to PostHog: "@ + detail@,
{
    let mut m = String::from_str("Failed to send telemetry to PostHog: ");
    m.append(detail);
    m
}

/// The error for a batch the analytics service refused.
pub fn flush_error(status: &str, body: &str) -> (m: String)
    ensures
        m@ == "PostHog API returned error "@ + status@ + ": "@ + body@,
{
    let mut m = String::from_str("PostHog API returned error ");
    m.append(status);
    m.append(": ");
    m.append(body);
    m
}

} // verus!
