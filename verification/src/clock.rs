//! The clock and the random identifiers the logic reads.  Their results depend
//! on the time or on chance, so the contracts state only what holds of every
//! outcome.

use vstd::prelude::*;

verus! {

/// The monotonic clock's instants (`std::time::Instant`), carried as they
/// are.
#[verifier::external_type_specification]
#[verifier::external_body]
pub struct ExInstant(std::time::Instant);

/// A `HH:MM` wall-clock reading: two digits, a colon, two digits.
pub open spec fn is_hhmm_reading(s: Seq<char>) -> bool {
    &&& s.len() == 5
    &&& s[2] == ':'
    &&& '0' <= s[0] <= '2'
    &&& '0' <= s[1] <= '9'
    &&& '0' <= s[3] <= '5'
    &&& '0' <= s[4] <= '9'
}

/// The time now as seconds since the Unix epoch and the nanoseconds beyond
/// them (`chrono::Utc::now()`, then `timestamp` and
/// `timestamp_subsec_nanos`).  Which time it is stays unsaid; only that the
/// seconds lie within 2^49 of the epoch, as every `DateTime<Utc>` does
/// (chrono bounds its years to `MIN_YEAR..=MAX_YEAR`, about 262 000 years
/// either way), and that the nanoseconds are below 2 000 000 000, as chrono
/// documents (the excess marks a leap second).
#[verifier::external_body]
fn utc_now() -> (t: (i64, u32))
    ensures
        -0x2_0000_0000_0000 <= t.0 <= 0x2_0000_0000_0000,
        t.1 < 2_000_000_000,
{
    let t = chrono::Utc::now();
    (t.timestamp(), t.timestamp_subsec_nanos())
}

/// Seconds since the Unix epoch now, within 2^50 of it.
pub(crate) fn unix_now() -> (t: i64)
    ensures
        -0x4_0000_0000_0000 <= t <= 0x4_0000_0000_0000,
{
    utc_now().0
}

/// Nanoseconds in a second.
pub const NANOS_PER_SEC: i128 = 1_000_000_000;

/// A wall-clock instant in nanoseconds since the Unix epoch lies within
/// 2^50 seconds of it.
pub open spec fn wall_nanos_ok(t: i128) -> bool {
    -0x4_0000_0000_0000 * 1_000_000_000 <= t <= 0x4_0000_0000_0000 * 1_000_000_000
}

/// Nanoseconds since the Unix epoch now, the seconds and the nanoseconds
/// beyond them of one reading of the clock.
pub(crate) fn unix_now_nanos() -> (t: i128)
    ensures
        wall_nanos_ok(t),
{
    let (s, n) = utc_now();
    s as i128 * NANOS_PER_SEC + n as i128
}

/// The whole second that an instant in nanoseconds falls in (rounded down,
/// as a `DateTime`'s `timestamp` is).
pub open spec fn second_of(t: i128) -> int {
    t / 1_000_000_000
}

/// The second of an instant (see `second_of`).
pub fn whole_seconds(t: i128) -> (s: i64)
    requires
        wall_nanos_ok(t),
    ensures
        s == second_of(t),
        -0x4_0000_0000_0000 <= s <= 0x4_0000_0000_0000,
{
    if t >= 0 {
        (t / NANOS_PER_SEC) as i64
    } else {
        let u: i128 = -t;
        let q: i128 = u / NANOS_PER_SEC;
        let r: i128 = u % NANOS_PER_SEC;
        if r == 0 {
            assert(t == -q * 1_000_000_000);
            -(q as i64)
        } else {
            assert(t == (-q - 1) * 1_000_000_000 + (1_000_000_000 - r));
            -(q as i64) - 1
        }
    }
}

/// The whole seconds from `start` to `end`, rounded toward zero, as
/// chrono's `TimeDelta::num_seconds` counts the difference of two times.
pub open spec fn seconds_between(start: i128, end: i128) -> int {
    let d = end - start;
    if d >= 0 {
        d / 1_000_000_000
    } else {
        -((-d) / 1_000_000_000)
    }
}

/// The whole seconds between two instants (see `seconds_between`).
pub fn whole_seconds_between(start: i128, end: i128) -> (s: i64)
    requires
        wall_nanos_ok(start),
        wall_nanos_ok(end),
    ensures
        s == seconds_between(start, end),
{
    let d: i128 = end - start;
    if d >= 0 {
        (d / NANOS_PER_SEC) as i64
    } else {
        let u: i128 = -d;
        -((u / NANOS_PER_SEC) as i64)
    }
}

/// The local wall-clock time formatted with `%H:%M`
/// (`chrono::Local::now().format("%H:%M")`).  chrono documents both fields
/// as zero-padded to two digits; which time it is stays unsaid.
#[verifier::external_body]
pub(crate) fn local_time_hhmm() -> (s: String)
    ensures
        is_hhmm_reading(s@),
{
    chrono::Local::now().format("%H:%M").to_string()
}

/// A fresh random identifier (`uuid::Uuid::new_v4().to_string()`).  The
/// hyphenated form that `to_string` gives has 36 characters; the value is
/// random.
#[verifier::external_body]
pub(crate) fn new_uuid_string() -> (s: String)
    ensures
        s@.len() == 36,
{
    uuid::Uuid::new_v4().to_string()
}

/// The current instant of the monotonic clock (`std::time::Instant::now`).
#[verifier::external_body]
pub(crate) fn instant_now() -> (i: std::time::Instant) {
    std::time::Instant::now()
}

/// Nanoseconds elapsed since `earlier` (`Instant::elapsed().as_nanos()`,
/// truncated to `u64`).  The amount depends on the clock and is not stated.
#[verifier::external_body]
pub(crate) fn nanos_since(earlier: &std::time::Instant) -> (n: u64) {
    earlier.elapsed().as_nanos() as u64
}

} // verus!
