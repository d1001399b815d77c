use vstd::prelude::*;
use crate::clock::{in_utc_range, now_timestamp};

verus! {

pub const SECONDS_PER_MINUTE: i64 = 60;
pub const SECONDS_PER_HOUR: i64 = 3600;
pub const SECONDS_PER_DAY: i64 = 86400;

/// Largest length, in seconds, of a time span that the date-time arithmetic
/// accepts (`i64::MAX / 1000`); longer spans make it panic.
pub const MAX_SPAN_SECONDS: i64 = 9223372036854775;

/// Whether a span of `secs` seconds can be added to a date-time.
pub open spec fn span_in_range(secs: int) -> bool {
    -MAX_SPAN_SECONDS <= secs <= MAX_SPAN_SECONDS
}

/// The UTC day (days since 1970-01-01) on which the Unix time `t` falls.
pub open spec fn utc_day(t: int) -> int {
    t / (SECONDS_PER_DAY as int)
}

proof fn lemma_utc_day_negative(t: int, u: int, q: int)
    requires
        t < 0,
        u == -(t + 1),
        q == u / 86400,
    ensures
        utc_day(t) == -q - 1,
{
    let r = u % 86400;
    assert(u == 86400 * q + r && 0 <= r < 86400) by (nonlinear_arith)
        requires
            u >= 0,
            q == u / 86400,
            r == u % 86400,
    ;
    assert(t == 86400 * (-q - 1) + (86400 - r - 1));
    vstd::arithmetic::div_mod::lemma_fundamental_div_mod_converse(
        t,
        86400,
        -q - 1,
        86400 - r - 1,
    );
}

/// The UTC day on which the Unix time `t` falls.
pub fn utc_day_of(t: i64) -> (d: i64)
    ensures
        d == utc_day(t as int),
{
    if t >= 0 {
        t / SECONDS_PER_DAY
    } else {
        let u: i64 = -(t + 1);
        let q: i64 = u / SECONDS_PER_DAY;
        proof {
            lemma_utc_day_negative(t as int, u as int, q as int);
        }
        -q - 1
    }
}

/// Seconds from `now` to the next UTC midnight.
pub open spec fn seconds_until_next_utc_day(now: int) -> int {
    (utc_day(now) + 1) * (SECONDS_PER_DAY as int) - now
}

/// Seconds to the next UTC midnight are between 1 and a full day.
pub proof fn lemma_seconds_until_next_utc_day_bounds(now: int)
    ensures
        0 < seconds_until_next_utc_day(now) <= SECONDS_PER_DAY,
{
    let q = now / 86400;
    let r = now % 86400;
    vstd::arithmetic::div_mod::lemma_fundamental_div_mod(now, 86400);
    assert(0 <= r < 86400) by {
        vstd::arithmetic::div_mod::lemma_mod_bound(now, 86400);
    }
    assert((q + 1) * 86400 - now == 86400 - r) by (nonlinear_arith)
        requires
            now == 86400 * q + r,
    ;
}

/// The wait before the next UTC day is exact: every instant before it lies
/// on the same UTC day as `now`, and the instant it ends on is the first of
/// the next UTC day.
pub proof fn lemma_next_utc_day_wait_is_exact(now: int, s: int)
    requires
        0 <= s < seconds_until_next_utc_day(now),
    ensures
        utc_day(now + s) == utc_day(now),
        utc_day(now + seconds_until_next_utc_day(now)) == utc_day(now) + 1,
{
    let d = utc_day(now);
    vstd::arithmetic::div_mod::lemma_fundamental_div_mod(now, 86400);
    vstd::arithmetic::div_mod::lemma_mod_bound(now, 86400);
    vstd::arithmetic::div_mod::lemma_fundamental_div_mod_converse(
        now + s,
        86400,
        d,
        now + s - 86400 * d,
    );
    vstd::arithmetic::div_mod::lemma_fundamental_div_mod_converse(
        now + seconds_until_next_utc_day(now),
        86400,
        d + 1,
        0,
    );
}

/// Whether `now` lies on a later or earlier UTC day than `last`, and how many
/// seconds remain until the next UTC midnight after `now`.
pub fn check_utc_day_reset_at(last: i64, now: i64) -> (r: (bool, i64))
    requires
        in_utc_range(now as int),
    ensures
        r.0 == (utc_day(now as int) != utc_day(last as int)),
        r.1 == seconds_until_next_utc_day(now as int),
{
    let now_day = utc_day_of(now);
    let last_day = utc_day_of(last);
    proof {
        lemma_seconds_until_next_utc_day_bounds(now as int);
    }
    (now_day != last_day, (now_day + 1) * SECONDS_PER_DAY - now)
}

/// `check_utc_day_reset_at` at the current time: whether a new UTC day has
/// begun since `last`, and the seconds left until the next UTC midnight.
pub fn check_utc_day_reset(last: i64) -> (r: (bool, i64))
    ensures
        0 < r.1 <= SECONDS_PER_DAY,
{
    let now = now_timestamp();
    let r = check_utc_day_reset_at(last, now);
    proof {
        lemma_seconds_until_next_utc_day_bounds(now as int);
    }
    r
}

/// Time still to wait before a once-per-UTC-day action done at `last` may be
/// done again at `now`: zero on a different UTC day, else the seconds to the
/// next UTC midnight.
pub open spec fn utc_day_wait(last: int, now: int) -> int {
    if utc_day(now) != utc_day(last) {
        0
    } else {
        seconds_until_next_utc_day(now)
    }
}

/// Seconds to wait before a once-per-UTC-day action may be repeated.
pub fn utc_day_wait_at(last: i64, now: i64) -> (r: i64)
    requires
        in_utc_range(now as int),
    ensures
        r == utc_day_wait(last as int, now as int),
        r >= 0,
{
    let (new_day, left) = check_utc_day_reset_at(last, now);
    proof {
        lemma_seconds_until_next_utc_day_bounds(now as int);
    }
    if new_day {
        0
    } else {
        left
    }
}

/// Length of the half-hour window of `check_30_minutes`.
pub const THIRTY_MINUTES_SECONDS: i64 = 1800;

/// Whether thirty minutes have passed from `last` to `now`, and how many
/// seconds of them are still missing (zero once they have passed).
pub fn check_30_minutes_at(last: i64, now: i64) -> (r: (bool, i64))
    requires
        in_utc_range(last as int),
        in_utc_range(now as int),
    ensures
        r.0 == (now - last >= THIRTY_MINUTES_SECONDS),
        r.1 == (if r.0 { 0 } else { THIRTY_MINUTES_SECONDS - (now - last) }),
{
    let elapsed = now - last;
    let passed = elapsed >= THIRTY_MINUTES_SECONDS;
    (passed, if passed { 0 } else { THIRTY_MINUTES_SECONDS - elapsed })
}

/// `check_30_minutes_at` at the current time.
pub fn check_30_minutes(last: i64) -> (r: (bool, i64))
    requires
        in_utc_range(last as int),
    ensures
        r.0 <==> r.1 == 0,
        r.1 >= 0,
{
    let now = now_timestamp();
    check_30_minutes_at(last, now)
}

/// Seconds left of a cooldown of `minutes` minutes that started at `last`,
/// seen at `now` (zero once it is over).
pub open spec fn cooldown_left(last: int, now: int, minutes: int) -> int {
    let end = last + minutes * SECONDS_PER_MINUTE;
    if end > now {
        end - now
    } else {
        0
    }
}

/// Seconds left of a cooldown of `minutes` minutes started at `last`.
pub fn cooldown_remaining_at(last: i64, now: i64, minutes: i64) -> (r: i64)
    requires
        in_utc_range(last as int),
        in_utc_range(now as int),
        span_in_range(minutes * SECONDS_PER_MINUTE),
    ensures
        r == cooldown_left(last as int, now as int, minutes as int),
        r >= 0,
{
    let end = last + minutes * SECONDS_PER_MINUTE;
    if end > now {
        end - now
    } else {
        0
    }
}

} // verus!
