//! Time-spread scheduling.
//!
//! Checks are spread over time with two techniques: *odd periods* that do not line up with days,
//! weeks or months, and *a bit of randomness* so that instances scheduled together drift apart.
//!
//! * *daily*: 29 hours, jittered by up to ±2 hours;
//! * *weekly*: 167 hours, jittered by up to ±11.5 hours;
//! * a freshly discovered instance is checked anywhere from now to 29 hours from now;
//! * the published list is regenerated every 6 hours 6 minutes, jittered by up to ±5 minutes.
//!
//! Both 29 and 167 are prime, so a daily and a weekly check started together only line up again
//! after 29 * 167 hours. A daily check accumulates about 5.76 * 2 hours of spread over a weekly
//! period, which is the spread given to a weekly check.
//!
//! Timestamps are whole seconds since the Unix epoch, as `i64`.
use vstd::prelude::*;

verus! {

/// The daily period: 29 hours.
pub const DAILY_PERIOD_SECS: u64 = 104400;

/// The largest jitter of a daily check: 2 hours.
pub const DAILY_JITTER_SECS: i64 = 7200;

/// The weekly period: 167 hours.
pub const WEEKLY_PERIOD_SECS: u64 = 601200;

/// The largest jitter of a weekly check: 11 hours 30 minutes.
pub const WEEKLY_JITTER_SECS: i64 = 41400;

/// The window in which a new instance gets its first check: 29 hours.
pub const TODAY_WINDOW_SECS: i64 = 104400;

/// The period of list generation: 6 hours 6 minutes.
pub const LIST_PERIOD_SECS: u64 = 21960;

/// The largest jitter of list generation: 5 minutes.
pub const LIST_JITTER_SECS: i64 = 300;

/// One week, the window of the demotion rules.
pub const WEEK_SECS: i64 = 604800;

/// A timestamp computation left the range of `i64` seconds.
#[derive(Debug, Clone, Copy, PartialEq, Eq)]
pub struct TimeOverflow;

/// Whether `t` is a representable timestamp.
pub open spec fn fits_timestamp(t: int) -> bool {
    i64::MIN <= t <= i64::MAX
}

/// `now` moved by a fixed offset and a signed random offset; fails where the result is not a
/// representable timestamp.
pub fn offset_time(now: i64, fixed_offset: u64, random_offset: i64) -> (r: Result<
    i64,
    TimeOverflow,
>)
    ensures
        match r {
            Ok(t) => t == now + fixed_offset + random_offset,
            Err(_) => !fits_timestamp(now + fixed_offset + random_offset),
        },
{
    let total: i128 = now as i128 + fixed_offset as i128 + random_offset as i128;
    if total < i64::MIN as i128 || total > i64::MAX as i128 {
        Err(TimeOverflow)
    } else {
        Ok(total as i64)
    }
}

/// Relies on `fastrand::i64` over an inclusive range: a value between both ends. It panics on
/// an empty range, which `requires` leaves out.
#[verifier::external_body]
fn random_between(low: i64, high: i64) -> (r: i64)
    requires
        low <= high,
    ensures
        low <= r <= high,
{
    fastrand::i64(low..=high)
}

/// Relies on `chrono::Utc::now` and `DateTime::timestamp`: the clock's reading in whole seconds
/// since the epoch. Nothing is known of its value.
#[verifier::external_body]
fn clock_now() -> (r: i64) {
    chrono::Utc::now().timestamp()
}

/// A random pause before retrying on a busy registry, in milliseconds: from 1 to 49.
pub fn busy_retry_delay_ms() -> (r: u64)
    ensures
        1 <= r < 50,
{
    random_between(1, 49) as u64
}

/// The current time, in seconds since the Unix epoch.
pub fn now_timestamp() -> i64 {
    clock_now()
}

/// Whether `t` is a possible daily check time for a check scheduled at `now`: 29 hours ± 2 hours.
pub open spec fn in_daily_window(now: int, t: int) -> bool {
    now + 27 * 3600 <= t <= now + 31 * 3600
}

/// Whether `t` is a possible weekly check time for a check scheduled at `now`:
/// 167 hours ± 11.5 hours.
pub open spec fn in_weekly_window(now: int, t: int) -> bool {
    now + 559800 <= t <= now + 642600
}

/// Whether `t` is a possible first check time for an instance discovered at `now`: within the
/// next 29 hours.
pub open spec fn in_today_window(now: int, t: int) -> bool {
    now <= t <= now + 29 * 3600
}

/// Whether `t` is a possible list generation time for a list made at `now`:
/// 6 hours 6 minutes ± 5 minutes.
pub open spec fn in_six_hours_window(now: int, t: int) -> bool {
    now + 21660 <= t <= now + 22260
}

/// A random time about a day after `now` (29 hours ± 2 hours).
pub fn about_a_day_after(now: i64) -> (r: Result<i64, TimeOverflow>)
    ensures
        r is Ok ==> in_daily_window(now as int, r->Ok_0 as int),
        r is Ok <== now + 31 * 3600 <= i64::MAX,
{
    let jitter = random_between(-DAILY_JITTER_SECS, DAILY_JITTER_SECS);
    offset_time(now, DAILY_PERIOD_SECS, jitter)
}

/// A random time about a week after `now` (167 hours ± 11.5 hours).
pub fn about_a_week_after(now: i64) -> (r: Result<i64, TimeOverflow>)
    ensures
        r is Ok ==> in_weekly_window(now as int, r->Ok_0 as int),
        r is Ok <== now + 642600 <= i64::MAX,
{
    let jitter = random_between(-WEEKLY_JITTER_SECS, WEEKLY_JITTER_SECS);
    offset_time(now, WEEKLY_PERIOD_SECS, jitter)
}

/// A random time no further than 29 hours after `now`.
pub fn sometime_today_after(now: i64) -> (r: Result<i64, TimeOverflow>)
    ensures
        r is Ok ==> in_today_window(now as int, r->Ok_0 as int),
        r is Ok <== now + 29 * 3600 <= i64::MAX,
{
    let offset = random_between(0, TODAY_WINDOW_SECS);
    offset_time(now, 0, offset)
}

/// A random time about 6.1 hours after `now` (6 hours 6 minutes ± 5 minutes).
pub fn in_about_six_hours_after(now: i64) -> (r: Result<i64, TimeOverflow>)
    ensures
        r is Ok ==> in_six_hours_window(now as int, r->Ok_0 as int),
        r is Ok <== now + 22260 <= i64::MAX,
{
    let jitter = random_between(-LIST_JITTER_SECS, LIST_JITTER_SECS);
    offset_time(now, LIST_PERIOD_SECS, jitter)
}

/// A random time about a day from now (now + 29 hours ± 2 hours); see [`about_a_day_after`].
pub fn about_a_day_from_now() -> (r: Result<i64, TimeOverflow>)
    ensures
        r is Ok ==> exists|now: i64| #[trigger] in_daily_window(now as int, r->Ok_0 as int),
{
    about_a_day_after(clock_now())
}

/// A random time about a week from now (now + 167 hours ± 11.5 hours); see
/// [`about_a_week_after`].
pub fn about_a_week_from_now() -> (r: Result<i64, TimeOverflow>)
    ensures
        r is Ok ==> exists|now: i64| #[trigger] in_weekly_window(now as int, r->Ok_0 as int),
{
    about_a_week_after(clock_now())
}

/// A random time no further than 29 hours from now; see [`sometime_today_after`].
pub fn sometime_today() -> (r: Result<i64, TimeOverflow>)
    ensures
        r is Ok ==> exists|now: i64| #[trigger] in_today_window(now as int, r->Ok_0 as int),
{
    sometime_today_after(clock_now())
}

/// A random time about 6.1 hours from now (now + 6 hours 6 minutes ± 5 minutes); see
/// [`in_about_six_hours_after`].
pub fn in_about_six_hours() -> (r: Result<i64, TimeOverflow>)
    ensures
        r is Ok ==> exists|now: i64| #[trigger] in_six_hours_window(now as int, r->Ok_0 as int),
{
    in_about_six_hours_after(clock_now())
}

} // verus!
