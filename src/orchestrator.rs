//! Decisions of the orchestrator's main loop and of the retry discipline on a busy registry.
//!
//! The loop itself (sleeping, spawning work, catching signals) runs outside this library; each
//! of its decisions is a function here from what it observed to what it does next.
use vstd::prelude::*;

verus! {

/// Workers that are always present, waiting for work or performing it.
pub const CONSTANT_WORKERS: usize = 1;

/// The most checks that can run at once. Ten million checks a day is about 116 a second,
/// rounded up to a power of two.
pub const MAX_WORKERS: usize = 128;

/// How long an idle worker waits for work before its thread ends, in seconds.
pub const MAX_WORKER_IDLE_SECS: u64 = 3;

/// How long the orchestrator waits on a busy registry, in seconds. It is long so that the
/// orchestrator wins contention against every other writer.
pub const BUSY_TIMEOUT_SECS: u64 = 60;

/// The longest the loop sleeps before it looks again at signals and at the list deadline.
pub const POLL_SECS: i64 = 3;

/// How many busy attempts the bounded retry makes before a last attempt whose result stands.
pub const BUSY_RETRY_LIMIT: u32 = 100;

/// What the loop does about the instance that is due next.
#[derive(PartialEq, Eq, Structural, Debug, Clone, Copy)]
pub enum Wait {
    /// The check is more than a poll interval away: sleep one interval, then start over.
    Poll,
    /// The check is due within a poll interval: sleep this many seconds, then check it.
    SleepThenCheck(u64),
    /// The check is due: check it now.
    CheckNow,
}

/// What to do about a check due at `due_at`, seen at `now`.
pub fn wait_for(due_at: i64, now: i64) -> (r: Wait)
    ensures
        due_at - now > POLL_SECS ==> r == Wait::Poll,
        0 < due_at - now <= POLL_SECS ==> r == Wait::SleepThenCheck((due_at - now) as u64),
        due_at - now <= 0 ==> r == Wait::CheckNow,
{
    let wait: i128 = due_at as i128 - now as i128;
    if wait > POLL_SECS as i128 {
        Wait::Poll
    } else if wait > 0 {
        Wait::SleepThenCheck(wait as u64)
    } else {
        Wait::CheckNow
    }
}

/// Whether the published list is due for regeneration at `now`.
pub fn list_generation_due(next_list_at: i64, now: i64) -> (r: bool)
    ensures
        r == (next_list_at < now),
{
    next_list_at < now
}

/// Whether an operation that has failed after `attempts` tries should be tried again: only
/// when the registry was busy, and, with a `limit`, while no more than `limit` tries were made.
pub fn should_retry(busy: bool, attempts: u32, limit: Option<u32>) -> (r: bool)
    ensures
        r == (busy && match limit {
            None => true,
            Some(l) => attempts <= l,
        }),
{
    busy && match limit {
        None => true,
        Some(l) => attempts <= l,
    }
}

} // verus!
