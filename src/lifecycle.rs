//! The lifecycle state machine of an instance.
//!
//! An instance is in one of six states. Three of them carry auxiliary data, which exists only
//! while the instance is in that state: a `Dying` instance counts its failed checks, a `Moving`
//! one counts the redirects to its target, a `Moved` one remembers where it went. Keeping that
//! data inside the state makes "exactly one auxiliary record for the states that have one" hold
//! by construction.
//!
//! Events come from checks: the instance is alive, it is dead, or it redirected to another
//! instance. Demotion to `Dead` or `Moved` takes more than six consecutive signals spread over
//! more than a week.
use vstd::prelude::*;

verus! {

/// Possible states of an instance, stored as small integers.
#[derive(PartialEq, Eq, Structural, Debug, Clone, Copy)]
pub enum InstanceState {
    Discovered,
    Alive,
    Dying,
    Dead,
    Moving,
    Moved,
}

/// The integer that stands for a state in storage.
pub open spec fn state_code(s: InstanceState) -> int {
    match s {
        InstanceState::Discovered => 0,
        InstanceState::Alive => 1,
        InstanceState::Dying => 2,
        InstanceState::Dead => 3,
        InstanceState::Moving => 4,
        InstanceState::Moved => 5,
    }
}

/// The human-readable name of a state, as stored beside its integer.
pub open spec fn state_name(s: InstanceState) -> Seq<char> {
    match s {
        InstanceState::Discovered => "discovered"@,
        InstanceState::Alive => "alive"@,
        InstanceState::Dying => "dying"@,
        InstanceState::Dead => "dead"@,
        InstanceState::Moving => "moving"@,
        InstanceState::Moved => "moved"@,
    }
}

impl InstanceState {
    /// The state that the integer `i` stands for, if any.
    pub fn from(i: u8) -> (r: Option<InstanceState>)
        ensures
            i <= 5 ==> r is Some && state_code(r->Some_0) == i,
            i > 5 ==> r is None,
    {
        match i {
            0 => Some(InstanceState::Discovered),
            1 => Some(InstanceState::Alive),
            2 => Some(InstanceState::Dying),
            3 => Some(InstanceState::Dead),
            4 => Some(InstanceState::Moving),
            5 => Some(InstanceState::Moved),
            _ => None,
        }
    }

    /// The integer that stands for this state.
    pub fn code(&self) -> (r: u8)
        ensures
            r == state_code(*self),
    {
        match self {
            InstanceState::Discovered => 0,
            InstanceState::Alive => 1,
            InstanceState::Dying => 2,
            InstanceState::Dead => 3,
            InstanceState::Moving => 4,
            InstanceState::Moved => 5,
        }
    }

    /// The human-readable name of this state.
    pub fn name(&self) -> (r: &'static str)
        ensures
            r@ == state_name(*self),
    {
        match self {
            InstanceState::Discovered => "discovered",
            InstanceState::Alive => "alive",
            InstanceState::Dying => "dying",
            InstanceState::Dead => "dead",
            InstanceState::Moving => "moving",
            InstanceState::Moved => "moved",
        }
    }
}

/// The number of consecutive signals that must be exceeded before a demotion.
pub const DEMOTION_SIGNALS: u64 = 6;

/// Data of a `Dying` instance.
#[derive(PartialEq, Eq, Structural, Debug, Clone, Copy)]
pub struct DyingData {
    /// The state the instance was in before its first failed check.
    pub previous_state: InstanceState,
    /// When the first failed check happened.
    pub dying_since: i64,
    /// How many checks failed in a row.
    pub failed_checks_count: u64,
}

/// Data of a `Moving` instance.
#[derive(PartialEq, Eq, Structural, Debug, Clone, Copy)]
pub struct MovingData {
    /// The state the instance was in before its first redirect.
    pub previous_state: InstanceState,
    /// When the first redirect to `moving_to` was seen.
    pub moving_since: i64,
    /// How many checks in a row redirected to `moving_to`.
    pub redirects_count: u64,
    /// The id of the instance the redirects point to.
    pub moving_to: u64,
}

/// Data of a `Moved` instance.
#[derive(PartialEq, Eq, Structural, Debug, Clone, Copy)]
pub struct MovedData {
    /// The id of the instance this one moved to.
    pub moved_to: u64,
}

/// The state of an instance together with the data that state carries.
#[derive(PartialEq, Eq, Structural, Debug, Clone, Copy)]
pub enum Lifecycle {
    Discovered,
    Alive,
    Dying(DyingData),
    Dead,
    Moving(MovingData),
    Moved(MovedData),
}

/// What to do with an instance's next check after a transition.
#[derive(PartialEq, Eq, Structural, Debug, Clone, Copy)]
pub enum Reschedule {
    /// Leave the next check as it is.
    Keep,
    /// Move the next check to about a day from now.
    Daily,
    /// Move the next check to about a week from now.
    Weekly,
}

/// The outcome of an event: the new lifecycle, the new hide flag, and what happens to the next
/// check.
#[derive(PartialEq, Eq, Structural, Debug, Clone, Copy)]
pub struct Transition {
    pub lifecycle: Lifecycle,
    pub hide_from_list: bool,
    pub reschedule: Reschedule,
}

/// The plain state of a lifecycle.
pub open spec fn state_of(l: Lifecycle) -> InstanceState {
    match l {
        Lifecycle::Discovered => InstanceState::Discovered,
        Lifecycle::Alive => InstanceState::Alive,
        Lifecycle::Dying(_) => InstanceState::Dying,
        Lifecycle::Dead => InstanceState::Dead,
        Lifecycle::Moving(_) => InstanceState::Moving,
        Lifecycle::Moved(_) => InstanceState::Moved,
    }
}

/// Whether a lifecycle's data is consistent: counters are at least one, and a previous state is
/// one from which the current state can be entered.
pub open spec fn lifecycle_wf(l: Lifecycle) -> bool {
    match l {
        Lifecycle::Dying(d) => d.failed_checks_count >= 1 && d.previous_state
            != InstanceState::Dying && d.previous_state != InstanceState::Dead,
        Lifecycle::Moving(m) => m.redirects_count >= 1 && m.previous_state
            != InstanceState::Moving,
        _ => true,
    }
}

/// Whether a demotion is due: more than six signals, the first of them more than a week before
/// `now`.
pub open spec fn demotion_due(count: int, since: int, now: int) -> bool {
    count > 6 && since < now - 604800
}

/// The instance answered a check; `hide` is whether it asks to stay off the published list.
pub open spec fn alive_spec(l: Lifecycle, hide: bool) -> Transition {
    Transition {
        lifecycle: Lifecycle::Alive,
        hide_from_list: hide,
        reschedule: match l {
            Lifecycle::Dead | Lifecycle::Moved(_) => Reschedule::Daily,
            _ => Reschedule::Keep,
        },
    }
}

/// The instance failed a check at `now`.
pub open spec fn dead_spec(l: Lifecycle, hide: bool, now: i64) -> Transition {
    match l {
        Lifecycle::Dead => Transition { lifecycle: l, hide_from_list: hide, reschedule: Reschedule::Keep },
        Lifecycle::Dying(d) => {
            let count = if d.failed_checks_count < u64::MAX {
                (d.failed_checks_count + 1) as u64
            } else {
                u64::MAX
            };
            if demotion_due(count as int, d.dying_since as int, now as int) {
                Transition {
                    lifecycle: Lifecycle::Dead,
                    hide_from_list: false,
                    reschedule: Reschedule::Weekly,
                }
            } else {
                Transition {
                    lifecycle: Lifecycle::Dying(DyingData { failed_checks_count: count, ..d }),
                    hide_from_list: hide,
                    reschedule: Reschedule::Keep,
                }
            }
        },
        _ => Transition {
            lifecycle: Lifecycle::Dying(
                DyingData { previous_state: state_of(l), dying_since: now, failed_checks_count: 1 },
            ),
            hide_from_list: hide,
            reschedule: Reschedule::Keep,
        },
    }
}

/// The instance redirected at `now` to the instance with id `to`.
pub open spec fn moved_spec(l: Lifecycle, hide: bool, to: u64, now: i64) -> Transition {
    match l {
        Lifecycle::Moving(m) => {
            if m.moving_to == to {
                let count = if m.redirects_count < u64::MAX {
                    (m.redirects_count + 1) as u64
                } else {
                    u64::MAX
                };
                if demotion_due(count as int, m.moving_since as int, now as int) {
                    Transition {
                        lifecycle: Lifecycle::Moved(MovedData { moved_to: to }),
                        hide_from_list: false,
                        reschedule: Reschedule::Weekly,
                    }
                } else {
                    Transition {
                        lifecycle: Lifecycle::Moving(MovingData { redirects_count: count, ..m }),
                        hide_from_list: hide,
                        reschedule: Reschedule::Keep,
                    }
                }
            } else {
                Transition {
                    lifecycle: Lifecycle::Moving(
                        MovingData { moving_since: now, redirects_count: 1, moving_to: to, ..m },
                    ),
                    hide_from_list: hide,
                    reschedule: Reschedule::Keep,
                }
            }
        },
        Lifecycle::Moved(md) if md.moved_to == to => Transition {
            lifecycle: l,
            hide_from_list: hide,
            reschedule: Reschedule::Keep,
        },
        _ => Transition {
            lifecycle: Lifecycle::Moving(
                MovingData {
                    previous_state: state_of(l),
                    moving_since: now,
                    redirects_count: 1,
                    moving_to: to,
                },
            ),
            hide_from_list: hide,
            reschedule: Reschedule::Keep,
        },
    }
}

/// How often an instance in state `s` is checked.
pub open spec fn cadence_spec(s: InstanceState) -> Reschedule {
    match s {
        InstanceState::Dead | InstanceState::Moved => Reschedule::Weekly,
        _ => Reschedule::Daily,
    }
}

impl Lifecycle {
    /// The plain state of this lifecycle.
    pub fn state(&self) -> (r: InstanceState)
        ensures
            r == state_of(*self),
    {
        match self {
            Lifecycle::Discovered => InstanceState::Discovered,
            Lifecycle::Alive => InstanceState::Alive,
            Lifecycle::Dying(_) => InstanceState::Dying,
            Lifecycle::Dead => InstanceState::Dead,
            Lifecycle::Moving(_) => InstanceState::Moving,
            Lifecycle::Moved(_) => InstanceState::Moved,
        }
    }
}

/// Whether a demotion is due at `now` for signals counted since `since`.
fn is_demotion_due(count: u64, since: i64, now: i64) -> (r: bool)
    ensures
        r == demotion_due(count as int, since as int, now as int),
{
    count > DEMOTION_SIGNALS && (since as i128) < (now as i128) - (crate::time::WEEK_SECS as i128)
}

/// Apply a successful check to an instance.
pub fn on_alive(l: Lifecycle, hide: bool) -> (r: Transition)
    ensures
        r == alive_spec(l, hide),
{
    let reschedule = match l {
        Lifecycle::Dead | Lifecycle::Moved(_) => Reschedule::Daily,
        _ => Reschedule::Keep,
    };
    Transition { lifecycle: Lifecycle::Alive, hide_from_list: hide, reschedule }
}

/// Apply a failed check, made at `now`, to an instance.
pub fn on_dead(l: Lifecycle, hide: bool, now: i64) -> (r: Transition)
    ensures
        r == dead_spec(l, hide, now),
{
    match l {
        Lifecycle::Dead => Transition { lifecycle: l, hide_from_list: hide, reschedule: Reschedule::Keep },
        Lifecycle::Dying(d) => {
            let count = d.failed_checks_count.saturating_add(1);
            if is_demotion_due(count, d.dying_since, now) {
                Transition {
                    lifecycle: Lifecycle::Dead,
                    hide_from_list: false,
                    reschedule: Reschedule::Weekly,
                }
            } else {
                Transition {
                    lifecycle: Lifecycle::Dying(
                        DyingData {
                            previous_state: d.previous_state,
                            dying_since: d.dying_since,
                            failed_checks_count: count,
                        },
                    ),
                    hide_from_list: hide,
                    reschedule: Reschedule::Keep,
                }
            }
        },
        _ => Transition {
            lifecycle: Lifecycle::Dying(
                DyingData { previous_state: l.state(), dying_since: now, failed_checks_count: 1 },
            ),
            hide_from_list: hide,
            reschedule: Reschedule::Keep,
        },
    }
}

/// Apply a permanent redirect to the instance with id `to`, seen at `now`, to an instance.
pub fn on_moved(l: Lifecycle, hide: bool, to: u64, now: i64) -> (r: Transition)
    ensures
        r == moved_spec(l, hide, to, now),
{
    match l {
        Lifecycle::Moving(m) => {
            if m.moving_to == to {
                let count = m.redirects_count.saturating_add(1);
                if is_demotion_due(count, m.moving_since, now) {
                    Transition {
                        lifecycle: Lifecycle::Moved(MovedData { moved_to: to }),
                        hide_from_list: false,
                        reschedule: Reschedule::Weekly,
                    }
                } else {
                    Transition {
                        lifecycle: Lifecycle::Moving(
                            MovingData {
                                previous_state: m.previous_state,
                                moving_since: m.moving_since,
                                redirects_count: count,
                                moving_to: m.moving_to,
                            },
                        ),
                        hide_from_list: hide,
                        reschedule: Reschedule::Keep,
                    }
                }
            } else {
                Transition {
                    lifecycle: Lifecycle::Moving(
                        MovingData {
                            previous_state: m.previous_state,
                            moving_since: now,
                            redirects_count: 1,
                            moving_to: to,
                        },
                    ),
                    hide_from_list: hide,
                    reschedule: Reschedule::Keep,
                }
            }
        },
        Lifecycle::Moved(md) if md.moved_to == to => Transition {
            lifecycle: l,
            hide_from_list: hide,
            reschedule: Reschedule::Keep,
        },
        _ => Transition {
            lifecycle: Lifecycle::Moving(
                MovingData {
                    previous_state: l.state(),
                    moving_since: now,
                    redirects_count: 1,
                    moving_to: to,
                },
            ),
            hide_from_list: hide,
            reschedule: Reschedule::Keep,
        },
    }
}

/// How often an instance in state `s` is checked: weekly when `Dead` or `Moved`, daily
/// otherwise.
pub fn cadence(s: InstanceState) -> (r: Reschedule)
    ensures
        r == cadence_spec(s),
{
    match s {
        InstanceState::Dead | InstanceState::Moved => Reschedule::Weekly,
        _ => Reschedule::Daily,
    }
}

/// Every transition keeps a consistent lifecycle consistent.
pub proof fn lemma_transitions_keep_wf(l: Lifecycle, hide: bool, to: u64, now: i64)
    requires
        lifecycle_wf(l),
    ensures
        lifecycle_wf(alive_spec(l, hide).lifecycle),
        lifecycle_wf(dead_spec(l, hide, now).lifecycle),
        lifecycle_wf(moved_spec(l, hide, to, now).lifecycle),
{
}

/// A lifecycle from which a failed check starts a new `Dying` period.
pub open spec fn healthy(l: Lifecycle) -> bool {
    !(l is Dying) && !(l is Dead)
}

/// The lifecycle after failed checks at each of `times`, in order.
pub open spec fn after_failures(l: Lifecycle, times: Seq<i64>) -> Lifecycle
    decreases times.len(),
{
    if times.len() == 0 {
        l
    } else {
        dead_spec(after_failures(l, times.drop_last()), false, times.last()).lifecycle
    }
}

/// Whether, among the first `k` signals at `times`, one from the seventh on came more than a
/// week after the first.
pub open spec fn demoted_within(times: Seq<i64>, k: int) -> bool {
    exists|j: int| 6 <= j < k && #[trigger] demotion_due(j + 1, times[0] as int, times[j] as int)
}

/// Marking an instance alive twice with the same flag leaves it `Alive` with that flag and
/// without auxiliary data, and the second time changes nothing and reschedules nothing.
pub proof fn lemma_alive_idempotent(l: Lifecycle, hide_before: bool, x: bool)
    ensures
        ({
            let first = alive_spec(l, x);
            let second = alive_spec(first.lifecycle, x);
            &&& first.lifecycle == Lifecycle::Alive
            &&& first.hide_from_list == x
            &&& second.lifecycle == Lifecycle::Alive
            &&& second.hide_from_list == x
            &&& second.reschedule == Reschedule::Keep
        }),
{
}

/// Failed checks at `times` on an instance that was not failing: it is `Dead` exactly when one
/// of the checks from the seventh on came more than a week after the first; otherwise it is
/// `Dying` since the first, with one failure per check. So fewer than seven checks, or checks
/// all within a week of the first, leave it `Dying`, and seven checks over more than a week
/// make it `Dead` on the seventh.
pub proof fn lemma_demotion_threshold(l: Lifecycle, times: Seq<i64>)
    requires
        healthy(l),
        1 <= times.len() < u64::MAX,
    ensures
        after_failures(l, times) == if demoted_within(times, times.len() as int) {
            Lifecycle::Dead
        } else {
            Lifecycle::Dying(
                DyingData {
                    previous_state: state_of(l),
                    dying_since: times[0],
                    failed_checks_count: times.len() as u64,
                },
            )
        },
        times.len() <= 6 ==> after_failures(l, times) is Dying,
        (forall|j: int| 0 <= j < times.len() ==> #[trigger] times[j] <= times[0] + 604800)
            ==> after_failures(l, times) is Dying,
        times.len() == 7 && times[6] > times[0] + 604800 ==> after_failures(l, times)
            == Lifecycle::Dead,
    decreases times.len(),
{
    let k = times.len() as int;
    let prefix = times.drop_last();
    if k == 1 {
        assert(after_failures(l, prefix) == l);
        assert(!demoted_within(times, 1));
    } else {
        lemma_demotion_threshold(l, prefix);
        assert(prefix[0] == times[0]);
        assert forall|j: int| 6 <= j < k - 1 implies #[trigger] demotion_due(
            j + 1,
            prefix[0] as int,
            prefix[j] as int,
        ) == demotion_due(j + 1, times[0] as int, times[j] as int) by {
            assert(prefix[j] == times[j]);
        }
        if demoted_within(prefix, k - 1) {
            let j = choose|j: int|
                6 <= j < k - 1 && #[trigger] demotion_due(j + 1, prefix[0] as int, prefix[j] as int);
            assert(demotion_due(j + 1, times[0] as int, times[j] as int));
            assert(demoted_within(times, k));
        } else {
            if demoted_within(times, k) {
                let j = choose|j: int|
                    6 <= j < k && #[trigger] demotion_due(j + 1, times[0] as int, times[j] as int);
                if j < k - 1 {
                    assert(demotion_due(j + 1, prefix[0] as int, prefix[j] as int));
                    assert(demoted_within(prefix, k - 1));
                }
            }
            if demotion_due(k, times[0] as int, times[k - 1] as int) {
                assert(demoted_within(times, k));
            }
        }
    }
    if forall|j: int| 0 <= j < times.len() ==> #[trigger] times[j] <= times[0] + 604800 {
        if demoted_within(times, k) {
            let j = choose|j: int|
                6 <= j < k && #[trigger] demotion_due(j + 1, times[0] as int, times[j] as int);
            assert(times[j] <= times[0] + 604800);
        }
    }
    if k == 7 && times[6] > times[0] + 604800 {
        assert(demotion_due(7, times[0] as int, times[6] as int));
    }
}

/// The lifecycle after permanent redirects to the instance with id `to` at each of `times`.
pub open spec fn after_redirects(l: Lifecycle, to: u64, times: Seq<i64>) -> Lifecycle
    decreases times.len(),
{
    if times.len() == 0 {
        l
    } else {
        moved_spec(after_redirects(l, to, times.drop_last()), false, to, times.last()).lifecycle
    }
}

/// Permanent redirects to the same target at `times`, on an instance that was neither moving
/// nor moved: it has `Moved` there exactly when one of the redirects from the seventh on came
/// more than a week after the first; otherwise it is `Moving` there since the first, with one
/// count per redirect. Seven redirects over more than a week make it `Moved`.
pub proof fn lemma_redirect_threshold(l: Lifecycle, to: u64, times: Seq<i64>)
    requires
        !(l is Moving) && !(l is Moved),
        1 <= times.len() < u64::MAX,
    ensures
        after_redirects(l, to, times) == if demoted_within(times, times.len() as int) {
            Lifecycle::Moved(MovedData { moved_to: to })
        } else {
            Lifecycle::Moving(
                MovingData {
                    previous_state: state_of(l),
                    moving_since: times[0],
                    redirects_count: times.len() as u64,
                    moving_to: to,
                },
            )
        },
        times.len() <= 6 ==> after_redirects(l, to, times) is Moving,
        times.len() == 7 && times[6] > times[0] + 604800 ==> after_redirects(l, to, times)
            == Lifecycle::Moved(MovedData { moved_to: to }),
    decreases times.len(),
{
    let k = times.len() as int;
    let prefix = times.drop_last();
    if k == 1 {
        assert(after_redirects(l, to, prefix) == l);
        assert(!demoted_within(times, 1));
    } else {
        lemma_redirect_threshold(l, to, prefix);
        assert(prefix[0] == times[0]);
        if demoted_within(prefix, k - 1) {
            let j = choose|j: int|
                6 <= j < k - 1 && #[trigger] demotion_due(j + 1, prefix[0] as int, prefix[j] as int);
            assert(prefix[j] == times[j]);
            assert(demotion_due(j + 1, times[0] as int, times[j] as int));
            assert(demoted_within(times, k));
        } else {
            if demoted_within(times, k) {
                let j = choose|j: int|
                    6 <= j < k && #[trigger] demotion_due(j + 1, times[0] as int, times[j] as int);
                if j < k - 1 {
                    assert(prefix[j] == times[j]);
                    assert(demotion_due(j + 1, prefix[0] as int, prefix[j] as int));
                    assert(demoted_within(prefix, k - 1));
                }
            }
            if demotion_due(k, times[0] as int, times[k - 1] as int) {
                assert(demoted_within(times, k));
            }
        }
    }
    if k == 7 && times[6] > times[0] + 604800 {
        assert(demotion_due(7, times[0] as int, times[6] as int));
    }
}

/// A redirect to a different target restarts the count: a `Moving` or `Moved` instance
/// redirected to a new target at `now` is `Moving` there since `now`, with a count of one.
pub proof fn lemma_new_target_resets(l: Lifecycle, hide: bool, to: u64, now: i64)
    requires
        match l {
            Lifecycle::Moving(m) => m.moving_to != to,
            Lifecycle::Moved(md) => md.moved_to != to,
            _ => false,
        },
    ensures
        ({
            let r = moved_spec(l, hide, to, now).lifecycle;
            &&& r is Moving
            &&& r->Moving_0.moving_to == to
            &&& r->Moving_0.redirects_count == 1
            &&& r->Moving_0.moving_since == now
        }),
{
}

} // verus!
