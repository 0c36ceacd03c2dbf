//! The registry of known instances.
//!
//! Each instance has a hostname (unique), a lifecycle, the time of its next check and a flag that
//! keeps it off the published list. An instance's id is its position; instances are never
//! removed. Every operation either fails and leaves the registry as it was, or applies all its
//! changes.
use vstd::prelude::*;
use crate::domain::{Domain, DomainError};
use crate::lifecycle::{
    alive_spec, cadence, cadence_spec, dead_spec, lifecycle_wf, moved_spec, on_alive, on_dead,
    on_moved, state_of, Lifecycle, Reschedule, Transition,
};
use crate::time::{
    about_a_day_after, about_a_week_after, in_daily_window, in_today_window, in_weekly_window,
    sometime_today_after,
};

verus! {

/// The hostname that a fresh registry starts with.
pub const BOOTSTRAP_HOSTNAME: &'static str = "mastodon.social";

/// One instance as the contracts see it.
pub struct InstanceView {
    pub hostname: Seq<char>,
    pub lifecycle: Lifecycle,
    pub next_check: i64,
    pub hide_from_list: bool,
}

/// Why a registry operation failed. A failed operation changes nothing.
#[derive(Debug, Clone, Copy, PartialEq, Eq)]
pub enum RegistryError {
    /// The registry holds no instance.
    Empty,
    /// The instance is not in the registry.
    UnknownInstance,
    /// The hostname stored for the instance is not a valid domain.
    InvalidHostname(DomainError),
    /// A next-check time could not be represented.
    TimeOverflow,
}

/// Whether some instance has hostname `h`.
pub open spec fn has_host(v: Seq<InstanceView>, h: Seq<char>) -> bool {
    exists|k: int| 0 <= k < v.len() && #[trigger] v[k].hostname == h
}

/// The id of the instance with hostname `h`, or the id the next new instance gets if none has.
pub open spec fn id_of_host(v: Seq<InstanceView>, h: Seq<char>) -> int {
    if has_host(v, h) {
        choose|k: int| 0 <= k < v.len() && #[trigger] v[k].hostname == h
    } else {
        v.len() as int
    }
}

/// The instance ids that a lifecycle refers to are in the registry.
pub open spec fn targets_within(l: Lifecycle, n: int) -> bool {
    match l {
        Lifecycle::Moving(m) => m.moving_to < n,
        Lifecycle::Moved(md) => md.moved_to < n,
        _ => true,
    }
}

/// The invariants of the registry's contents: hostnames are unique, each lifecycle is
/// consistent, and redirect targets are instances of the registry.
pub open spec fn rows_wf(v: Seq<InstanceView>) -> bool {
    &&& v.len() < u64::MAX
    &&& forall|i: int, j: int|
        0 <= i < v.len() && 0 <= j < v.len() && i != j ==> #[trigger] v[i].hostname
            != #[trigger] v[j].hostname
    &&& forall|i: int| 0 <= i < v.len() ==> lifecycle_wf(#[trigger] v[i].lifecycle)
    &&& forall|i: int| 0 <= i < v.len() ==> targets_within(#[trigger] v[i].lifecycle, v.len() as int)
}

/// A freshly discovered instance.
pub open spec fn discovered_row(h: Seq<char>, next_check: i64) -> InstanceView {
    InstanceView {
        hostname: h,
        lifecycle: Lifecycle::Discovered,
        next_check,
        hide_from_list: false,
    }
}

/// Whether `t` is a possible next check at `now` under `schedule`.
pub open spec fn scheduled(schedule: Reschedule, old_next: i64, now: int, t: i64) -> bool {
    match schedule {
        Reschedule::Keep => t == old_next,
        Reschedule::Daily => in_daily_window(now, t as int),
        Reschedule::Weekly => in_weekly_window(now, t as int),
    }
}

/// Whether `new` is `old` after transition `t` at `now`.
pub open spec fn row_after(old: InstanceView, new: InstanceView, t: Transition, now: int) -> bool {
    &&& new.hostname == old.hostname
    &&& new.lifecycle == t.lifecycle
    &&& new.hide_from_list == t.hide_from_list
    &&& scheduled(t.reschedule, old.next_check, now, new.next_check)
}

/// The largest `now` at which a reschedule of kind `s` cannot overflow.
pub open spec fn schedule_fits(s: Reschedule, now: int) -> bool {
    match s {
        Reschedule::Keep => true,
        Reschedule::Daily => now + 31 * 3600 <= i64::MAX,
        Reschedule::Weekly => now + 642600 <= i64::MAX,
    }
}

/// `new` is `old` with the instance named `h` changed by `t` at `now`, all others unchanged.
pub open spec fn changed_one(
    old: Seq<InstanceView>,
    new: Seq<InstanceView>,
    h: Seq<char>,
    t: Transition,
    now: int,
) -> bool {
    &&& new.len() == old.len()
    &&& forall|i: int|
        0 <= i < old.len() ==> if old[i].hostname == h {
            row_after(old[i], #[trigger] new[i], t, now)
        } else {
            new[i] == old[i]
        }
}

/// The instances known to the crawler.
pub struct Registry {
    hostnames: Vec<String>,
    lifecycles: Vec<Lifecycle>,
    next_checks: Vec<i64>,
    hidden: Vec<bool>,
}

impl View for Registry {
    type V = Seq<InstanceView>;

    closed spec fn view(&self) -> Seq<InstanceView> {
        Seq::new(
            self.hostnames@.len(),
            |i: int|
                InstanceView {
                    hostname: self.hostnames@[i]@,
                    lifecycle: self.lifecycles@[i],
                    next_check: self.next_checks@[i],
                    hide_from_list: self.hidden@[i],
                },
        )
    }
}

impl Registry {
    /// The storage is consistent: one entry per instance in each column.
    pub closed spec fn shape_ok(&self) -> bool {
        &&& self.lifecycles@.len() == self.hostnames@.len()
        &&& self.next_checks@.len() == self.hostnames@.len()
        &&& self.hidden@.len() == self.hostnames@.len()
    }

    /// The registry's invariant.
    pub open spec fn wf(&self) -> bool {
        self.shape_ok() && rows_wf(self@)
    }

    /// An empty registry.
    pub fn new() -> (r: Registry)
        ensures
            r.wf(),
            r@ == Seq::<InstanceView>::empty(),
    {
        let r = Registry {
            hostnames: Vec::new(),
            lifecycles: Vec::new(),
            next_checks: Vec::new(),
            hidden: Vec::new(),
        };
        assert(r@ =~= Seq::<InstanceView>::empty());
        r
    }

    /// The number of instances.
    pub fn len(&self) -> (r: usize)
        requires
            self.wf(),
        ensures
            r == self@.len(),
    {
        self.hostnames.len()
    }

    /// The hostname of the instance with id `id`.
    pub fn hostname(&self, id: usize) -> (r: &String)
        requires
            self.wf(),
            id < self@.len(),
        ensures
            r@ == self@[id as int].hostname,
    {
        &self.hostnames[id]
    }

    /// The lifecycle of the instance with id `id`.
    pub fn lifecycle(&self, id: usize) -> (r: Lifecycle)
        requires
            self.wf(),
            id < self@.len(),
        ensures
            r == self@[id as int].lifecycle,
    {
        self.lifecycles[id]
    }

    /// The next check time of the instance with id `id`.
    pub fn next_check(&self, id: usize) -> (r: i64)
        requires
            self.wf(),
            id < self@.len(),
        ensures
            r == self@[id as int].next_check,
    {
        self.next_checks[id]
    }

    /// Whether the instance with id `id` is kept off the published list.
    pub fn hide_from_list(&self, id: usize) -> (r: bool)
        requires
            self.wf(),
            id < self@.len(),
        ensures
            r == self@[id as int].hide_from_list,
    {
        self.hidden[id]
    }

    /// The id of the instance with hostname `name`, if any.
    pub fn position(&self, name: &String) -> (r: Option<usize>)
        requires
            self.wf(),
        ensures
            match r {
                Some(i) => i < self@.len() && self@[i as int].hostname == name@ && i
                    == id_of_host(self@, name@),
                None => !has_host(self@, name@),
            },
    {
        let mut i: usize = 0;
        while i < self.hostnames.len()
            invariant
                self.wf(),
                0 <= i <= self@.len(),
                forall|k: int| 0 <= k < i ==> self@[k].hostname != name@,
            decreases self.hostnames.len() - i,
        {
            if self.hostnames[i] == *name {
                assert(self@[i as int].hostname == name@);
                assert(has_host(self@, name@));
                let ghost k = id_of_host(self@, name@);
                assert(self@[k].hostname == name@);
                return Some(i);
            }
            i += 1;
        }
        None
    }

    /// Add a discovered instance at the end.
    fn push_discovered(&mut self, name: String, next_check: i64)
        requires
            old(self).wf(),
            !has_host(old(self)@, name@),
            old(self)@.len() + 1 < u64::MAX,
        ensures
            final(self).wf(),
            final(self)@ == old(self)@.push(discovered_row(name@, next_check)),
    {
        let ghost h = name@;
        self.hostnames.push(name);
        self.lifecycles.push(Lifecycle::Discovered);
        self.next_checks.push(next_check);
        self.hidden.push(false);
        assert(self@ =~= old(self)@.push(discovered_row(h, next_check)));
        assert forall|i: int| 0 <= i < self@.len() implies targets_within(
            #[trigger] self@[i].lifecycle,
            self@.len() as int,
        ) by {
            if i < old(self)@.len() {
                assert(targets_within(old(self)@[i].lifecycle, old(self)@.len() as int));
            }
        }
        assert forall|i: int, j: int|
            0 <= i < self@.len() && 0 <= j < self@.len() && i != j implies #[trigger] self@[i].hostname
            != #[trigger] self@[j].hostname by {
            if i < old(self)@.len() && j < old(self)@.len() {
                assert(old(self)@[i].hostname != old(self)@[j].hostname);
            } else if i < old(self)@.len() {
                assert(old(self)@[i].hostname != h);
            } else {
                assert(old(self)@[j].hostname != h);
            }
        }
    }

    /// The next check time that `schedule` gives at `now`, where `current` is the present one.
    fn next_check_for(schedule: Reschedule, current: i64, now: i64) -> (r: Result<
        i64,
        RegistryError,
    >)
        ensures
            match r {
                Ok(t) => scheduled(schedule, current, now as int, t),
                Err(e) => e == RegistryError::TimeOverflow && !schedule_fits(schedule, now as int),
            },
    {
        match schedule {
            Reschedule::Keep => Ok(current),
            Reschedule::Daily => match about_a_day_after(now) {
                Ok(t) => Ok(t),
                Err(_) => Err(RegistryError::TimeOverflow),
            },
            Reschedule::Weekly => match about_a_week_after(now) {
                Ok(t) => Ok(t),
                Err(_) => Err(RegistryError::TimeOverflow),
            },
        }
    }

    /// Write the transition `t` into the instance with id `id`, whose next check becomes `next`.
    fn write_row(&mut self, id: usize, t: Transition, next: i64)
        requires
            old(self).wf(),
            id < old(self)@.len(),
            lifecycle_wf(t.lifecycle),
            targets_within(t.lifecycle, old(self)@.len() as int),
        ensures
            final(self).wf(),
            final(self)@ == old(self)@.update(
                id as int,
                InstanceView {
                    hostname: old(self)@[id as int].hostname,
                    lifecycle: t.lifecycle,
                    next_check: next,
                    hide_from_list: t.hide_from_list,
                },
            ),
    {
        self.lifecycles[id] = t.lifecycle;
        self.next_checks[id] = next;
        self.hidden[id] = t.hide_from_list;
        let ghost row = InstanceView {
            hostname: old(self)@[id as int].hostname,
            lifecycle: t.lifecycle,
            next_check: next,
            hide_from_list: t.hide_from_list,
        };
        assert(self@ =~= old(self)@.update(id as int, row));
        assert forall|i: int, j: int|
            0 <= i < self@.len() && 0 <= j < self@.len() && i != j implies #[trigger] self@[i].hostname
            != #[trigger] self@[j].hostname by {
            assert(old(self)@[i].hostname != old(self)@[j].hostname);
        }
        assert forall|i: int| 0 <= i < self@.len() implies lifecycle_wf(
            #[trigger] self@[i].lifecycle,
        ) by {
            if i != id {
                assert(lifecycle_wf(old(self)@[i].lifecycle));
            }
        }
        assert forall|i: int| 0 <= i < self@.len() implies targets_within(
            #[trigger] self@[i].lifecycle,
            self@.len() as int,
        ) by {
            if i != id {
                assert(targets_within(old(self)@[i].lifecycle, old(self)@.len() as int));
            }
        }
    }

    /// Apply transition `t`, made at `now`, to the instance with id `id`.
    fn apply(&mut self, id: usize, t: Transition, now: i64) -> (r: Result<(), RegistryError>)
        requires
            old(self).wf(),
            id < old(self)@.len(),
            lifecycle_wf(t.lifecycle),
            targets_within(t.lifecycle, old(self)@.len() as int),
        ensures
            final(self).wf(),
            match r {
                Ok(_) => changed_one(old(self)@, final(self)@, old(self)@[id as int].hostname, t, now as int),
                Err(e) => e == RegistryError::TimeOverflow && final(self)@ == old(self)@
                    && !schedule_fits(t.reschedule, now as int),
            },
    {
        let next = match Registry::next_check_for(t.reschedule, self.next_checks[id], now) {
            Ok(n) => n,
            Err(e) => return Err(e),
        };
        let ghost h = self@[id as int].hostname;
        self.write_row(id, t, next);
        assert forall|i: int| 0 <= i < old(self)@.len() implies if old(self)@[i].hostname == h {
            row_after(old(self)@[i], #[trigger] self@[i], t, now as int)
        } else {
            self@[i] == old(self)@[i]
        } by {
            if i != id {
                assert(old(self)@[i].hostname != old(self)@[id as int].hostname);
            }
        }
        Ok(())
    }
}


impl Registry {
    /// Set the next check of the instance with id `id` to `t`.
    fn set_next_check(&mut self, id: usize, t: i64)
        requires
            old(self).wf(),
            id < old(self)@.len(),
        ensures
            final(self).wf(),
            final(self)@ == old(self)@.update(
                id as int,
                InstanceView { next_check: t, ..old(self)@[id as int] },
            ),
    {
        let ghost row = old(self)@[id as int];
        let tr = Transition {
            lifecycle: self.lifecycles[id],
            hide_from_list: self.hidden[id],
            reschedule: Reschedule::Keep,
        };
        assert(lifecycle_wf(row.lifecycle));
        assert(targets_within(row.lifecycle, old(self)@.len() as int));
        self.write_row(id, tr, t);
    }
}

/// The hostname that a fresh registry starts with, as the contracts see it.
pub open spec fn bootstrap_hostname() -> Seq<char> {
    BOOTSTRAP_HOSTNAME@
}

/// Whether instance `i` is the first of those whose next check is the earliest.
pub open spec fn is_earliest(v: Seq<InstanceView>, i: int) -> bool {
    &&& 0 <= i < v.len()
    &&& forall|j: int| 0 <= j < v.len() ==> v[i].next_check <= #[trigger] v[j].next_check
    &&& forall|j: int| 0 <= j < i ==> v[i].next_check < #[trigger] v[j].next_check
}

/// The transition that puts an instance back on its usual cadence, changing nothing else.
pub open spec fn cadence_transition(row: InstanceView) -> Transition {
    Transition {
        lifecycle: row.lifecycle,
        hide_from_list: row.hide_from_list,
        reschedule: cadence_spec(state_of(row.lifecycle)),
    }
}

/// The outcome of an event on the instance named `h`: applied as `t` at `now`, or failed with
/// nothing changed because the instance is unknown or a next check would overflow.
pub open spec fn event_outcome(
    old: Seq<InstanceView>,
    new: Seq<InstanceView>,
    h: Seq<char>,
    t: Transition,
    now: int,
    r: Result<(), RegistryError>,
) -> bool {
    match r {
        Ok(_) => has_host(old, h) && changed_one(old, new, h, t, now),
        Err(RegistryError::UnknownInstance) => !has_host(old, h) && new == old,
        Err(RegistryError::TimeOverflow) => has_host(old, h) && new == old && !schedule_fits(
            t.reschedule,
            now,
        ),
        Err(_) => false,
    }
}

/// Seed the registry with its bootstrap instance, unless it is there already. Its first check
/// is due at `now`.
pub fn init(reg: &mut Registry, now: i64)
    requires
        old(reg).wf(),
        old(reg)@.len() + 1 < u64::MAX,
    ensures
        final(reg).wf(),
        has_host(old(reg)@, bootstrap_hostname()) ==> final(reg)@ == old(reg)@,
        !has_host(old(reg)@, bootstrap_hostname()) ==> final(reg)@ == old(reg)@.push(
            discovered_row(bootstrap_hostname(), now),
        ),
{
    let name = BOOTSTRAP_HOSTNAME.to_owned();
    match reg.position(&name) {
        Some(_) => {},
        None => reg.push_discovered(name, now),
    }
}

/// Add an instance, to be checked some time in the next 29 hours; does nothing if the
/// instance is known already.
pub fn add_instance(reg: &mut Registry, instance: &Domain, now: i64) -> (r: Result<
    (),
    RegistryError,
>)
    requires
        old(reg).wf(),
        old(reg)@.len() + 1 < u64::MAX,
    ensures
        final(reg).wf(),
        now + 29 * 3600 <= i64::MAX ==> r is Ok,
        match r {
            Ok(_) => if has_host(old(reg)@, instance@) {
                final(reg)@ == old(reg)@
            } else {
                &&& final(reg)@.len() == old(reg)@.len() + 1
                &&& final(reg)@.drop_last() == old(reg)@
                &&& final(reg)@.last() == discovered_row(instance@, final(reg)@.last().next_check)
                &&& in_today_window(now as int, final(reg)@.last().next_check as int)
            },
            Err(e) => e == RegistryError::TimeOverflow && final(reg)@ == old(reg)@ && now + 29
                * 3600 > i64::MAX,
        },
{
    let next = match sometime_today_after(now) {
        Ok(t) => t,
        Err(_) => return Err(RegistryError::TimeOverflow),
    };
    let name = instance.to_string();
    match reg.position(&name) {
        Some(_) => {},
        None => {
            reg.push_discovered(name, next);
            assert(reg@.drop_last() =~= old(reg)@);
        },
    }
    Ok(())
}

/// The instance whose next check is the earliest, and the time of that check. Among instances
/// due at the same time, the one added first.
pub fn pick_next_instance(reg: &Registry) -> (r: Result<(Domain, i64), RegistryError>)
    requires
        reg.wf(),
    ensures
        reg@.len() == 0 <==> r == Err::<(Domain, i64), RegistryError>(RegistryError::Empty),
        match r {
            Ok((d, t)) => exists|i: int|
                is_earliest(reg@, i) && #[trigger] reg@[i].hostname == d@ && t == reg@[i].next_check
                    && d.wf(),
            Err(RegistryError::InvalidHostname(_)) => exists|i: int|
                is_earliest(reg@, i) && !crate::domain::is_valid_domain(#[trigger] reg@[i].hostname),
            Err(RegistryError::Empty) => true,
            Err(_) => false,
        },
{
    let n = reg.len();
    if n == 0 {
        return Err(RegistryError::Empty);
    }
    let mut best: usize = 0;
    let mut i: usize = 1;
    while i < n
        invariant
            reg.wf(),
            n == reg@.len(),
            0 <= best < i <= n,
            forall|j: int| 0 <= j < i ==> reg@[best as int].next_check <= #[trigger] reg@[j].next_check,
            forall|j: int| 0 <= j < best ==> reg@[best as int].next_check < #[trigger] reg@[j].next_check,
        decreases n - i,
    {
        if reg.next_check(i) < reg.next_check(best) {
            best = i;
        }
        i += 1;
    }
    assert(is_earliest(reg@, best as int));
    match Domain::from_str(reg.hostname(best).as_str()) {
        Ok(d) => Ok((d, reg.next_check(best))),
        Err(e) => Err(RegistryError::InvalidHostname(e)),
    }
}

/// Put an instance back on its usual cadence: about a day from `now` for `Discovered`, `Alive`,
/// `Dying` and `Moving` instances, about a week for `Dead` and `Moved` ones.
pub fn reschedule(reg: &mut Registry, instance: &Domain, now: i64) -> (r: Result<
    (),
    RegistryError,
>)
    requires
        old(reg).wf(),
    ensures
        final(reg).wf(),
        event_outcome(
            old(reg)@,
            final(reg)@,
            instance@,
            cadence_transition(old(reg)@[id_of_host(old(reg)@, instance@)]),
            now as int,
            r,
        ),
{
    let id = match reg.position(&instance.to_string()) {
        Some(i) => i,
        None => return Err(RegistryError::UnknownInstance),
    };
    let l = reg.lifecycle(id);
    let t = Transition {
        lifecycle: l,
        hide_from_list: reg.hide_from_list(id),
        reschedule: cadence(l.state()),
    };
    reg.apply(id, t, now)
}

/// Give every instance whose check is already overdue at `now` a new check time within the
/// next 29 hours. Fails, changing nothing, where such a time could overflow.
pub fn reschedule_missed_checks(reg: &mut Registry, now: i64) -> (r: Result<(), RegistryError>)
    requires
        old(reg).wf(),
    ensures
        final(reg).wf(),
        now + 29 * 3600 > i64::MAX <==> r is Err,
        r is Err ==> r == Err::<(), RegistryError>(RegistryError::TimeOverflow) && final(reg)@
            == old(reg)@,
        r is Ok ==> final(reg)@.len() == old(reg)@.len() && forall|i: int|
            0 <= i < old(reg)@.len() ==> {
                let o = old(reg)@[i];
                let n = #[trigger] final(reg)@[i];
                &&& n.hostname == o.hostname
                &&& n.lifecycle == o.lifecycle
                &&& n.hide_from_list == o.hide_from_list
                &&& o.next_check < now ==> in_today_window(now as int, n.next_check as int)
                &&& o.next_check >= now ==> n.next_check == o.next_check
            },
{
    if now > i64::MAX - 104400 {
        return Err(RegistryError::TimeOverflow);
    }
    let n = reg.len();
    let mut i: usize = 0;
    while i < n
        invariant
            reg.wf(),
            n == reg@.len() == old(reg)@.len(),
            now + 29 * 3600 <= i64::MAX,
            0 <= i <= n,
            forall|k: int|
                0 <= k < n ==> {
                    let o = old(reg)@[k];
                    let m = #[trigger] reg@[k];
                    &&& m.hostname == o.hostname
                    &&& m.lifecycle == o.lifecycle
                    &&& m.hide_from_list == o.hide_from_list
                    &&& k < i && o.next_check < now ==> in_today_window(now as int, m.next_check as int)
                    &&& (k >= i || o.next_check >= now) ==> m.next_check == o.next_check
                },
        decreases n - i,
    {
        if reg.next_check(i) < now {
            let t = match sometime_today_after(now) {
                Ok(t) => t,
                Err(_) => return Err(RegistryError::TimeOverflow),
            };
            reg.set_next_check(i, t);
        }
        i += 1;
    }
    Ok(())
}

/// Note down that an instance answered a check at `now`; `hide_from_list` is whether it asks to
/// stay off the published list.
pub fn mark_alive(reg: &mut Registry, instance: &Domain, hide_from_list: bool, now: i64) -> (r:
    Result<(), RegistryError>)
    requires
        old(reg).wf(),
    ensures
        final(reg).wf(),
        event_outcome(
            old(reg)@,
            final(reg)@,
            instance@,
            alive_spec(old(reg)@[id_of_host(old(reg)@, instance@)].lifecycle, hide_from_list),
            now as int,
            r,
        ),
{
    let id = match reg.position(&instance.to_string()) {
        Some(i) => i,
        None => return Err(RegistryError::UnknownInstance),
    };
    let t = on_alive(reg.lifecycle(id), hide_from_list);
    reg.apply(id, t, now)
}

/// Note down that a check of an instance failed at `now`. The instance becomes `Dying`, and
/// `Dead` once more than six checks in a row failed over more than a week.
pub fn mark_dead(reg: &mut Registry, instance: &Domain, now: i64) -> (r: Result<
    (),
    RegistryError,
>)
    requires
        old(reg).wf(),
    ensures
        final(reg).wf(),
        event_outcome(
            old(reg)@,
            final(reg)@,
            instance@,
            dead_spec(
                old(reg)@[id_of_host(old(reg)@, instance@)].lifecycle,
                old(reg)@[id_of_host(old(reg)@, instance@)].hide_from_list,
                now,
            ),
            now as int,
            r,
        ),
{
    let id = match reg.position(&instance.to_string()) {
        Some(i) => i,
        None => return Err(RegistryError::UnknownInstance),
    };
    let t = on_dead(reg.lifecycle(id), reg.hide_from_list(id), now);
    proof {
        crate::lifecycle::lemma_transitions_keep_wf(reg@[id as int].lifecycle, false, 0, now);
    }
    reg.apply(id, t, now)
}

/// The outcome of a permanent redirect of the instance named `h` to the one named `to` at
/// `now`: the target is added if unknown, and the redirect applied; or nothing changed because
/// the instance is unknown or a time would overflow.
pub open spec fn moved_outcome(
    old_v: Seq<InstanceView>,
    new_v: Seq<InstanceView>,
    h: Seq<char>,
    to: Seq<char>,
    now: i64,
    r: Result<(), RegistryError>,
) -> bool {
    let row = old_v[id_of_host(old_v, h)];
    let t = moved_spec(row.lifecycle, row.hide_from_list, id_of_host(old_v, to) as u64, now);
    match r {
        Ok(_) => has_host(old_v, h) && if has_host(old_v, to) {
            changed_one(old_v, new_v, h, t, now as int)
        } else {
            &&& new_v.len() == old_v.len() + 1
            &&& changed_one(old_v, new_v.drop_last(), h, t, now as int)
            &&& new_v.last() == discovered_row(to, new_v.last().next_check)
            &&& in_today_window(now as int, new_v.last().next_check as int)
        },
        Err(RegistryError::UnknownInstance) => !has_host(old_v, h) && new_v == old_v,
        Err(RegistryError::TimeOverflow) => has_host(old_v, h) && new_v == old_v && ((!has_host(
            old_v,
            to,
        ) && now + 29 * 3600 > i64::MAX) || !schedule_fits(t.reschedule, now as int)),
        Err(_) => false,
    }
}

/// Note down that an instance permanently redirected to `to` at `now`. The target is added
/// first if it is not known, to be checked some time in the next 29 hours. The instance becomes
/// `Moving`, and `Moved` once more than six checks in a row redirected to the same target over
/// more than a week; a new target starts the count again.
pub fn mark_moved(reg: &mut Registry, instance: &Domain, to: &Domain, now: i64) -> (r: Result<
    (),
    RegistryError,
>)
    requires
        old(reg).wf(),
        old(reg)@.len() + 1 < u64::MAX,
    ensures
        final(reg).wf(),
        moved_outcome(old(reg)@, final(reg)@, instance@, to@, now, r),
{
    let id = match reg.position(&instance.to_string()) {
        Some(i) => i,
        None => return Err(RegistryError::UnknownInstance),
    };
    let to_name = to.to_string();
    let found = reg.position(&to_name);
    let target_next = match found {
        Some(_) => 0,
        None => match sometime_today_after(now) {
            Ok(t) => t,
            Err(_) => return Err(RegistryError::TimeOverflow),
        },
    };
    let to_id: usize = match found {
        Some(k) => k,
        None => reg.len(),
    };
    let t = on_moved(reg.lifecycle(id), reg.hide_from_list(id), to_id as u64, now);
    proof {
        crate::lifecycle::lemma_transitions_keep_wf(
            reg@[id as int].lifecycle,
            false,
            to_id as u64,
            now,
        );
    }
    let next = match Registry::next_check_for(t.reschedule, reg.next_check(id), now) {
        Ok(n) => n,
        Err(e) => return Err(e),
    };
    if found.is_none() {
        reg.push_discovered(to_name, target_next);
    }
    let ghost mid = reg@;
    let ghost h = old(reg)@[id as int].hostname;
    reg.write_row(id, t, next);
    proof {
        let old_v = old(reg)@;
        if found.is_none() {
            assert(reg@.drop_last() =~= old_v.update(id as int, reg@[id as int]));
            assert(reg@[reg@.len() - 1] == mid[mid.len() - 1]);
        }
        assert forall|i: int| 0 <= i < old_v.len() implies if old_v[i].hostname == h {
            row_after(old_v[i], #[trigger] reg@[i], t, now as int)
        } else {
            reg@[i] == old_v[i]
        } by {
            if i != id {
                assert(old_v[i].hostname != old_v[id as int].hostname);
            }
        }
        if found.is_none() {
            assert forall|i: int| 0 <= i < old_v.len() implies if old_v[i].hostname == h {
                row_after(old_v[i], #[trigger] reg@.drop_last()[i], t, now as int)
            } else {
                reg@.drop_last()[i] == old_v[i]
            } by {
                assert(reg@.drop_last()[i] == reg@[i]);
            }
        }
    }
    Ok(())
}

/// Marking an instance alive twice in succession with the same flag `x` leaves it `Alive`
/// with that flag and no auxiliary data, and the second call changes nothing.
pub proof fn lemma_mark_alive_twice(
    v0: Seq<InstanceView>,
    v1: Seq<InstanceView>,
    v2: Seq<InstanceView>,
    h: Seq<char>,
    x: bool,
    now1: i64,
    now2: i64,
)
    requires
        event_outcome(v0, v1, h, alive_spec(v0[id_of_host(v0, h)].lifecycle, x), now1 as int, Ok(())),
        event_outcome(v1, v2, h, alive_spec(v1[id_of_host(v1, h)].lifecycle, x), now2 as int, Ok(())),
    ensures
        v2 == v1,
        forall|i: int|
            0 <= i < v2.len() && #[trigger] v2[i].hostname == h ==> v2[i].lifecycle == Lifecycle::Alive
                && v2[i].hide_from_list == x,
{
    let k = id_of_host(v1, h);
    assert(v1[k].hostname == h);
    assert(v0[k].hostname == h);
    assert forall|i: int| 0 <= i < v1.len() implies #[trigger] v2[i] == v1[i] by {
        if v1[i].hostname == h {
            assert(v0[i].hostname == h);
        }
    }
    assert(v2 =~= v1);
}

} // verus!
