//! The orchestrator's side of the checker protocol.
//!
//! A checker reports on one instance. Its first message must be a state; after an `Alive` state
//! it may list peers, one per message, and nothing else. From those messages alone the
//! orchestrator decides what happened to the instance:
//!
//! * no message at all: the instance is dead;
//! * a peer before any state: a protocol violation, and the instance is dead;
//! * `Alive`: the instance is alive, and each valid peer is added to the registry;
//! * `Moving`: a temporary redirect, so the instance is unreachable for now: dead;
//! * `Moved` to the instance itself, or to something that is not a valid domain: dead;
//! * `Moved` to another valid domain: the instance moved there.
use vstd::prelude::*;
use crate::domain::{is_valid_domain, parses_as_domain_name, Domain, DomainError, Host};
use crate::ipc::{CheckerResponse, InstanceState};
use crate::lifecycle::{alive_spec, dead_spec, DyingData, InstanceState as LifecycleState, Lifecycle};
use crate::registry::{
    add_instance, changed_one, event_outcome, has_host, id_of_host, mark_alive, mark_dead,
    mark_moved, moved_outcome, row_after, rows_wf, InstanceView, Registry, RegistryError,
};
use crate::time::in_today_window;

verus! {

/// An illegal sequence of checker messages.
#[derive(Debug, Clone, Copy, PartialEq, Eq)]
pub enum ProtocolViolation {
    /// The first message was a peer rather than a state.
    PeerBeforeState,
    /// A state came after the first message.
    StateAfterState,
}

/// Why a check counts as a failure.
#[derive(Debug, Clone, Copy, PartialEq, Eq)]
pub enum DeathCause {
    /// The checker sent nothing.
    NoResponse,
    /// The checker sent a peer before any state.
    PeerBeforeState,
    /// The instance redirected temporarily.
    TemporaryRedirect,
    /// The instance redirected permanently to itself.
    SelfRedirect,
    /// The instance redirected permanently to a host that is not a valid domain.
    InvalidTarget(DomainError),
}

/// What the first message of a checker says about the instance.
#[derive(Debug, Clone)]
pub enum Verdict {
    /// The instance is alive; peers may follow.
    Alive { hide_from_list: bool },
    /// The check failed.
    Dead(DeathCause),
    /// The instance moved permanently to another domain.
    Moved(Domain),
}

/// A verdict as the contracts see it.
pub enum Decision {
    Alive(bool),
    Dead(DeathCause),
    Moved(Seq<char>),
}

/// The view of a verdict.
pub open spec fn verdict_view(v: Verdict) -> Decision {
    match v {
        Verdict::Alive { hide_from_list } => Decision::Alive(hide_from_list),
        Verdict::Dead(c) => Decision::Dead(c),
        Verdict::Moved(d) => Decision::Moved(d@),
    }
}

/// Why the domain name `s` is not valid.
pub open spec fn domain_error(s: Seq<char>) -> DomainError {
    if !parses_as_domain_name(s) {
        DomainError::Syntax
    } else {
        DomainError::UnknownSuffix
    }
}

/// The decision for a permanent redirect of the instance `target` to `to`.
pub open spec fn decide_moved(target: Seq<char>, to: Host) -> Decision {
    match to {
        Host::Domain(s) => if !is_valid_domain(s@) {
            Decision::Dead(DeathCause::InvalidTarget(domain_error(s@)))
        } else if s@ == target {
            Decision::Dead(DeathCause::SelfRedirect)
        } else {
            Decision::Moved(s@)
        },
        Host::Ipv4(_) => Decision::Dead(DeathCause::InvalidTarget(DomainError::Ipv4)),
        Host::Ipv6(_) => Decision::Dead(DeathCause::InvalidTarget(DomainError::Ipv6)),
    }
}

/// The decision for the instance `target` given the checker's first message, if any.
pub open spec fn decide(target: Seq<char>, first: Option<CheckerResponse>) -> Decision {
    match first {
        None => Decision::Dead(DeathCause::NoResponse),
        Some(CheckerResponse::Peer { .. }) => Decision::Dead(DeathCause::PeerBeforeState),
        Some(CheckerResponse::State { state }) => match state {
            InstanceState::Alive { hide_from_list } => Decision::Alive(hide_from_list),
            InstanceState::Moving { .. } => Decision::Dead(DeathCause::TemporaryRedirect),
            InstanceState::Moved { to } => decide_moved(target, to),
        },
    }
}

/// What the checker's first message, if any, says about the instance `target`.
pub fn first_verdict(target: &Domain, first: Option<&CheckerResponse>) -> (r: Verdict)
    ensures
        verdict_view(r) == decide(
            target@,
            match first {
                Some(c) => Some(*c),
                None => None,
            },
        ),
        r is Moved ==> r->Moved_0.wf(),
{
    match first {
        None => Verdict::Dead(DeathCause::NoResponse),
        Some(CheckerResponse::Peer { .. }) => Verdict::Dead(DeathCause::PeerBeforeState),
        Some(CheckerResponse::State { state }) => match state {
            InstanceState::Alive { hide_from_list } => Verdict::Alive {
                hide_from_list: *hide_from_list,
            },
            InstanceState::Moving { .. } => Verdict::Dead(DeathCause::TemporaryRedirect),
            InstanceState::Moved { to } => match Domain::from_host(to) {
                Ok(d) => {
                    if d.same_as(target) {
                        Verdict::Dead(DeathCause::SelfRedirect)
                    } else {
                        Verdict::Moved(d)
                    }
                },
                Err(e) => Verdict::Dead(DeathCause::InvalidTarget(e)),
            },
        },
    }
}

/// The valid domain a message after an `Alive` state names, if any.
pub open spec fn peer_host(c: CheckerResponse) -> Option<Seq<char>> {
    match c {
        CheckerResponse::Peer { peer: Host::Domain(s) } => if is_valid_domain(s@) {
            Some(s@)
        } else {
            None
        },
        _ => None,
    }
}

/// A message after an `Alive` state: a peer, which is a valid domain or is skipped for the
/// reason given, or a protocol violation.
pub fn peer_line(c: &CheckerResponse) -> (r: Result<Result<Domain, DomainError>, ProtocolViolation>)
    ensures
        c is State <==> r == Err::<Result<Domain, DomainError>, ProtocolViolation>(
            ProtocolViolation::StateAfterState,
        ),
        match r {
            Ok(Ok(d)) => peer_host(*c) == Some(d@) && d.wf(),
            Ok(Err(_)) => c is Peer && peer_host(*c) is None,
            Err(_) => c is State,
        },
{
    match c {
        CheckerResponse::State { .. } => Err(ProtocolViolation::StateAfterState),
        CheckerResponse::Peer { peer } => Ok(Domain::from_host(peer)),
    }
}

/// Why processing a checker's messages failed.
#[derive(Debug, Clone, Copy, PartialEq, Eq)]
pub enum CheckError {
    /// Recording the outcome in the registry failed.
    Registry(RegistryError),
    /// The checker broke the protocol; what could be recorded was.
    Protocol(ProtocolViolation),
}

/// The index of the first state message at or after `i`, or the number of messages if none.
pub open spec fn first_state_from(rs: Seq<CheckerResponse>, i: int) -> int
    decreases rs.len() - i,
{
    if i >= rs.len() {
        rs.len() as int
    } else if rs[i] is State {
        i
    } else {
        first_state_from(rs, i + 1)
    }
}

/// Where the peers that follow an `Alive` state end: at the next state message, if any.
pub open spec fn peer_stop(rs: Seq<CheckerResponse>) -> int {
    first_state_from(rs, 1)
}

/// Whether a message after the first and before `n` names the valid domain `h` as a peer.
pub open spec fn reported_peer(rs: Seq<CheckerResponse>, n: int, h: Seq<char>) -> bool {
    exists|j: int| 1 <= j < n && #[trigger] peer_host(rs[j]) == Some(h)
}

/// How many messages after the first and before `n` name a valid domain as a peer.
pub open spec fn peer_count(rs: Seq<CheckerResponse>, n: int) -> nat
    decreases n,
{
    if n <= 1 {
        0
    } else {
        peer_count(rs, n - 1) + if peer_host(rs[n - 1]) is Some {
            1nat
        } else {
            0nat
        }
    }
}

/// `new` is `old` with discovered instances appended, each a peer reported before `stop`; and,
/// where new check times cannot overflow, every peer reported before `stop` is in `new`.
pub open spec fn peers_added(
    old: Seq<InstanceView>,
    new: Seq<InstanceView>,
    rs: Seq<CheckerResponse>,
    stop: int,
    now: int,
) -> bool {
    &&& new.len() >= old.len()
    &&& new.take(old.len() as int) == old
    &&& forall|k: int|
        old.len() <= k < new.len() ==> {
            &&& (#[trigger] new[k]).lifecycle == Lifecycle::Discovered
            &&& !new[k].hide_from_list
            &&& in_today_window(now, new[k].next_check as int)
            &&& reported_peer(rs, stop, new[k].hostname)
        }
    &&& now + 29 * 3600 <= i64::MAX ==> forall|h: Seq<char>|
        #[trigger] reported_peer(rs, stop, h) ==> has_host(new, h)
}

/// The first message of `rs`, if any.
pub open spec fn first_of(rs: Seq<CheckerResponse>) -> Option<CheckerResponse> {
    if rs.len() > 0 {
        Some(rs[0])
    } else {
        None
    }
}

/// The outcome of processing the messages `rs` about the instance named `h` at `now`.
pub open spec fn check_outcome(
    v0: Seq<InstanceView>,
    v1: Seq<InstanceView>,
    h: Seq<char>,
    rs: Seq<CheckerResponse>,
    now: i64,
    r: Result<u64, CheckError>,
) -> bool {
    let row = v0[id_of_host(v0, h)];
    match decide(h, first_of(rs)) {
        Decision::Dead(c) => {
            let t = dead_spec(row.lifecycle, row.hide_from_list, now);
            match r {
                Err(CheckError::Registry(e)) => event_outcome(v0, v1, h, t, now as int, Err(e)),
                Err(CheckError::Protocol(p)) => p == ProtocolViolation::PeerBeforeState && c
                    == DeathCause::PeerBeforeState && event_outcome(v0, v1, h, t, now as int, Ok(())),
                Ok(n) => n == 0 && c != DeathCause::PeerBeforeState && event_outcome(
                    v0,
                    v1,
                    h,
                    t,
                    now as int,
                    Ok(()),
                ),
            }
        },
        Decision::Moved(to) => match r {
            Err(CheckError::Registry(e)) => moved_outcome(v0, v1, h, to, now, Err(e)),
            Err(CheckError::Protocol(_)) => false,
            Ok(n) => n == 0 && moved_outcome(v0, v1, h, to, now, Ok(())),
        },
        Decision::Alive(hide) => {
            let t = alive_spec(row.lifecycle, hide);
            let stop = peer_stop(rs);
            match r {
                Err(CheckError::Registry(e)) => event_outcome(v0, v1, h, t, now as int, Err(e)),
                _ => {
                    &&& has_host(v0, h)
                    &&& changed_one(v0, v1.take(v0.len() as int), h, t, now as int)
                    &&& peers_added(v1.take(v0.len() as int), v1, rs, stop, now as int)
                    &&& r is Ok <==> stop == rs.len()
                    &&& r is Err ==> r == Err::<u64, CheckError>(
                        CheckError::Protocol(ProtocolViolation::StateAfterState),
                    )
                    &&& r is Ok && now + 29 * 3600 <= i64::MAX ==> r->Ok_0 == if peer_count(
                        rs,
                        stop,
                    ) < u64::MAX {
                        peer_count(rs, stop)
                    } else {
                        u64::MAX as nat
                    }
                },
            }
        },
    }
}

/// `first_state_from` finds the first state message.
proof fn lemma_first_state(rs: Seq<CheckerResponse>, a: int, i: int)
    requires
        1 <= a <= i <= rs.len(),
        forall|j: int| a <= j < i ==> (#[trigger] rs[j]) is Peer,
        i == rs.len() || rs[i] is State,
    ensures
        first_state_from(rs, a) == i,
    decreases i - a,
{
    if a < i {
        lemma_first_state(rs, a + 1, i);
    }
}

/// Adding to a sequence of instances keeps every hostname it had.
proof fn lemma_has_host_push(v: Seq<InstanceView>, x: InstanceView, h: Seq<char>)
    ensures
        has_host(v.push(x), h) <==> (has_host(v, h) || x.hostname == h),
{
    let w = v.push(x);
    if has_host(v, h) {
        let k = choose|k: int| 0 <= k < v.len() && #[trigger] v[k].hostname == h;
        assert(w[k].hostname == h);
    }
    if x.hostname == h {
        assert(w[v.len() as int].hostname == h);
    }
    if has_host(w, h) {
        let k = choose|k: int| 0 <= k < w.len() && #[trigger] w[k].hostname == h;
        if k < v.len() {
            assert(v[k].hostname == h);
        }
    }
}

/// One more message processed: what `v` became is `w`, with at most the peer that message
/// names appended.
proof fn lemma_peers_step(
    v0: Seq<InstanceView>,
    v: Seq<InstanceView>,
    w: Seq<InstanceView>,
    rs: Seq<CheckerResponse>,
    ii: int,
    now: int,
)
    requires
        1 <= ii < rs.len(),
        peers_added(v0, v, rs, ii, now),
        w.len() >= v.len(),
        w.take(v.len() as int) == v,
        forall|k: int|
            v.len() <= k < w.len() ==> {
                &&& (#[trigger] w[k]).lifecycle == Lifecycle::Discovered
                &&& !w[k].hide_from_list
                &&& in_today_window(now, w[k].next_check as int)
                &&& peer_host(rs[ii]) == Some(w[k].hostname)
            },
        forall|h: Seq<char>| has_host(v, h) ==> #[trigger] has_host(w, h),
        now + 29 * 3600 <= i64::MAX && peer_host(rs[ii]) is Some ==> has_host(
            w,
            peer_host(rs[ii])->Some_0,
        ),
    ensures
        peers_added(v0, w, rs, ii + 1, now),
{
    assert forall|h: Seq<char>| reported_peer(rs, ii + 1, h) <==> (reported_peer(rs, ii, h)
        || peer_host(rs[ii]) == Some(h)) by {
        if reported_peer(rs, ii + 1, h) {
            let j = choose|j: int| 1 <= j < ii + 1 && #[trigger] peer_host(rs[j]) == Some(h);
            if j < ii {
                assert(reported_peer(rs, ii, h));
            }
        }
        if peer_host(rs[ii]) == Some(h) {
            assert(1 <= ii < ii + 1 && peer_host(rs[ii]) == Some(h));
        }
        if reported_peer(rs, ii, h) {
            let j = choose|j: int| 1 <= j < ii && #[trigger] peer_host(rs[j]) == Some(h);
            assert(1 <= j < ii + 1 && peer_host(rs[j]) == Some(h));
        }
    }
    assert(w.take(v0.len() as int) =~= v0) by {
        assert(w.take(v0.len() as int) =~= w.take(v.len() as int).take(v0.len() as int));
    }
    assert forall|k: int| v0.len() <= k < w.len() implies {
        &&& (#[trigger] w[k]).lifecycle == Lifecycle::Discovered
        &&& !w[k].hide_from_list
        &&& in_today_window(now, w[k].next_check as int)
        &&& reported_peer(rs, ii + 1, w[k].hostname)
    } by {
        if k < v.len() {
            assert(w[k] == w.take(v.len() as int)[k]);
            assert(w[k] == v[k]);
        }
    }
    if now + 29 * 3600 <= i64::MAX {
        assert forall|h: Seq<char>| #[trigger] reported_peer(rs, ii + 1, h) implies has_host(
            w,
            h,
        ) by {
            if reported_peer(rs, ii, h) {
                assert(has_host(v, h));
            }
        }
    }
}

/// Add the valid peers that the messages after an `Alive` state name, until a state message.
fn add_peers(reg: &mut Registry, responses: &Vec<CheckerResponse>, now: i64) -> (r: Result<
    u64,
    ProtocolViolation,
>)
    requires
        old(reg).wf(),
        old(reg)@.len() + responses@.len() + 1 < u64::MAX,
    ensures
        final(reg).wf(),
        peers_added(old(reg)@, final(reg)@, responses@, peer_stop(responses@), now as int),
        r is Ok <==> peer_stop(responses@) == responses@.len(),
        r is Err ==> r == Err::<u64, ProtocolViolation>(ProtocolViolation::StateAfterState),
        r is Ok && now + 29 * 3600 <= i64::MAX ==> r->Ok_0 == if peer_count(
            responses@,
            peer_stop(responses@),
        ) < u64::MAX {
            peer_count(responses@, peer_stop(responses@))
        } else {
            u64::MAX as nat
        },
{
    let ghost rs = responses@;
    let ghost v0 = old(reg)@;
    let n = responses.len();
    let mut count: u64 = 0;
    if n <= 1 {
        proof {
            if n == 1 {
                lemma_first_state(rs, 1, 1);
            }
            assert(reg@.take(v0.len() as int) =~= v0);
        }
        return Ok(0);
    }
    let mut i: usize = 1;
    proof {
        assert(reg@.take(v0.len() as int) =~= v0);
    }
    while i < n
        invariant
            reg.wf(),
            n == rs.len(),
            rs == responses@,
            v0 == old(reg)@,
            1 <= i <= n,
            v0.len() <= reg@.len() <= v0.len() + i - 1,
            v0.len() + rs.len() + 1 < u64::MAX,
            forall|j: int| 1 <= j < i ==> (#[trigger] rs[j]) is Peer,
            peers_added(v0, reg@, rs, i as int, now as int),
            now + 29 * 3600 <= i64::MAX ==> count == if peer_count(rs, i as int) < u64::MAX {
                peer_count(rs, i as int)
            } else {
                u64::MAX as nat
            },
        decreases n - i,
    {
        let ghost v = reg@;
        let ghost ii = i as int;
        match peer_line(&responses[i]) {
            Err(e) => {
                proof {
                    lemma_first_state(rs, 1, ii);
                }
                return Err(e);
            },
            Ok(Err(_)) => {
                proof {
                    assert(reg@.take(v.len() as int) =~= v);
                    lemma_peers_step(v0, v, reg@, rs, ii, now as int);
                }
            },
            Ok(Ok(d)) => {
                let added = add_instance(reg, &d, now);
                proof {
                    if added is Ok && !has_host(v, d@) {
                        let x = reg@.last();
                        assert(reg@ =~= v.push(x));
                        assert forall|h: Seq<char>| has_host(v, h) implies #[trigger] has_host(
                            reg@,
                            h,
                        ) by {
                            lemma_has_host_push(v, x, h);
                        }
                        lemma_has_host_push(v, x, d@);
                        assert(reg@.take(v.len() as int) =~= v);
                        assert(reg@[v.len() as int] == x);
                    } else {
                        assert(reg@.take(v.len() as int) =~= v);
                    }
                    lemma_peers_step(v0, v, reg@, rs, ii, now as int);
                }
                match added {
                    Ok(_) => {
                        count = count.saturating_add(1);
                    },
                    Err(_) => {},
                }
            },
        }
        i += 1;
    }
    proof {
        lemma_first_state(rs, 1, rs.len() as int);
    }
    Ok(count)
}

/// Process a checker's messages about the instance `target`, received at `now`, and record the
/// outcome in the registry. Returns how many valid peers were recorded, which saturates at
/// `u64::MAX`.
pub fn process_checker_response(
    reg: &mut Registry,
    target: &Domain,
    responses: &Vec<CheckerResponse>,
    now: i64,
) -> (r: Result<u64, CheckError>)
    requires
        old(reg).wf(),
        old(reg)@.len() + responses@.len() + 1 < u64::MAX,
    ensures
        final(reg).wf(),
        check_outcome(old(reg)@, final(reg)@, target@, responses@, now, r),
{
    let first = if responses.len() > 0 {
        Some(&responses[0])
    } else {
        None
    };
    match first_verdict(target, first) {
        Verdict::Dead(cause) => {
            match mark_dead(reg, target, now) {
                Ok(_) => {},
                Err(e) => return Err(CheckError::Registry(e)),
            }
            match cause {
                DeathCause::PeerBeforeState => Err(
                    CheckError::Protocol(ProtocolViolation::PeerBeforeState),
                ),
                _ => Ok(0),
            }
        },
        Verdict::Moved(to) => match mark_moved(reg, target, &to, now) {
            Ok(_) => Ok(0),
            Err(e) => Err(CheckError::Registry(e)),
        },
        Verdict::Alive { hide_from_list } => {
            match mark_alive(reg, target, hide_from_list, now) {
                Ok(_) => {},
                Err(e) => return Err(CheckError::Registry(e)),
            }
            let ghost v_mid = reg@;
            let added = add_peers(reg, responses, now);
            proof {
                assert(reg@.take(old(reg)@.len() as int) == v_mid);
            }
            match added {
                Ok(n) => Ok(n),
                Err(e) => Err(CheckError::Protocol(e)),
            }
        },
    }
}

/// Peer discovery is additive: when an instance reports itself alive and then `peers`, valid
/// and distinct domains that the registry did not hold, exactly one `Discovered` instance per
/// peer is added, and the instances that were there keep their hostnames; all but the checked
/// one are untouched.
pub proof fn lemma_peer_discovery_additive(
    v0: Seq<InstanceView>,
    v1: Seq<InstanceView>,
    h: Seq<char>,
    rs: Seq<CheckerResponse>,
    peers: Seq<Seq<char>>,
    now: i64,
    r: Result<u64, CheckError>,
)
    requires
        rows_wf(v1),
        check_outcome(v0, v1, h, rs, now, r),
        !(r matches Err(CheckError::Registry(_))),
        now + 29 * 3600 <= i64::MAX,
        rs.len() == peers.len() + 1,
        rs[0] matches CheckerResponse::State { state: InstanceState::Alive { .. } },
        forall|j: int| 1 <= j < rs.len() ==> #[trigger] peer_host(rs[j]) == Some(peers[j - 1]),
        peers.no_duplicates(),
        forall|p: Seq<char>| #[trigger] peers.contains(p) ==> !has_host(v0, p),
    ensures
        r == Ok::<u64, CheckError>(peers.len() as u64),
        v1.len() == v0.len() + peers.len(),
        forall|k: int| v0.len() <= k < v1.len() ==> (#[trigger] v1[k]).lifecycle
            == Lifecycle::Discovered,
        forall|i: int|
            0 <= i < v0.len() ==> (#[trigger] v1[i]).hostname == v0[i].hostname && (v0[i].hostname
                != h ==> v1[i] == v0[i]),
{
    assert forall|j: int| 1 <= j < rs.len() implies (#[trigger] rs[j]) is Peer by {
        assert(peer_host(rs[j]) is Some);
    }
    lemma_first_state(rs, 1, rs.len() as int);
    let stop = rs.len() as int;
    let n0 = v0.len() as int;
    let mid = v1.take(n0);
    assert forall|m: int| 1 <= m <= stop implies #[trigger] peer_count(rs, m) == m - 1 by {
        lemma_peer_count_all(rs, m);
    }
    let newh = Seq::new((v1.len() - n0) as nat, |k: int| v1[n0 + k].hostname);
    assert(newh.no_duplicates()) by {
        assert forall|a: int, b: int| 0 <= a < newh.len() && 0 <= b < newh.len() && a != b implies newh[a]
            != newh[b] by {
            assert(v1[n0 + a].hostname != v1[n0 + b].hostname);
        }
    }
    assert forall|x: Seq<char>| newh.contains(x) <==> peers.contains(x) by {
        if newh.contains(x) {
            let k = choose|k: int| 0 <= k < newh.len() && newh[k] == x;
            assert(v1[n0 + k].hostname == x);
            assert(reported_peer(rs, stop, x));
            let j = choose|j: int| 1 <= j < stop && #[trigger] peer_host(rs[j]) == Some(x);
            assert(peers[j - 1] == x);
        }
        if peers.contains(x) {
            let j = choose|j: int| 0 <= j < peers.len() && peers[j] == x;
            assert(peer_host(rs[j + 1]) == Some(x));
            assert(reported_peer(rs, stop, x));
            assert(has_host(v1, x));
            let k = choose|k: int| 0 <= k < v1.len() && #[trigger] v1[k].hostname == x;
            if k < n0 {
                assert(mid[k] == v1[k]);
                assert(mid[k].hostname == v0[k].hostname);
                assert(has_host(v0, x));
            }
            assert(newh[k - n0] == x);
        }
    }
    assert(newh.to_set() =~= peers.to_set());
    newh.unique_seq_to_set();
    peers.unique_seq_to_set();
    assert forall|i: int| 0 <= i < n0 implies (#[trigger] v1[i]).hostname == v0[i].hostname && (
    v0[i].hostname != h ==> v1[i] == v0[i]) by {
        assert(mid[i] == v1[i]);
    }
}

/// With no message or more, all of them peers, every valid peer is counted once.
proof fn lemma_peer_count_all(rs: Seq<CheckerResponse>, m: int)
    requires
        1 <= m <= rs.len(),
        forall|j: int| 1 <= j < rs.len() ==> #[trigger] peer_host(rs[j]) is Some,
    ensures
        peer_count(rs, m) == m - 1,
    decreases m,
{
    if m > 1 {
        lemma_peer_count_all(rs, m - 1);
    }
}

/// A checker that sends nothing, or a peer first, about an `Alive` instance leaves it `Dying`
/// since `now` after one failure, having been `Alive`; a peer first is reported as a protocol
/// violation.
pub proof fn lemma_silent_or_unordered_checker(
    v0: Seq<InstanceView>,
    v1: Seq<InstanceView>,
    h: Seq<char>,
    rs: Seq<CheckerResponse>,
    now: i64,
    r: Result<u64, CheckError>,
)
    requires
        has_host(v0, h),
        v0[id_of_host(v0, h)].lifecycle == Lifecycle::Alive,
        check_outcome(v0, v1, h, rs, now, r),
        rs.len() == 0 || rs[0] is Peer,
    ensures
        v1[id_of_host(v0, h)].lifecycle == Lifecycle::Dying(
            DyingData {
                previous_state: LifecycleState::Alive,
                dying_since: now,
                failed_checks_count: 1,
            },
        ),
        rs.len() == 0 ==> r == Ok::<u64, CheckError>(0),
        rs.len() > 0 ==> r == Err::<u64, CheckError>(
            CheckError::Protocol(ProtocolViolation::PeerBeforeState),
        ),
{
    let i = id_of_host(v0, h);
    assert(v0[i].hostname == h);
    let t = dead_spec(v0[i].lifecycle, v0[i].hide_from_list, now);
    assert(row_after(v0[i], v1[i], t, now as int));
}

} // verus!
