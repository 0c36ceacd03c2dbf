//! Selection of the instances that go on the published list.
//!
//! An instance is listed when it does not ask to be hidden and it is either alive, dying after
//! having been alive, or moving away after having been alive to a target that is not alive yet
//! (the source stays listed until the destination is confirmed).
use vstd::prelude::*;
use crate::lifecycle::{state_of, InstanceState, Lifecycle};
use crate::registry::{InstanceView, Registry, rows_wf, targets_within};

verus! {

/// The JSON text of an array of strings, as `json::stringify` writes it.
pub uninterp spec fn json_string_array(items: Seq<Seq<char>>) -> Seq<char>;

/// Relies on `json::stringify` over a `Vec<String>`: the JSON array of the strings, which for no
/// strings is `[]`.
#[verifier::external_body]
fn stringify_strings(items: Vec<String>) -> (r: String)
    ensures
        r@ == json_string_array(items@.map_values(|s: String| s@)),
        items@.len() == 0 ==> r@ == "[]"@,
{
    json::stringify(items)
}

/// Whether an instance with lifecycle `l` and hide flag `hide` is listed, where `target_state`
/// is the state of its redirect target when it is `Moving`.
pub open spec fn publishable(l: Lifecycle, target_state: InstanceState, hide: bool) -> bool {
    !hide && match l {
        Lifecycle::Alive => true,
        Lifecycle::Dying(d) => d.previous_state == InstanceState::Alive,
        Lifecycle::Moving(m) => m.previous_state == InstanceState::Alive && target_state
            != InstanceState::Alive,
        _ => false,
    }
}

/// The state of the redirect target of instance `i`, where it is `Moving`.
pub open spec fn target_state(v: Seq<InstanceView>, i: int) -> InstanceState {
    match v[i].lifecycle {
        Lifecycle::Moving(m) => state_of(v[m.moving_to as int].lifecycle),
        _ => InstanceState::Alive,
    }
}

/// Whether instance `i` of the registry's contents `v` is listed.
pub open spec fn listed(v: Seq<InstanceView>, i: int) -> bool {
    publishable(v[i].lifecycle, target_state(v, i), v[i].hide_from_list)
}

/// The hostnames of the listed instances among the first `n`, in id order.
pub open spec fn listed_prefix(v: Seq<InstanceView>, n: int) -> Seq<Seq<char>>
    decreases n,
{
    if n <= 0 {
        Seq::empty()
    } else if listed(v, n - 1) {
        listed_prefix(v, n - 1).push(v[n - 1].hostname)
    } else {
        listed_prefix(v, n - 1)
    }
}

/// The hostnames of all listed instances, in id order.
pub open spec fn listed_hostnames(v: Seq<InstanceView>) -> Seq<Seq<char>> {
    listed_prefix(v, v.len() as int)
}

/// Whether an instance with lifecycle `l` and hide flag `hide` is listed; `target_state` is the
/// state of its redirect target when it is `Moving`, and is not looked at otherwise.
pub fn is_publishable(l: Lifecycle, target_state: InstanceState, hide: bool) -> (r: bool)
    ensures
        r == publishable(l, target_state, hide),
{
    if hide {
        return false;
    }
    match l {
        Lifecycle::Alive => true,
        Lifecycle::Dying(d) => d.previous_state == InstanceState::Alive,
        Lifecycle::Moving(m) => m.previous_state == InstanceState::Alive && target_state
            != InstanceState::Alive,
        _ => false,
    }
}

/// The hostnames of the listed instances, in id order.
pub fn listed_instances(reg: &Registry) -> (r: Vec<String>)
    requires
        reg.wf(),
    ensures
        r@.map_values(|s: String| s@) == listed_hostnames(reg@),
{
    let mut out: Vec<String> = Vec::new();
    let n = reg.len();
    let mut i: usize = 0;
    while i < n
        invariant
            reg.wf(),
            n == reg@.len(),
            0 <= i <= n,
            out@.map_values(|s: String| s@) == listed_prefix(reg@, i as int),
        decreases n - i,
    {
        let l = reg.lifecycle(i);
        let ts = match l {
            Lifecycle::Moving(m) => {
                assert(targets_within(reg@[i as int].lifecycle, reg@.len() as int));
                reg.lifecycle(m.moving_to as usize).state()
            },
            _ => InstanceState::Alive,
        };
        if is_publishable(l, ts, reg.hide_from_list(i)) {
            let h = reg.hostname(i).clone();
            let ghost before = out@;
            out.push(h);
            assert(out@.map_values(|s: String| s@) =~= before.map_values(|s: String| s@).push(
                h@,
            ));
        }
        i += 1;
    }
    out
}

/// The published list made of `hostnames`: a JSON array of them, in order.
pub fn hostnames_json(hostnames: Vec<String>) -> (r: String)
    ensures
        r@ == json_string_array(hostnames@.map_values(|s: String| s@)),
        hostnames@.len() == 0 ==> r@ == "[]"@,
{
    stringify_strings(hostnames)
}

/// The published list: a JSON array of the listed hostnames, in id order.
pub fn generate(reg: &Registry) -> (r: String)
    requires
        reg.wf(),
    ensures
        r@ == json_string_array(listed_hostnames(reg@)),
{
    hostnames_json(listed_instances(reg))
}

/// A hostname is on the list exactly when some listed instance has it.
pub proof fn lemma_listed_prefix_members(v: Seq<InstanceView>, n: int, h: Seq<char>)
    requires
        0 <= n <= v.len(),
    ensures
        listed_prefix(v, n).contains(h) <==> exists|i: int|
            0 <= i < n && listed(v, i) && #[trigger] v[i].hostname == h,
    decreases n,
{
    if n > 0 {
        lemma_listed_prefix_members(v, n - 1, h);
        if listed(v, n - 1) {
            let p = listed_prefix(v, n - 1);
            let x = v[n - 1].hostname;
            let q = p.push(x);
            if q.contains(h) {
                let k = choose|k: int| 0 <= k < q.len() && #[trigger] q[k] == h;
                if k < p.len() {
                    assert(p[k] == h);
                    assert(p.contains(h));
                }
            }
            if p.contains(h) {
                let k = choose|k: int| 0 <= k < p.len() && #[trigger] p[k] == h;
                assert(q[k] == h);
            }
            if x == h {
                assert(q[p.len() as int] == h);
            }
        }
    }
}

/// The published list holds exactly the hostnames of the instances that are listed: alive,
/// dying after being alive, or moving after being alive to a target that is not alive, and not
/// hidden. Each appears once.
pub proof fn lemma_generate_lists_exactly(v: Seq<InstanceView>)
    requires
        rows_wf(v),
    ensures
        forall|h: Seq<char>|
            #[trigger] listed_hostnames(v).contains(h) <==> exists|i: int|
                0 <= i < v.len() && listed(v, i) && #[trigger] v[i].hostname == h,
        listed_hostnames(v).no_duplicates(),
{
    assert forall|h: Seq<char>|
        #[trigger] listed_hostnames(v).contains(h) <==> exists|i: int|
            0 <= i < v.len() && listed(v, i) && #[trigger] v[i].hostname == h by {
        lemma_listed_prefix_members(v, v.len() as int, h);
    }
    lemma_listed_prefix_unique(v, v.len() as int);
}

/// The listed hostnames among the first `n` instances are distinct.
proof fn lemma_listed_prefix_unique(v: Seq<InstanceView>, n: int)
    requires
        rows_wf(v),
        0 <= n <= v.len(),
    ensures
        listed_prefix(v, n).no_duplicates(),
    decreases n,
{
    if n > 0 {
        lemma_listed_prefix_unique(v, n - 1);
        if listed(v, n - 1) {
            let p = listed_prefix(v, n - 1);
            let h = v[n - 1].hostname;
            lemma_listed_prefix_members(v, n - 1, h);
            if p.contains(h) {
                let i = choose|i: int| 0 <= i < n - 1 && listed(v, i) && #[trigger] v[i].hostname == h;
                assert(v[i].hostname != v[n - 1].hostname);
            }
            assert(!p.contains(h));
            let q = p.push(h);
            assert forall|a: int, b: int| 0 <= a < q.len() && 0 <= b < q.len() && a != b implies q[a]
                != q[b] by {
                if a < p.len() && b < p.len() {
                    assert(p[a] != p[b]);
                } else if a < p.len() {
                    assert(p.contains(p[a]));
                } else {
                    assert(p.contains(p[b]));
                }
            }
        }
    }
}

} // verus!
