use minoru_fediverse_crawler::domain::Domain;
use minoru_fediverse_crawler::lifecycle::{DyingData, InstanceState, Lifecycle, MovedData};
use minoru_fediverse_crawler::registry::{
    add_instance, init, mark_alive, mark_dead, mark_moved, pick_next_instance, reschedule,
    reschedule_missed_checks, Registry, RegistryError,
};

const HOUR: i64 = 3600;
const NOW: i64 = 1_700_000_000;

fn dom(s: &str) -> Domain {
    Domain::from_str(s).unwrap()
}

fn id_of(reg: &Registry, s: &str) -> usize {
    reg.position(&s.to_string()).unwrap()
}

#[test]
fn cold_start_seeds_one_instance() {
    let mut reg = Registry::new();
    init(&mut reg, NOW);
    assert_eq!(reg.len(), 1);
    assert_eq!(reg.hostname(0), "mastodon.social");
    assert_eq!(reg.lifecycle(0), Lifecycle::Discovered);
    assert!(NOW <= reg.next_check(0) && reg.next_check(0) <= NOW + 29 * HOUR);
    assert!(!reg.hide_from_list(0));
    init(&mut reg, NOW + 5);
    assert_eq!(reg.len(), 1);
    assert_eq!(reg.next_check(0), NOW);
}

#[test]
fn add_instance_ignores_known_hosts() {
    let mut reg = Registry::new();
    add_instance(&mut reg, &dom("a.example.com"), NOW).unwrap();
    let first = reg.next_check(0);
    assert!(NOW <= first && first <= NOW + 29 * HOUR);
    add_instance(&mut reg, &dom("a.example.com"), NOW + 100).unwrap();
    assert_eq!(reg.len(), 1);
    assert_eq!(reg.next_check(0), first);
    add_instance(&mut reg, &dom("b.example.com"), NOW).unwrap();
    assert_eq!(reg.len(), 2);
    assert_eq!(reg.lifecycle(1), Lifecycle::Discovered);
    assert_eq!(
        add_instance(&mut reg, &dom("c.example.com"), i64::MAX - HOUR),
        Err(RegistryError::TimeOverflow)
    );
    assert_eq!(reg.len(), 2);
}

#[test]
fn pick_next_returns_the_earliest() {
    let mut reg = Registry::new();
    assert_eq!(pick_next_instance(&reg).unwrap_err(), RegistryError::Empty);
    for h in ["a.example.com", "b.example.com", "c.example.com", "d.example.com"] {
        add_instance(&mut reg, &dom(h), NOW).unwrap();
    }
    let (d, t) = pick_next_instance(&reg).unwrap();
    let min = (0..reg.len()).map(|i| reg.next_check(i)).min().unwrap();
    assert_eq!(t, min);
    let first_min = (0..reg.len()).find(|&i| reg.next_check(i) == min).unwrap();
    assert_eq!(d.as_str(), reg.hostname(first_min).as_str());
}

#[test]
fn pick_next_breaks_ties_by_age() {
    let mut reg = Registry::new();
    init(&mut reg, NOW);
    reschedule_missed_checks(&mut reg, NOW).unwrap();
    let (d, t) = pick_next_instance(&reg).unwrap();
    assert_eq!(d.as_str(), "mastodon.social");
    assert_eq!(t, NOW);
}

#[test]
fn reschedule_follows_the_state() {
    let mut reg = Registry::new();
    init(&mut reg, NOW);
    let m = dom("mastodon.social");
    reschedule(&mut reg, &m, NOW).unwrap();
    let t = reg.next_check(0);
    assert!(NOW + 27 * HOUR <= t && t <= NOW + 31 * HOUR);
    assert_eq!(
        reschedule(&mut reg, &dom("unknown.example.com"), NOW),
        Err(RegistryError::UnknownInstance)
    );
    // seven failures over more than a week make it dead, and dead instances are weekly
    let mut now = NOW;
    for _ in 0..7 {
        mark_dead(&mut reg, &m, now).unwrap();
        now += 29 * HOUR;
    }
    assert_eq!(reg.lifecycle(0), Lifecycle::Dead);
    reschedule(&mut reg, &m, now).unwrap();
    let t = reg.next_check(0);
    assert!(now + 155 * HOUR + 1800 <= t && t <= now + 178 * HOUR + 1800);
}

#[test]
fn missed_checks_move_into_the_next_day() {
    let mut reg = Registry::new();
    init(&mut reg, NOW - 10);
    add_instance(&mut reg, &dom("a.example.com"), NOW + 100 * HOUR).unwrap();
    let later = reg.next_check(1);
    reschedule_missed_checks(&mut reg, NOW).unwrap();
    assert!(NOW <= reg.next_check(0) && reg.next_check(0) <= NOW + 29 * HOUR);
    assert_eq!(reg.next_check(1), later);
    assert_eq!(
        reschedule_missed_checks(&mut reg, i64::MAX - HOUR),
        Err(RegistryError::TimeOverflow)
    );
}

#[test]
fn mark_alive_twice_leaves_alive_with_flag() {
    let mut reg = Registry::new();
    init(&mut reg, NOW);
    let m = dom("mastodon.social");
    mark_dead(&mut reg, &m, NOW).unwrap();
    mark_alive(&mut reg, &m, true, NOW + 1).unwrap();
    mark_alive(&mut reg, &m, true, NOW + 2).unwrap();
    assert_eq!(reg.lifecycle(0), Lifecycle::Alive);
    assert!(reg.hide_from_list(0));
    mark_alive(&mut reg, &m, false, NOW + 3).unwrap();
    mark_alive(&mut reg, &m, false, NOW + 4).unwrap();
    assert!(!reg.hide_from_list(0));
    assert_eq!(
        mark_alive(&mut reg, &dom("unknown.example.com"), false, NOW),
        Err(RegistryError::UnknownInstance)
    );
}

#[test]
fn demotion_needs_seven_failures_over_a_week() {
    let mut reg = Registry::new();
    init(&mut reg, NOW);
    let m = dom("mastodon.social");
    mark_alive(&mut reg, &m, false, NOW).unwrap();
    // six calls spread over more than a week are not enough
    let times: Vec<i64> = (0..7).map(|i| NOW + HOUR + i * 29 * HOUR).collect();
    for (i, t) in times.iter().enumerate() {
        mark_dead(&mut reg, &m, *t).unwrap();
        if i < 6 {
            assert_eq!(
                reg.lifecycle(0),
                Lifecycle::Dying(DyingData {
                    previous_state: InstanceState::Alive,
                    dying_since: times[0],
                    failed_checks_count: i as u64 + 1
                })
            );
        }
    }
    assert_eq!(reg.lifecycle(0), Lifecycle::Dead);
    // dead is final under more failures
    mark_dead(&mut reg, &m, NOW + 1000 * HOUR).unwrap();
    assert_eq!(reg.lifecycle(0), Lifecycle::Dead);
}

#[test]
fn failures_compressed_into_a_week_stay_dying() {
    let mut reg = Registry::new();
    init(&mut reg, NOW);
    let m = dom("mastodon.social");
    mark_alive(&mut reg, &m, false, NOW).unwrap();
    for i in 0..10 {
        mark_dead(&mut reg, &m, NOW + i * 10 * HOUR).unwrap();
    }
    assert!(matches!(reg.lifecycle(0), Lifecycle::Dying(d) if d.failed_checks_count == 10));
}

#[test]
fn redirects_coalesce_into_moved() {
    let mut reg = Registry::new();
    init(&mut reg, NOW);
    let a = dom("a.example.com");
    let b = dom("b.example.com");
    let c = dom("c.example.com");
    add_instance(&mut reg, &a, NOW).unwrap();
    mark_alive(&mut reg, &a, false, NOW).unwrap();
    let ia = id_of(&reg, "a.example.com");
    let mut now = NOW;
    for call in 1..=7 {
        now += if call == 1 { HOUR } else { 29 * HOUR };
        mark_moved(&mut reg, &a, &b, now).unwrap();
        let ib = id_of(&reg, "b.example.com");
        match reg.lifecycle(ia) {
            Lifecycle::Moving(m) => {
                assert!(call < 7);
                assert_eq!(m.redirects_count, call);
                assert_eq!(m.moving_to, ib as u64);
            }
            Lifecycle::Moved(md) => {
                assert_eq!(call, 7);
                assert_eq!(md.moved_to, ib as u64);
            }
            other => panic!("unexpected {:?}", other),
        }
    }
    let ib = id_of(&reg, "b.example.com");
    assert_eq!(reg.lifecycle(ib), Lifecycle::Discovered);
    // a new target sends it back to moving, with the count restarted
    mark_moved(&mut reg, &a, &c, now + HOUR).unwrap();
    let ic = id_of(&reg, "c.example.com");
    match reg.lifecycle(ia) {
        Lifecycle::Moving(m) => {
            assert_eq!(m.redirects_count, 1);
            assert_eq!(m.moving_to, ic as u64);
            assert_eq!(m.moving_since, now + HOUR);
            assert_eq!(m.previous_state, InstanceState::Moved);
        }
        other => panic!("unexpected {:?}", other),
    }
}

#[test]
fn intervening_target_resets_the_count() {
    let mut reg = Registry::new();
    init(&mut reg, NOW);
    let a = dom("a.example.com");
    add_instance(&mut reg, &a, NOW).unwrap();
    let ia = id_of(&reg, "a.example.com");
    for i in 0..3 {
        mark_moved(&mut reg, &a, &dom("b.example.com"), NOW + i).unwrap();
    }
    mark_moved(&mut reg, &a, &dom("c.example.com"), NOW + 10).unwrap();
    let ic = id_of(&reg, "c.example.com");
    match reg.lifecycle(ia) {
        Lifecycle::Moving(m) => {
            assert_eq!(m.redirects_count, 1);
            assert_eq!(m.moving_to, ic as u64);
            assert_eq!(m.moving_since, NOW + 10);
            assert_eq!(m.previous_state, InstanceState::Discovered);
        }
        other => panic!("unexpected {:?}", other),
    }
    assert_eq!(
        mark_moved(&mut reg, &dom("zzz.example.com"), &a, NOW),
        Err(RegistryError::UnknownInstance)
    );
    assert_eq!(reg.position(&"zzz.example.com".to_string()), None);
}

#[test]
fn moved_to_same_target_again_is_a_no_op() {
    let mut reg = Registry::new();
    init(&mut reg, NOW);
    let a = dom("a.example.com");
    let b = dom("b.example.com");
    add_instance(&mut reg, &a, NOW).unwrap();
    let ia = id_of(&reg, "a.example.com");
    let mut now = NOW;
    for _ in 0..7 {
        mark_moved(&mut reg, &a, &b, now).unwrap();
        now += 29 * HOUR;
    }
    let ib = id_of(&reg, "b.example.com");
    assert_eq!(reg.lifecycle(ia), Lifecycle::Moved(MovedData { moved_to: ib as u64 }));
    let next = reg.next_check(ia);
    mark_moved(&mut reg, &a, &b, now).unwrap();
    assert_eq!(reg.lifecycle(ia), Lifecycle::Moved(MovedData { moved_to: ib as u64 }));
    assert_eq!(reg.next_check(ia), next);
    assert!(next >= now - 29 * HOUR + 155 * HOUR + 1800);
}
