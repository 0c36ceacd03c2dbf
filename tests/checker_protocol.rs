use minoru_fediverse_crawler::domain::{Domain, DomainError, Host};
use minoru_fediverse_crawler::ipc::{CheckerResponse, InstanceState as Reported};
use minoru_fediverse_crawler::lifecycle::{DyingData, InstanceState, Lifecycle, MovingData};
use minoru_fediverse_crawler::protocol::{
    first_verdict, peer_line, process_checker_response, CheckError, DeathCause,
    ProtocolViolation, Verdict,
};
use minoru_fediverse_crawler::registry::{
    add_instance, init, mark_alive, mark_moved, Registry, RegistryError,
};

const HOUR: i64 = 3600;
const NOW: i64 = 1_700_000_000;

fn dom(s: &str) -> Domain {
    Domain::from_str(s).unwrap()
}

fn host(s: &str) -> Host {
    Host::Domain(s.to_string())
}

fn alive(hide: bool) -> CheckerResponse {
    CheckerResponse::State { state: Reported::Alive { hide_from_list: hide } }
}

fn moved(to: &str) -> CheckerResponse {
    CheckerResponse::State { state: Reported::Moved { to: host(to) } }
}

fn peer(p: &str) -> CheckerResponse {
    CheckerResponse::Peer { peer: host(p) }
}

fn id_of(reg: &Registry, s: &str) -> usize {
    reg.position(&s.to_string()).unwrap()
}

#[test]
fn first_successful_check_adds_peers() {
    let mut reg = Registry::new();
    init(&mut reg, NOW);
    let m = dom("mastodon.social");
    let stream = vec![alive(false), peer("pleroma.example.com"), peer("misskey.example.com")];
    assert_eq!(process_checker_response(&mut reg, &m, &stream, NOW), Ok(2));
    assert_eq!(reg.lifecycle(0), Lifecycle::Alive);
    assert!(!reg.hide_from_list(0));
    assert_eq!(reg.len(), 3);
    for h in ["pleroma.example.com", "misskey.example.com"] {
        let i = id_of(&reg, h);
        assert_eq!(reg.lifecycle(i), Lifecycle::Discovered);
        assert!(NOW <= reg.next_check(i) && reg.next_check(i) <= NOW + 29 * HOUR);
    }
}

#[test]
fn peer_discovery_is_additive() {
    let mut reg = Registry::new();
    init(&mut reg, NOW);
    add_instance(&mut reg, &dom("known.example.com"), NOW).unwrap();
    let known_next = reg.next_check(1);
    let m = dom("mastodon.social");
    let stream = vec![
        alive(true),
        peer("one.example.com"),
        peer("known.example.com"),
        peer("two.example.com"),
        peer("three.example.com"),
        peer("127.0.0.1"),
        CheckerResponse::Peer { peer: Host::Ipv4([10, 0, 0, 1]) },
    ];
    assert_eq!(process_checker_response(&mut reg, &m, &stream, NOW), Ok(4));
    assert_eq!(reg.len(), 5);
    assert_eq!(reg.next_check(1), known_next);
    assert_eq!(reg.lifecycle(1), Lifecycle::Discovered);
    assert!(reg.hide_from_list(0));
    for i in 2..5 {
        assert_eq!(reg.lifecycle(i), Lifecycle::Discovered);
    }
}

#[test]
fn silent_checker_means_dying() {
    let mut reg = Registry::new();
    init(&mut reg, NOW);
    let m = dom("mastodon.social");
    mark_alive(&mut reg, &m, false, NOW).unwrap();
    assert_eq!(process_checker_response(&mut reg, &m, &vec![], NOW + 5), Ok(0));
    assert_eq!(
        reg.lifecycle(0),
        Lifecycle::Dying(DyingData { previous_state: InstanceState::Alive, dying_since: NOW + 5, failed_checks_count: 1 })
    );
}

#[test]
fn peer_first_is_a_violation_and_dying() {
    let mut reg = Registry::new();
    init(&mut reg, NOW);
    let m = dom("mastodon.social");
    mark_alive(&mut reg, &m, false, NOW).unwrap();
    let stream = vec![peer("pleroma.example.com"), alive(false)];
    assert_eq!(
        process_checker_response(&mut reg, &m, &stream, NOW + 5),
        Err(CheckError::Protocol(ProtocolViolation::PeerBeforeState))
    );
    assert!(matches!(reg.lifecycle(0), Lifecycle::Dying(d) if d.previous_state == InstanceState::Alive));
    assert_eq!(reg.len(), 1);
}

#[test]
fn state_after_peers_is_a_violation() {
    let mut reg = Registry::new();
    init(&mut reg, NOW);
    let m = dom("mastodon.social");
    let stream = vec![alive(false), peer("one.example.com"), alive(false), peer("two.example.com")];
    assert_eq!(
        process_checker_response(&mut reg, &m, &stream, NOW),
        Err(CheckError::Protocol(ProtocolViolation::StateAfterState))
    );
    assert_eq!(reg.lifecycle(0), Lifecycle::Alive);
    assert_eq!(reg.len(), 2);
    assert!(reg.position(&"two.example.com".to_string()).is_none());
}

#[test]
fn redirect_promotion_after_seven_reports() {
    let mut reg = Registry::new();
    init(&mut reg, NOW);
    let a = dom("a.example.com");
    add_instance(&mut reg, &a, NOW).unwrap();
    mark_alive(&mut reg, &a, false, NOW).unwrap();
    let ia = id_of(&reg, "a.example.com");
    let mut now = NOW + HOUR;
    for _ in 0..7 {
        assert_eq!(process_checker_response(&mut reg, &a, &vec![moved("b.example.com")], now), Ok(0));
        now += 29 * HOUR;
    }
    let ib = id_of(&reg, "b.example.com");
    assert_eq!(reg.lifecycle(ia), Lifecycle::Moved(minoru_fediverse_crawler::lifecycle::MovedData { moved_to: ib as u64 }));
    assert_eq!(reg.lifecycle(ib), Lifecycle::Discovered);
}

#[test]
fn self_redirect_counts_as_dead() {
    let mut reg = Registry::new();
    init(&mut reg, NOW);
    let x = dom("x.example.com");
    add_instance(&mut reg, &x, NOW).unwrap();
    mark_alive(&mut reg, &x, false, NOW).unwrap();
    let ix = id_of(&reg, "x.example.com");
    assert_eq!(process_checker_response(&mut reg, &x, &vec![moved("x.example.com")], NOW + 1), Ok(0));
    assert!(matches!(reg.lifecycle(ix), Lifecycle::Dying(d) if d.previous_state == InstanceState::Alive));
    assert_eq!(reg.len(), 2);
}

#[test]
fn moving_destination_change_restarts_count() {
    let mut reg = Registry::new();
    init(&mut reg, NOW);
    let m = dom("m.example.com");
    add_instance(&mut reg, &m, NOW).unwrap();
    let im = id_of(&reg, "m.example.com");
    for i in 0..3 {
        mark_moved(&mut reg, &m, &dom("n.example.com"), NOW + i).unwrap();
    }
    assert!(matches!(reg.lifecycle(im), Lifecycle::Moving(d) if d.redirects_count == 3));
    let later = NOW + 50 * HOUR;
    assert_eq!(process_checker_response(&mut reg, &m, &vec![moved("o.example.com")], later), Ok(0));
    let io = id_of(&reg, "o.example.com");
    assert_eq!(
        reg.lifecycle(im),
        Lifecycle::Moving(MovingData { previous_state: InstanceState::Discovered, moving_since: later, redirects_count: 1, moving_to: io as u64 })
    );
}

#[test]
fn temporary_redirect_and_bad_targets_count_as_dead() {
    let mut reg = Registry::new();
    init(&mut reg, NOW);
    let m = dom("mastodon.social");
    let moving = CheckerResponse::State { state: Reported::Moving { to: host("b.example.com") } };
    assert_eq!(process_checker_response(&mut reg, &m, &vec![moving], NOW), Ok(0));
    assert!(matches!(reg.lifecycle(0), Lifecycle::Dying(d) if d.failed_checks_count == 1));
    assert_eq!(process_checker_response(&mut reg, &m, &vec![moved("example.i2p")], NOW + 1), Ok(0));
    assert!(matches!(reg.lifecycle(0), Lifecycle::Dying(d) if d.failed_checks_count == 2));
    assert_eq!(reg.len(), 1);
}

#[test]
fn unknown_target_instance_is_reported() {
    let mut reg = Registry::new();
    assert_eq!(
        process_checker_response(&mut reg, &dom("mastodon.social"), &vec![alive(false)], NOW),
        Err(CheckError::Registry(RegistryError::UnknownInstance))
    );
}

#[test]
fn verdicts_follow_the_first_message() {
    let t = dom("a.example.com");
    assert!(matches!(first_verdict(&t, None), Verdict::Dead(DeathCause::NoResponse)));
    assert!(matches!(first_verdict(&t, Some(&peer("b.example.com"))), Verdict::Dead(DeathCause::PeerBeforeState)));
    assert!(matches!(first_verdict(&t, Some(&alive(true))), Verdict::Alive { hide_from_list: true }));
    assert!(matches!(first_verdict(&t, Some(&moved("a.example.com"))), Verdict::Dead(DeathCause::SelfRedirect)));
    assert!(matches!(
        first_verdict(&t, Some(&moved("example.i2p"))),
        Verdict::Dead(DeathCause::InvalidTarget(DomainError::UnknownSuffix))
    ));
    assert!(matches!(
        first_verdict(&t, Some(&CheckerResponse::State { state: Reported::Moved { to: Host::Ipv4([1, 2, 3, 4]) } })),
        Verdict::Dead(DeathCause::InvalidTarget(DomainError::Ipv4))
    ));
    match first_verdict(&t, Some(&moved("b.example.com"))) {
        Verdict::Moved(d) => assert_eq!(d.as_str(), "b.example.com"),
        other => panic!("unexpected {:?}", other),
    }
}

#[test]
fn peer_lines_are_checked() {
    assert_eq!(peer_line(&alive(false)).unwrap_err(), ProtocolViolation::StateAfterState);
    assert_eq!(peer_line(&peer("a.example.com")).unwrap().unwrap().as_str(), "a.example.com");
    assert_eq!(peer_line(&peer("8.8.8.8")).unwrap().unwrap_err(), DomainError::Syntax);
}
