use backend_supervisor::policy::ProbeSettings;
use backend_supervisor::prober::{ProbeAction, ProbeEvent, ProbeState, Prober};

fn settings(timeout_ms: u32, max_tries: u32, interval_ms: u32) -> ProbeSettings {
    ProbeSettings { address: "127.0.0.1:8765".to_string(), timeout_ms, max_tries, interval_ms }
}

/// Runs a probe against a backend that accepts the connection numbered
/// `opens_at`, counted from one, and every later one. Returns the verdict and
/// the actions asked for.
fn probe_against(settings: &ProbeSettings, opens_at: Option<u32>) -> (bool, Vec<ProbeAction>) {
    let (mut prober, first) = Prober::begin(settings);
    let mut log: Vec<ProbeAction> = Vec::new();
    let mut tries: u32 = 0;
    let mut next: Option<ProbeAction> = Some(first);
    loop {
        let action = next.expect("a probe in progress answers what it asked for");
        log.push(action);
        let event = match action {
            ProbeAction::Connect => {
                tries += 1;
                if opens_at.map_or(false, |n| tries >= n) {
                    ProbeEvent::Connected
                } else {
                    ProbeEvent::Refused
                }
            }
            ProbeAction::Sleep(_) => ProbeEvent::Slept,
            ProbeAction::Finish(reachable) => {
                assert_eq!(prober.verdict(), Some(reachable));
                return (reachable, log);
            }
        };
        assert_eq!(prober.verdict(), None);
        next = prober.advance(event);
    }
}

fn count(log: &[ProbeAction], wanted: ProbeAction) -> usize {
    log.iter().filter(|a| **a == wanted).count()
}

#[test]
fn probe_succeeds_at_once_when_the_port_is_open() {
    let (reachable, log) = probe_against(&settings(300, 10, 300), Some(1));
    assert!(reachable);
    assert_eq!(log, vec![ProbeAction::Connect, ProbeAction::Finish(true)]);
}

#[test]
fn probe_succeeds_at_the_first_accepted_connection() {
    let (reachable, log) = probe_against(&settings(300, 10, 300), Some(3));
    assert!(reachable);
    assert_eq!(
        log,
        vec![
            ProbeAction::Connect,
            ProbeAction::Sleep(300),
            ProbeAction::Connect,
            ProbeAction::Sleep(300),
            ProbeAction::Connect,
            ProbeAction::Finish(true),
        ]
    );
}

#[test]
fn probe_succeeds_at_the_last_try() {
    let (reachable, log) = probe_against(&settings(300, 10, 300), Some(10));
    assert!(reachable);
    assert_eq!(count(&log, ProbeAction::Connect), 10);
    assert_eq!(count(&log, ProbeAction::Sleep(300)), 9);
}

#[test]
fn probe_fails_after_all_tries_were_refused() {
    let (reachable, log) = probe_against(&settings(300, 10, 300), None);
    assert!(!reachable);
    assert_eq!(count(&log, ProbeAction::Connect), 10);
    assert_eq!(count(&log, ProbeAction::Sleep(300)), 10);
    assert_eq!(log.len(), 21);
    assert_eq!(log.last(), Some(&ProbeAction::Finish(false)));
}

#[test]
fn probe_fails_when_the_port_opens_after_the_last_try() {
    let (reachable, log) = probe_against(&settings(300, 10, 300), Some(11));
    assert!(!reachable);
    assert_eq!(count(&log, ProbeAction::Connect), 10);
}

#[test]
fn probe_with_one_try_pauses_once_before_it_fails() {
    let (reachable, log) = probe_against(&settings(50, 1, 20), None);
    assert!(!reachable);
    assert_eq!(log, vec![ProbeAction::Connect, ProbeAction::Sleep(20), ProbeAction::Finish(false)]);
}

#[test]
fn probe_without_tries_fails_without_connecting() {
    let (prober, first) = Prober::begin(&settings(300, 0, 300));
    assert_eq!(first, ProbeAction::Finish(false));
    assert_eq!(prober.state, ProbeState::Finished(false));
    assert_eq!(prober.verdict(), Some(false));
}

#[test]
fn probe_begins_with_all_its_tries_left() {
    let (prober, first) = Prober::begin(&settings(300, 10, 125));
    assert_eq!(first, ProbeAction::Connect);
    assert_eq!(prober.state, ProbeState::Connecting(10));
    assert_eq!(prober.interval_ms, 125);
}

#[test]
fn prober_ignores_events_it_is_not_waiting_for() {
    let (mut prober, _) = Prober::begin(&settings(300, 2, 300));
    let before = prober;
    assert_eq!(prober.advance(ProbeEvent::Slept), None);
    assert_eq!(prober, before);
    assert_eq!(prober.advance(ProbeEvent::Refused), Some(ProbeAction::Sleep(300)));
    let pausing = prober;
    assert_eq!(prober.advance(ProbeEvent::Connected), None);
    assert_eq!(prober.advance(ProbeEvent::Refused), None);
    assert_eq!(prober, pausing);
    assert_eq!(prober.advance(ProbeEvent::Slept), Some(ProbeAction::Connect));
    assert_eq!(prober.advance(ProbeEvent::Connected), Some(ProbeAction::Finish(true)));
    let done = prober;
    assert_eq!(prober.advance(ProbeEvent::Connected), None);
    assert_eq!(prober.advance(ProbeEvent::Refused), None);
    assert_eq!(prober.advance(ProbeEvent::Slept), None);
    assert_eq!(prober, done);
}

#[test]
fn probe_never_asks_for_more_time_than_its_window() {
    let cases: [(u32, u32, u32); 4] = [(300, 10, 300), (0, 10, 300), (40, 1, 10), (7, 3, 0)];
    for (timeout_ms, max_tries, interval_ms) in cases {
        let s = settings(timeout_ms, max_tries, interval_ms);
        let (_, log) = probe_against(&s, None);
        let mut asked: u128 = 0;
        for action in log {
            asked += match action {
                ProbeAction::Connect => timeout_ms as u128,
                ProbeAction::Sleep(ms) => ms as u128,
                ProbeAction::Finish(_) => 0,
            };
        }
        assert_eq!(asked, s.window_ms());
    }
}
