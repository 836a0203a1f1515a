use backend_supervisor::error::{AttemptError, LaunchError, SupervisionError};
use backend_supervisor::policy::{Policy, ProbeSettings};

fn settings(timeout_ms: u32, max_tries: u32, interval_ms: u32) -> ProbeSettings {
    ProbeSettings { address: "127.0.0.1:8765".to_string(), timeout_ms, max_tries, interval_ms }
}

#[test]
fn reference_policy_has_the_reference_values() {
    let policy = Policy::reference();
    assert_eq!(policy.max_attempts, 5);
    assert_eq!(policy.retry_delay_ms, 1000);
    assert_eq!(policy.probe.address, "127.0.0.1:8765");
    assert_eq!(policy.probe.max_tries, 10);
    assert_eq!(policy.probe.interval_ms, 300);
    assert_eq!(policy.probe.timeout_ms, 300);
    assert_eq!(policy.server_dir, vec!["resources".to_string(), "php-server".to_string()]);
}

#[test]
fn policy_without_attempts_is_refused() {
    assert_eq!(Policy::new(0, 1000, settings(300, 10, 300), Vec::new()), None);
}

#[test]
fn policy_with_attempts_keeps_what_it_was_given() {
    let policy = Policy::new(3, 250, settings(100, 4, 50), vec!["php-server".to_string()]);
    let expected = Policy {
        max_attempts: 3,
        retry_delay_ms: 250,
        probe: settings(100, 4, 50),
        server_dir: vec!["php-server".to_string()],
    };
    assert_eq!(policy, Some(expected));
    assert!(Policy::new(1, 0, settings(1, 0, 0), Vec::new()).is_some());
}

#[test]
fn probe_window_is_tries_times_timeout_plus_interval() {
    assert_eq!(settings(300, 10, 300).window_ms(), 6000);
    assert_eq!(settings(0, 10, 300).window_ms(), 3000);
    assert_eq!(settings(200, 3, 50).window_ms(), 750);
    assert_eq!(settings(500, 0, 500).window_ms(), 0);
}

#[test]
fn probe_window_of_the_largest_settings_does_not_overflow() {
    let max: u128 = u32::MAX as u128;
    assert_eq!(settings(u32::MAX, u32::MAX, u32::MAX).window_ms(), max * (max + max));
}

#[test]
fn start_window_is_attempts_times_probe_window_plus_delay() {
    assert_eq!(Policy::reference().window_ms(), 35_000);
    let policy = Policy::new(2, 1000, settings(0, 10, 300), Vec::new()).unwrap();
    assert_eq!(policy.window_ms(), 8000);
    let single = Policy::new(1, 0, settings(10, 1, 5), Vec::new()).unwrap();
    assert_eq!(single.window_ms(), 15);
}

#[test]
fn start_window_of_the_largest_policy_does_not_overflow() {
    let max: u128 = u32::MAX as u128;
    let policy =
        Policy::new(u32::MAX, u32::MAX, settings(u32::MAX, u32::MAX, u32::MAX), Vec::new())
            .unwrap();
    assert_eq!(policy.window_ms(), max * (max * (max + max) + max));
}

#[test]
fn spawn_failure_is_described_in_the_words_of_the_system() {
    let error = AttemptError::SpawnFailed("No such file or directory (os error 2)".to_string());
    assert_eq!(error.describe(), "No such file or directory (os error 2)");
    let surfaced = SupervisionError::AllAttemptsFailed(error);
    assert_eq!(surfaced.message(), "No such file or directory (os error 2)");
}

#[test]
fn probe_timeout_is_described_by_a_fixed_sentence() {
    let surfaced = SupervisionError::AllAttemptsFailed(AttemptError::ProbeTimeout);
    assert_eq!(surfaced.message(), "backend process started but its port never opened");
    assert_eq!(AttemptError::ProbeTimeout.describe(), surfaced.message());
}

#[test]
fn launch_error_becomes_the_error_of_its_attempt() {
    let error = LaunchError::SpawnFailed("permission denied".to_string());
    assert_eq!(
        error.into_attempt_error(),
        AttemptError::SpawnFailed("permission denied".to_string())
    );
}
