//! The configurable policy of the supervisor: how often to try, how long to
//! wait, where the backend listens and where its startup script lives.

use vstd::prelude::*;

verus! {

/// How the readiness of the backend is probed.
#[derive(Clone, Debug, PartialEq, Eq)]
pub struct ProbeSettings {
    /// Address and port the backend listens on, as `host:port`.
    pub address: String,
    /// Longest time one connection attempt may take, in milliseconds.
    pub timeout_ms: u32,
    /// Number of connection attempts before the probe gives up.
    pub max_tries: u32,
    /// Pause after a failed connection attempt, in milliseconds.
    pub interval_ms: u32,
}

/// The supervisor's policy.
#[derive(Clone, Debug, PartialEq, Eq)]
pub struct Policy {
    /// Number of launch attempts before `start` gives up; at least one. A
    /// supervisor that is handed a policy with none still makes one attempt.
    pub max_attempts: u32,
    /// Pause after a failed launch attempt, in milliseconds.
    pub retry_delay_ms: u32,
    /// How readiness is probed after a successful spawn.
    pub probe: ProbeSettings,
    /// Directories that lead from the resource root to the directory of the
    /// startup script, outermost first.
    pub server_dir: Vec<String>,
}

/// Upper bound on the time one probe may block: every try may use up its
/// timeout and is followed by one pause.
pub open spec fn probe_window(timeout_ms: int, max_tries: int, interval_ms: int) -> int {
    max_tries * (timeout_ms + interval_ms)
}

/// Upper bound on the time `start` may spend probing and pausing: every
/// attempt may use up the probe window and is followed by one delay.
pub open spec fn start_window(max_attempts: int, window_ms: int, retry_delay_ms: int) -> int {
    max_attempts * (window_ms + retry_delay_ms)
}

impl ProbeSettings {
    /// The probe window of these settings, in milliseconds.
    pub open spec fn window(self) -> int {
        probe_window(self.timeout_ms as int, self.max_tries as int, self.interval_ms as int)
    }

    pub fn window_ms(&self) -> (ms: u128)
        ensures
            ms == self.window(),
    {
        let per_try: u128 = self.timeout_ms as u128 + self.interval_ms as u128;
        assert(0 <= (self.max_tries as int) * (per_try as int) <= 0x1_0000_0000 * 0x2_0000_0000)
            by (nonlinear_arith)
            requires
                0 <= self.max_tries as int <= 0x1_0000_0000,
                0 <= per_try as int <= 0x2_0000_0000,
        ;
        self.max_tries as u128 * per_try
    }
}

impl Policy {
    /// A policy is valid when it allows at least one launch attempt.
    pub open spec fn wf(self) -> bool {
        self.max_attempts >= 1
    }

    /// The start window of this policy, in milliseconds.
    pub open spec fn window(self) -> int {
        start_window(self.max_attempts as int, self.probe.window(), self.retry_delay_ms as int)
    }

    /// Builds a policy, or nothing when `max_attempts` is zero.
    pub fn new(
        max_attempts: u32,
        retry_delay_ms: u32,
        probe: ProbeSettings,
        server_dir: Vec<String>,
    ) -> (policy: Option<Policy>)
        ensures
            policy is Some <==> max_attempts >= 1,
            policy matches Some(p) ==> p == (Policy { max_attempts, retry_delay_ms, probe, server_dir }),
    {
        if max_attempts == 0 {
            None
        } else {
            Some(Policy { max_attempts, retry_delay_ms, probe, server_dir })
        }
    }

    /// The reference policy: five attempts one second apart, each probing
    /// `127.0.0.1:8765` up to ten times at 300 ms spacing, with the startup
    /// script under `resources/php-server`.
    pub fn reference() -> (policy: Policy)
        ensures
            policy.wf(),
            policy.max_attempts == 5,
            policy.retry_delay_ms == 1000,
            policy.probe.address@ == "127.0.0.1:8765"@,
            policy.probe.timeout_ms == 300,
            policy.probe.max_tries == 10,
            policy.probe.interval_ms == 300,
            policy.server_dir@.len() == 2,
            policy.server_dir@[0]@ == "resources"@,
            policy.server_dir@[1]@ == "php-server"@,
    {
        let mut server_dir: Vec<String> = Vec::new();
        server_dir.push("resources".to_owned());
        server_dir.push("php-server".to_owned());
        Policy {
            max_attempts: 5,
            retry_delay_ms: 1000,
            probe: ProbeSettings {
                address: "127.0.0.1:8765".to_owned(),
                timeout_ms: 300,
                max_tries: 10,
                interval_ms: 300,
            },
            server_dir,
        }
    }

    pub fn window_ms(&self) -> (ms: u128)
        ensures
            ms == self.window(),
    {
        let window: u128 = self.probe.window_ms();
        assert(0 <= self.probe.window() <= 0x1_0000_0000 * 0x2_0000_0000) by (nonlinear_arith)
            requires
                self.probe.window() == (self.probe.max_tries as int) * (self.probe.timeout_ms as int
                    + self.probe.interval_ms as int),
                0 <= self.probe.max_tries as int <= 0x1_0000_0000,
                0 <= self.probe.timeout_ms as int + self.probe.interval_ms as int <= 0x2_0000_0000,
        ;
        let per_attempt: u128 = window + self.retry_delay_ms as u128;
        assert(0 <= (self.max_attempts as int) * (per_attempt as int) <= 0x1_0000_0000
            * 0x2_0000_0001_0000_0000) by (nonlinear_arith)
            requires
                0 <= self.max_attempts as int <= 0x1_0000_0000,
                0 <= per_attempt as int <= 0x2_0000_0001_0000_0000,
        ;
        self.max_attempts as u128 * per_attempt
    }
}

} // verus!
