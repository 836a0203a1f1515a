//! The process supervisor: it decides when to launch the backend, when to
//! probe it, when to kill a process that never became reachable, when to try
//! again and when to give up, and how a recorded process is terminated.
//!
//! The supervisor touches no process itself. It asks for each step with an
//! [`Action`], and the caller reports the outcome with an [`Event`].

use vstd::prelude::*;
use crate::error::{AttemptError, LaunchError, SupervisionError};
use crate::launch::LaunchConfig;
use crate::platform::Platform;
use crate::policy::Policy;

verus! {

/// What the caller reports to the supervisor.
#[derive(Debug, PartialEq, Eq)]
pub enum Event {
    /// The launch is over: a process with this identifier exists, or none
    /// could be created.
    Launched(Result<u32, LaunchError>),
    /// The readiness probe is over: the backend is reachable or it is not.
    Probed(bool),
    /// The kill was issued. Whether it succeeded is of no interest.
    Killed,
    /// The delay is over.
    Delayed,
}

/// What the supervisor asks of the caller.
#[derive(Debug, PartialEq, Eq)]
pub enum Action {
    /// Spawn a process from the supervisor's launch configuration.
    Launch,
    /// Probe the backend's address for readiness.
    Probe,
    /// Kill the process with this identifier.
    Kill(u32),
    /// Wait for this many milliseconds.
    Delay(u32),
    /// `start` is over, with this result.
    Finish(Result<(), SupervisionError>),
}

/// Where a launch attempt stands.
#[derive(Clone, Debug, PartialEq, Eq)]
pub enum Stage {
    /// The spawn is under way.
    Launching,
    /// The process with this identifier was spawned and is being probed.
    Probing(u32),
    /// The process with this identifier never became reachable; its kill is
    /// under way.
    Killing(u32),
    /// The attempt has failed with this error; the delay that follows it is
    /// under way.
    Delaying(AttemptError),
}

/// A `start` in progress.
#[derive(Clone, Debug, PartialEq, Eq)]
pub struct Run {
    /// How the backend is launched in every attempt of this run.
    pub config: LaunchConfig,
    /// The number of the attempt under way, counted from one.
    pub attempt: u32,
    /// Where that attempt stands.
    pub stage: Stage,
}

/// The one backend process that a supervisor records.
#[derive(Clone, Copy, Debug, PartialEq, Eq, Structural)]
pub struct SupervisedProcess {
    /// The identifier of the process.
    pub pid: u32,
    /// The number of launch attempts that it took to start it.
    pub attempts: u32,
}

/// The supervisor's state. Only `Absent` and `Running` show outside a
/// `start`.
#[derive(Clone, Debug, PartialEq, Eq)]
pub enum State {
    /// No process is recorded.
    Absent,
    /// No process is recorded yet; a `start` is in progress.
    Starting(Run),
    /// This process is recorded. It was reachable when it was recorded.
    Running(SupervisedProcess),
}

/// The supervisor's state as the host sees it.
#[derive(Clone, Copy, Debug, PartialEq, Eq, Structural)]
pub enum Status {
    /// No process is recorded.
    Absent,
    /// This process is recorded.
    Running(SupervisedProcess),
}

/// One step of terminating a process.
#[derive(Clone, Copy, Debug, PartialEq, Eq, Structural)]
pub enum Termination {
    /// Forcefully end the process and every process it started.
    TreeKill(u32),
    /// Kill the process.
    Kill(u32),
    /// Block until the process has exited.
    Wait(u32),
}

/// What `state` looks like from outside.
pub open spec fn status_of(state: State) -> Status {
    match state {
        State::Running(process) => Status::Running(process),
        _ => Status::Absent,
    }
}

/// The answer to a request to start with `config`: the first launch, from
/// `Absent`; nothing, where a process is recorded or a start is in progress.
pub open spec fn launch_step(state: State, config: LaunchConfig) -> (State, Option<Action>) {
    match state {
        State::Absent => (
            State::Starting(Run { config, attempt: 1, stage: Stage::Launching }),
            Some(Action::Launch),
        ),
        _ => (state, None),
    }
}

/// The answer of a start in progress to one event.
///
/// A spawned process is probed. A reachable one is recorded, and the start
/// succeeds. An unreachable one is killed. A failed attempt, whether the
/// spawn failed or the process was killed, is followed by the retry delay,
/// and the delay by the next attempt, or, when the policy allows no more,
/// by the failure of the start with the error of the last attempt. An event
/// that answers nothing the start is waiting for changes nothing and gets no
/// action.
pub open spec fn run_step(policy: Policy, run: Run, event: Event) -> (State, Option<Action>) {
    match (run.stage, event) {
        (Stage::Launching, Event::Launched(Ok(pid))) => (
            State::Starting(Run { stage: Stage::Probing(pid), ..run }),
            Some(Action::Probe),
        ),
        (Stage::Launching, Event::Launched(Err(e))) => (
            State::Starting(Run { stage: Stage::Delaying(e.as_attempt_error()), ..run }),
            Some(Action::Delay(policy.retry_delay_ms)),
        ),
        (Stage::Probing(pid), Event::Probed(true)) => (
            State::Running(SupervisedProcess { pid, attempts: run.attempt }),
            Some(Action::Finish(Ok(()))),
        ),
        (Stage::Probing(pid), Event::Probed(false)) => (
            State::Starting(Run { stage: Stage::Killing(pid), ..run }),
            Some(Action::Kill(pid)),
        ),
        (Stage::Killing(_), Event::Killed) => (
            State::Starting(Run { stage: Stage::Delaying(AttemptError::ProbeTimeout), ..run }),
            Some(Action::Delay(policy.retry_delay_ms)),
        ),
        (Stage::Delaying(e), Event::Delayed) => if run.attempt < policy.max_attempts {
            (
                State::Starting(
                    Run { attempt: (run.attempt + 1) as u32, stage: Stage::Launching, ..run },
                ),
                Some(Action::Launch),
            )
        } else {
            (State::Absent, Some(Action::Finish(Err(SupervisionError::AllAttemptsFailed(e)))))
        },
        _ => (State::Starting(run), None),
    }
}

/// The supervisor's answer to one event: that of the start in progress, or
/// nothing where none is.
pub open spec fn event_step(policy: Policy, state: State, event: Event) -> (State, Option<Action>) {
    match state {
        State::Starting(run) => run_step(policy, run, event),
        _ => (state, None),
    }
}

/// How a recorded process is terminated: killed, after a forceful kill of
/// its whole tree where the platform needs one, and then awaited.
pub open spec fn termination_plan(platform: Platform, pid: u32) -> Seq<Termination> {
    if platform.kills_tree() {
        seq![Termination::TreeKill(pid), Termination::Kill(pid), Termination::Wait(pid)]
    } else {
        seq![Termination::Kill(pid), Termination::Wait(pid)]
    }
}

/// The answer to a request to stop: a recorded process is given up and
/// terminated; otherwise nothing changes and nothing is to be done.
pub open spec fn stop_step(platform: Platform, state: State) -> (State, Seq<Termination>) {
    match state {
        State::Running(process) => (State::Absent, termination_plan(platform, process.pid)),
        _ => (state, Seq::<Termination>::empty()),
    }
}

impl Run {
    /// Takes in one event and gives the state that follows and the action
    /// asked for.
    pub fn react(self, policy: &Policy, event: Event) -> (r: (State, Option<Action>))
        ensures
            r == run_step(*policy, self, event),
    {
        let Run { config, attempt, stage } = self;
        match (stage, event) {
            (Stage::Launching, Event::Launched(Ok(pid))) => (
                State::Starting(Run { config, attempt, stage: Stage::Probing(pid) }),
                Some(Action::Probe),
            ),
            (Stage::Launching, Event::Launched(Err(e))) => (
                State::Starting(
                    Run { config, attempt, stage: Stage::Delaying(e.into_attempt_error()) },
                ),
                Some(Action::Delay(policy.retry_delay_ms)),
            ),
            (Stage::Probing(pid), Event::Probed(true)) => (
                State::Running(SupervisedProcess { pid, attempts: attempt }),
                Some(Action::Finish(Ok(()))),
            ),
            (Stage::Probing(pid), Event::Probed(false)) => (
                State::Starting(Run { config, attempt, stage: Stage::Killing(pid) }),
                Some(Action::Kill(pid)),
            ),
            (Stage::Killing(_), Event::Killed) => (
                State::Starting(
                    Run { config, attempt, stage: Stage::Delaying(AttemptError::ProbeTimeout) },
                ),
                Some(Action::Delay(policy.retry_delay_ms)),
            ),
            (Stage::Delaying(e), Event::Delayed) => {
                if attempt < policy.max_attempts {
                    (
                        State::Starting(
                            Run { config, attempt: attempt + 1, stage: Stage::Launching },
                        ),
                        Some(Action::Launch),
                    )
                } else {
                    (
                        State::Absent,
                        Some(Action::Finish(Err(SupervisionError::AllAttemptsFailed(e)))),
                    )
                }
            },
            (stage, _) => (State::Starting(Run { config, attempt, stage }), None),
        }
    }
}

/// What a supervisor is made of.
pub struct Model {
    pub platform: Platform,
    pub policy: Policy,
    pub state: State,
}

/// The supervisor of one backend process: the platform it runs on, its
/// policy, and the slot that records at most one process.
#[derive(Debug)]
pub struct Supervisor {
    platform: Platform,
    policy: Policy,
    state: State,
}

impl View for Supervisor {
    type V = Model;

    closed spec fn view(&self) -> Model {
        Model { platform: self.platform, policy: self.policy, state: self.state }
    }
}

impl Supervisor {
    /// A supervisor that records no process.
    pub fn new(platform: Platform, policy: Policy) -> (s: Supervisor)
        ensures
            s@ == (Model { platform, policy, state: State::Absent }),
    {
        Supervisor { platform, policy, state: State::Absent }
    }

    /// Asks to start the backend with `config`. The answer is the first
    /// launch, or nothing where a process is recorded or a start is already
    /// in progress.
    pub fn start_with(&mut self, config: LaunchConfig) -> (action: Option<Action>)
        ensures
            final(self)@.platform == old(self)@.platform,
            final(self)@.policy == old(self)@.policy,
            (final(self)@.state, action) == launch_step(old(self)@.state, config),
    {
        match self.state {
            State::Absent => {
                self.state = State::Starting(Run { config, attempt: 1, stage: Stage::Launching });
                Some(Action::Launch)
            },
            _ => None,
        }
    }

    /// Asks to start the backend whose startup script lies under
    /// `resource_root`. The launch configuration is built for the
    /// supervisor's platform from `resource_root` and the policy's server
    /// directory, and the start goes on as `start_with` says.
    pub fn start(&mut self, resource_root: &str) -> (action: Option<Action>)
        ensures
            final(self)@.platform == old(self)@.platform,
            final(self)@.policy == old(self)@.policy,
            old(self)@.state !is Absent ==> action is None && final(self)@.state == old(self)@.state,
            old(self)@.state is Absent ==> {
                &&& final(self)@.state matches State::Starting(run)
                &&& run.config.wf()
                &&& run.config.platform == old(self)@.platform
                &&& (final(self)@.state, action) == launch_step(old(self)@.state, run.config)
            },
    {
        match self.state {
            State::Absent => {
                let config = LaunchConfig::locate(self.platform, resource_root, &self.policy.server_dir);
                self.start_with(config)
            },
            _ => None,
        }
    }

    /// Takes in one event and says what to do next. An event that answers
    /// nothing the supervisor is waiting for changes nothing and gets no
    /// action.
    pub fn advance(&mut self, event: Event) -> (action: Option<Action>)
        ensures
            final(self)@.platform == old(self)@.platform,
            final(self)@.policy == old(self)@.policy,
            (final(self)@.state, action) == event_step(old(self)@.policy, old(self)@.state, event),
    {
        let mut state = State::Absent;
        core::mem::swap(&mut self.state, &mut state);
        match state {
            State::Starting(run) => {
                let (next, action) = run.react(&self.policy, event);
                self.state = next;
                action
            },
            other => {
                self.state = other;
                None
            },
        }
    }

    /// Gives up the recorded process, if there is one, and says how to
    /// terminate it. Where none is recorded nothing changes and the plan is
    /// empty.
    pub fn stop(&mut self) -> (plan: Vec<Termination>)
        ensures
            final(self)@.platform == old(self)@.platform,
            final(self)@.policy == old(self)@.policy,
            (final(self)@.state, plan@) == stop_step(old(self)@.platform, old(self)@.state),
    {
        let mut plan: Vec<Termination> = Vec::new();
        match self.state {
            State::Running(SupervisedProcess { pid, .. }) => {
                if self.platform.needs_tree_kill() {
                    plan.push(Termination::TreeKill(pid));
                }
                plan.push(Termination::Kill(pid));
                plan.push(Termination::Wait(pid));
                self.state = State::Absent;
            },
            _ => {},
        }
        assert(plan@ =~= stop_step(old(self)@.platform, old(self)@.state).1);
        plan
    }

    /// What the host sees: `Running` with the recorded process, or `Absent`.
    pub fn status(&self) -> (status: Status)
        ensures
            status == status_of(self@.state),
    {
        match self.state {
            State::Running(process) => Status::Running(process),
            _ => Status::Absent,
        }
    }

    /// The platform this supervisor was made for.
    pub fn platform(&self) -> (platform: Platform)
        ensures
            platform == self@.platform,
    {
        self.platform
    }

    /// The policy this supervisor follows.
    pub fn policy(&self) -> (policy: &Policy)
        ensures
            *policy == self@.policy,
    {
        &self.policy
    }

    /// The launch configuration of the start in progress.
    pub fn launch_config(&self) -> (config: Option<&LaunchConfig>)
        ensures
            config == match self@.state {
                State::Starting(run) => Some(&run.config),
                _ => None::<&LaunchConfig>,
            },
    {
        match &self.state {
            State::Starting(run) => Some(&run.config),
            _ => None,
        }
    }

    /// The number of the launch attempt under way, counted from one.
    pub fn attempt(&self) -> (attempt: Option<u32>)
        ensures
            attempt == match self@.state {
                State::Starting(run) => Some(run.attempt),
                _ => None::<u32>,
            },
    {
        match &self.state {
            State::Starting(run) => Some(run.attempt),
            _ => None,
        }
    }
}

/// Stopping a supervisor that records no process changes nothing and asks
/// for nothing.
pub proof fn stop_without_process_does_nothing(platform: Platform, state: State)
    requires
        status_of(state) == Status::Absent,
    ensures
        stop_step(platform, state) == (state, Seq::<Termination>::empty()),
{
}

/// Stopping a supervisor that records a process leaves it without one, and
/// the plan ends with the kill of that process and the wait for its exit;
/// where the platform needs it, the kill of the whole tree comes first.
pub proof fn stop_terminates_recorded_process(platform: Platform, process: SupervisedProcess)
    ensures
        ({
            let pid = process.pid;
            let (state, plan) = stop_step(platform, State::Running(process));
            &&& state == State::Absent
            &&& status_of(state) == Status::Absent
            &&& plan.len() >= 2
            &&& plan[plan.len() - 2] == Termination::Kill(pid)
            &&& plan.last() == Termination::Wait(pid)
            &&& platform.kills_tree() ==> plan.len() == 3 && plan[0] == Termination::TreeKill(pid)
            &&& !platform.kills_tree() ==> plan.len() == 2
        }),
{
}

/// A second stop right after a first changes nothing and asks for nothing:
/// stopping twice is stopping once.
pub proof fn stop_twice_is_stop_once(platform: Platform, state: State)
    ensures
        ({
            let (once, _) = stop_step(platform, state);
            stop_step(platform, once) == (once, Seq::<Termination>::empty())
        }),
{
}

} // verus!
