//! Whole runs of the supervisor: what a `start` amounts to when the caller
//! reports a sequence of events, and what holds of every such run.

use vstd::prelude::*;
use crate::error::{AttemptError, LaunchError, SupervisionError};
use crate::launch::LaunchConfig;
use crate::policy::Policy;
use crate::platform::Platform;
use crate::supervisor::{event_step, launch_step, status_of, stop_step};
use crate::supervisor::{
    Action, Event, Run, Stage, State, Status, SupervisedProcess, Termination,
};

verus! {

/// The state a supervisor reaches from `state` when the events of `events`
/// are reported in turn, and the actions it asks for on the way.
pub open spec fn run(policy: Policy, state: State, events: Seq<Event>) -> (State, Seq<Action>)
    decreases events.len(),
{
    if events.len() == 0 {
        (state, Seq::<Action>::empty())
    } else {
        let (next, action) = event_step(policy, state, events.first());
        let (last, actions) = run(policy, next, events.drop_first());
        (
            last,
            match action {
                Some(a) => seq![a] + actions,
                None => actions,
            },
        )
    }
}

/// How one launch attempt ends.
pub enum Outcome {
    /// No process could be created.
    SpawnFailed(LaunchError),
    /// The process with this identifier was created and never became
    /// reachable.
    Unreachable(u32),
    /// The process with this identifier was created and became reachable.
    Ready(u32),
}

impl Outcome {
    /// The events that the caller reports in the course of an attempt that
    /// ends like this.
    pub open spec fn events(self) -> Seq<Event> {
        match self {
            Outcome::SpawnFailed(e) => seq![Event::Launched(Err(e)), Event::Delayed],
            Outcome::Unreachable(pid) => seq![
                Event::Launched(Ok(pid)),
                Event::Probed(false),
                Event::Killed,
                Event::Delayed,
            ],
            Outcome::Ready(pid) => seq![Event::Launched(Ok(pid)), Event::Probed(true)],
        }
    }

    /// The error of an attempt that ends like this, if it fails.
    pub open spec fn failure(self) -> Option<AttemptError> {
        match self {
            Outcome::SpawnFailed(e) => Some(e.as_attempt_error()),
            Outcome::Unreachable(_) => Some(AttemptError::ProbeTimeout),
            Outcome::Ready(_) => None,
        }
    }

    /// What is done within an attempt that ends like this, after its launch:
    /// a process is probed; a reachable one ends the start; an unreachable
    /// one is killed; a failure is followed by the retry delay.
    pub open spec fn handling(self, policy: Policy) -> Seq<Action> {
        match self {
            Outcome::SpawnFailed(_) => seq![Action::Delay(policy.retry_delay_ms)],
            Outcome::Unreachable(pid) => seq![
                Action::Probe,
                Action::Kill(pid),
                Action::Delay(policy.retry_delay_ms),
            ],
            Outcome::Ready(_) => seq![Action::Probe, Action::Finish(Ok(()))],
        }
    }
}

/// The events of a series of attempts, one attempt after the other.
pub open spec fn script(outcomes: Seq<Outcome>) -> Seq<Event>
    decreases outcomes.len(),
{
    if outcomes.len() == 0 {
        Seq::<Event>::empty()
    } else {
        outcomes.first().events() + script(outcomes.drop_first())
    }
}

/// The retry loop of `start`, from the launch of attempt number `attempt`
/// on: the state it ends in and the actions it takes after that launch, when
/// the attempts end as `outcomes` says.
///
/// The first attempt that is ready records its process and ends the loop
/// with success. A failed attempt is followed by the next launch while the
/// policy allows one, and else ends the loop with the attempt's error.
/// Outcomes beyond the end of the loop play no part. Where the outcomes run
/// out first, the loop stands at the launch of the next attempt.
pub open spec fn retry_loop(
    policy: Policy,
    config: LaunchConfig,
    attempt: u32,
    outcomes: Seq<Outcome>,
) -> (State, Seq<Action>)
    decreases outcomes.len(),
{
    if outcomes.len() == 0 {
        (State::Starting(Run { config, attempt, stage: Stage::Launching }), Seq::<Action>::empty())
    } else {
        let outcome = outcomes.first();
        match outcome {
            Outcome::Ready(pid) => (
                State::Running(SupervisedProcess { pid, attempts: attempt }),
                outcome.handling(policy),
            ),
            _ => if attempt < policy.max_attempts {
                let (state, actions) = retry_loop(
                    policy,
                    config,
                    (attempt + 1) as u32,
                    outcomes.drop_first(),
                );
                (state, outcome.handling(policy) + seq![Action::Launch] + actions)
            } else {
                (
                    State::Absent,
                    outcome.handling(policy) + seq![
                        Action::Finish(
                            Err(SupervisionError::AllAttemptsFailed(outcome.failure().unwrap())),
                        ),
                    ],
                )
            },
        }
    }
}

/// The number of launches among `actions`.
pub open spec fn launches(actions: Seq<Action>) -> nat
    decreases actions.len(),
{
    if actions.len() == 0 {
        0
    } else {
        launches(actions.drop_first()) + if actions.first() is Launch {
            1nat
        } else {
            0nat
        }
    }
}

/// The processes that `actions` asks to kill, in that order.
pub open spec fn kills(actions: Seq<Action>) -> Seq<u32>
    decreases actions.len(),
{
    if actions.len() == 0 {
        Seq::<u32>::empty()
    } else {
        (match actions.first() {
            Action::Kill(pid) => seq![pid],
            _ => Seq::<u32>::empty(),
        }) + kills(actions.drop_first())
    }
}

/// The processes that come into being while the supervisor goes from
/// `state` through `events`, in that order: one for each successful launch
/// that the supervisor was waiting for.
pub open spec fn spawns(policy: Policy, state: State, events: Seq<Event>) -> Seq<u32>
    decreases events.len(),
{
    if events.len() == 0 {
        Seq::<u32>::empty()
    } else {
        (match (state, events.first()) {
            (State::Starting(run), Event::Launched(Ok(pid))) => if run.stage is Launching {
                seq![pid]
            } else {
                Seq::<u32>::empty()
            },
            _ => Seq::<u32>::empty(),
        }) + spawns(policy, event_step(policy, state, events.first()).0, events.drop_first())
    }
}

/// The process that the supervisor holds in `state`: the one it has
/// recorded, or the one it has spawned and is probing.
pub open spec fn held(state: State) -> Seq<u32> {
    match state {
        State::Running(process) => seq![process.pid],
        State::Starting(run) => match run.stage {
            Stage::Probing(pid) => seq![pid],
            _ => Seq::<u32>::empty(),
        },
        State::Absent => Seq::<u32>::empty(),
    }
}

proof fn lemma_run_cons(policy: Policy, state: State, event: Event, rest: Seq<Event>)
    ensures
        run(policy, state, seq![event] + rest) == ({
            let (next, action) = event_step(policy, state, event);
            let (last, actions) = run(policy, next, rest);
            (
                last,
                match action {
                    Some(a) => seq![a] + actions,
                    None => actions,
                },
            )
        }),
{
    let events = seq![event] + rest;
    assert(events.first() == event);
    assert(events.drop_first() =~= rest);
}

proof fn lemma_run_settled(policy: Policy, state: State, events: Seq<Event>)
    requires
        state !is Starting,
    ensures
        run(policy, state, events) == (state, Seq::<Action>::empty()),
    decreases events.len(),
{
    if events.len() > 0 {
        lemma_run_settled(policy, state, events.drop_first());
    }
}

/// Reporting the events of a series of attempts to a supervisor that has
/// just asked for the launch of attempt number `attempt` leads where the
/// retry loop leads, by the actions that the retry loop takes.
pub proof fn run_follows_retry_loop(
    policy: Policy,
    config: LaunchConfig,
    attempt: u32,
    outcomes: Seq<Outcome>,
)
    ensures
        run(
            policy,
            State::Starting(Run { config, attempt, stage: Stage::Launching }),
            script(outcomes),
        ) == retry_loop(policy, config, attempt, outcomes),
    decreases outcomes.len(),
{
    let start = Run { config, attempt, stage: Stage::Launching };
    if outcomes.len() > 0 {
        let outcome = outcomes.first();
        let rest = script(outcomes.drop_first());
        let delay = Action::Delay(policy.retry_delay_ms);
        let after = if attempt < policy.max_attempts {
            State::Starting(Run { attempt: (attempt + 1) as u32, ..start })
        } else {
            State::Absent
        };
        if attempt < policy.max_attempts {
            run_follows_retry_loop(policy, config, (attempt + 1) as u32, outcomes.drop_first());
        } else {
            lemma_run_settled(policy, after, rest);
        }
        match outcome {
            Outcome::SpawnFailed(e) => {
                let e0 = Event::Launched(Err(e));
                let s1 = State::Starting(Run { stage: Stage::Delaying(e.as_attempt_error()), ..start });
                assert(script(outcomes) =~= seq![e0] + (seq![Event::Delayed] + rest));
                lemma_run_cons(policy, State::Starting(start), e0, seq![Event::Delayed] + rest);
                lemma_run_cons(policy, s1, Event::Delayed, rest);
                let tail = run(policy, after, rest).1;
                if attempt < policy.max_attempts {
                    assert(seq![delay] + (seq![Action::Launch] + tail) =~= outcome.handling(policy)
                        + seq![Action::Launch] + tail);
                } else {
                    let finish = Action::Finish(
                        Err(SupervisionError::AllAttemptsFailed(e.as_attempt_error())),
                    );
                    assert(seq![delay] + (seq![finish] + tail) =~= outcome.handling(policy)
                        + seq![finish]);
                }
            },
            Outcome::Unreachable(pid) => {
                let e0 = Event::Launched(Ok(pid));
                let s1 = State::Starting(Run { stage: Stage::Probing(pid), ..start });
                let s2 = State::Starting(Run { stage: Stage::Killing(pid), ..start });
                let s3 = State::Starting(
                    Run { stage: Stage::Delaying(AttemptError::ProbeTimeout), ..start },
                );
                let r3 = seq![Event::Delayed] + rest;
                let r2 = seq![Event::Killed] + r3;
                let r1 = seq![Event::Probed(false)] + r2;
                assert(script(outcomes) =~= seq![e0] + r1);
                lemma_run_cons(policy, State::Starting(start), e0, r1);
                lemma_run_cons(policy, s1, Event::Probed(false), r2);
                lemma_run_cons(policy, s2, Event::Killed, r3);
                lemma_run_cons(policy, s3, Event::Delayed, rest);
                let tail = run(policy, after, rest).1;
                if attempt < policy.max_attempts {
                    assert(seq![Action::Probe] + (seq![Action::Kill(pid)] + (seq![delay] + (
                    seq![Action::Launch] + tail))) =~= outcome.handling(policy)
                        + seq![Action::Launch] + tail);
                } else {
                    let finish = Action::Finish(
                        Err(SupervisionError::AllAttemptsFailed(AttemptError::ProbeTimeout)),
                    );
                    assert(seq![Action::Probe] + (seq![Action::Kill(pid)] + (seq![delay] + (
                    seq![finish] + tail))) =~= outcome.handling(policy) + seq![finish]);
                }
            },
            Outcome::Ready(pid) => {
                let e0 = Event::Launched(Ok(pid));
                let s1 = State::Starting(Run { stage: Stage::Probing(pid), ..start });
                let r1 = seq![Event::Probed(true)] + rest;
                assert(script(outcomes) =~= seq![e0] + r1);
                lemma_run_cons(policy, State::Starting(start), e0, r1);
                lemma_run_cons(policy, s1, Event::Probed(true), rest);
                let recorded = State::Running(SupervisedProcess { pid, attempts: attempt });
                lemma_run_settled(policy, recorded, rest);
                let tail = run(policy, recorded, rest).1;
                assert(seq![Action::Probe] + (seq![Action::Finish(Ok(()))] + tail)
                    =~= outcome.handling(policy));
            },
        }
    }
}

proof fn lemma_launches_cons(action: Action, rest: Seq<Action>)
    ensures
        launches(seq![action] + rest) == launches(rest) + if action is Launch {
            1nat
        } else {
            0nat
        },
{
    let actions = seq![action] + rest;
    assert(actions.first() == action);
    assert(actions.drop_first() =~= rest);
}

proof fn lemma_launches_concat(front: Seq<Action>, back: Seq<Action>)
    ensures
        launches(front + back) == launches(front) + launches(back),
    decreases front.len(),
{
    if front.len() == 0 {
        assert(front + back =~= back);
    } else {
        let rest = front.drop_first();
        assert(front + back =~= seq![front.first()] + (rest + back));
        lemma_launches_cons(front.first(), rest + back);
        lemma_launches_concat(rest, back);
    }
}

proof fn lemma_handling_launches_nothing(policy: Policy, outcome: Outcome)
    ensures
        launches(outcome.handling(policy)) == 0,
        outcome.handling(policy).len() >= 1,
{
    let nothing = Seq::<Action>::empty();
    let delay = Action::Delay(policy.retry_delay_ms);
    match outcome {
        Outcome::SpawnFailed(_) => {
            assert(outcome.handling(policy) =~= seq![delay] + nothing);
            lemma_launches_cons(delay, nothing);
        },
        Outcome::Unreachable(pid) => {
            assert(outcome.handling(policy) =~= seq![Action::Probe] + (seq![Action::Kill(pid)] + (
            seq![delay] + nothing)));
            lemma_launches_cons(delay, nothing);
            lemma_launches_cons(Action::Kill(pid), seq![delay] + nothing);
            lemma_launches_cons(Action::Probe, seq![Action::Kill(pid)] + (seq![delay] + nothing));
        },
        Outcome::Ready(_) => {
            let finish = Action::Finish(Ok(()));
            assert(outcome.handling(policy) =~= seq![Action::Probe] + (seq![finish] + nothing));
            lemma_launches_cons(finish, nothing);
            lemma_launches_cons(Action::Probe, seq![finish] + nothing);
        },
    }
}

proof fn lemma_retry_loop_exhausted(
    policy: Policy,
    config: LaunchConfig,
    attempt: u32,
    outcomes: Seq<Outcome>,
)
    requires
        1 <= attempt <= policy.max_attempts,
        outcomes.len() == policy.max_attempts - attempt + 1,
        forall|i: int| 0 <= i < outcomes.len() ==> outcomes[i] !is Ready,
    ensures
        ({
            let (state, actions) = retry_loop(policy, config, attempt, outcomes);
            &&& state == State::Absent
            &&& actions.len() >= 1
            &&& actions.last() == Action::Finish(
                Err(SupervisionError::AllAttemptsFailed(outcomes.last().failure().unwrap())),
            )
            &&& launches(actions) == policy.max_attempts - attempt
        }),
    decreases outcomes.len(),
{
    let outcome = outcomes.first();
    let own = outcome.handling(policy);
    assert(outcomes[0] !is Ready);
    lemma_handling_launches_nothing(policy, outcome);
    if attempt < policy.max_attempts {
        let rest = outcomes.drop_first();
        assert forall|i: int| 0 <= i < rest.len() implies rest[i] !is Ready by {
            assert(rest[i] == outcomes[i + 1]);
        }
        lemma_retry_loop_exhausted(policy, config, (attempt + 1) as u32, rest);
        let tail = retry_loop(policy, config, (attempt + 1) as u32, rest).1;
        assert(rest.last() == outcomes.last());
        lemma_launches_concat(own + seq![Action::Launch], tail);
        lemma_launches_concat(own, seq![Action::Launch]);
        lemma_launches_cons(Action::Launch, Seq::<Action>::empty());
        assert(seq![Action::Launch] + Seq::<Action>::empty() =~= seq![Action::Launch]);
    } else {
        let finish = Action::Finish(
            Err(SupervisionError::AllAttemptsFailed(outcome.failure().unwrap())),
        );
        lemma_launches_concat(own, seq![finish]);
        lemma_launches_cons(finish, Seq::<Action>::empty());
        assert(seq![finish] + Seq::<Action>::empty() =~= seq![finish]);
    }
}

proof fn lemma_retry_loop_ready(
    policy: Policy,
    config: LaunchConfig,
    attempt: u32,
    outcomes: Seq<Outcome>,
    pid: u32,
)
    requires
        1 <= attempt,
        1 <= outcomes.len(),
        attempt + outcomes.len() - 1 <= policy.max_attempts,
        forall|i: int| 0 <= i < outcomes.len() - 1 ==> outcomes[i] !is Ready,
        outcomes.last() == Outcome::Ready(pid),
    ensures
        ({
            let (state, actions) = retry_loop(policy, config, attempt, outcomes);
            &&& state == State::Running(
                SupervisedProcess { pid, attempts: (attempt + outcomes.len() - 1) as u32 },
            )
            &&& actions.len() >= 1
            &&& actions.last() == Action::Finish(Ok(()))
            &&& launches(actions) == outcomes.len() - 1
        }),
    decreases outcomes.len(),
{
    let outcome = outcomes.first();
    let own = outcome.handling(policy);
    lemma_handling_launches_nothing(policy, outcome);
    if outcomes.len() == 1 {
        assert(outcome == Outcome::Ready(pid));
    } else {
        assert(outcomes[0] !is Ready);
        let rest = outcomes.drop_first();
        assert forall|i: int| 0 <= i < rest.len() - 1 implies rest[i] !is Ready by {
            assert(rest[i] == outcomes[i + 1]);
        }
        assert(rest.last() == outcomes.last());
        lemma_retry_loop_ready(policy, config, (attempt + 1) as u32, rest, pid);
        let tail = retry_loop(policy, config, (attempt + 1) as u32, rest).1;
        lemma_launches_concat(own + seq![Action::Launch], tail);
        lemma_launches_concat(own, seq![Action::Launch]);
        lemma_launches_cons(Action::Launch, Seq::<Action>::empty());
        assert(seq![Action::Launch] + Seq::<Action>::empty() =~= seq![Action::Launch]);
    }
}

/// Where every attempt that the policy allows fails, whether its spawn
/// fails or its process stays unreachable, `start` ends in failure with the
/// error of the last attempt, after exactly as many launches as the policy
/// allows, and no process is recorded.
pub proof fn start_fails_after_all_attempts(
    policy: Policy,
    config: LaunchConfig,
    outcomes: Seq<Outcome>,
)
    requires
        policy.wf(),
        outcomes.len() == policy.max_attempts,
        forall|i: int| 0 <= i < outcomes.len() ==> outcomes[i] !is Ready,
    ensures
        ({
            let (first, launch) = launch_step(State::Absent, config);
            let (state, actions) = run(policy, first, script(outcomes));
            &&& launch == Some(Action::Launch)
            &&& status_of(state) == Status::Absent
            &&& state == State::Absent
            &&& actions.len() >= 1
            &&& actions.last() == Action::Finish(
                Err(SupervisionError::AllAttemptsFailed(outcomes.last().failure().unwrap())),
            )
            &&& 1 + launches(actions) == policy.max_attempts
        }),
{
    run_follows_retry_loop(policy, config, 1, outcomes);
    lemma_retry_loop_exhausted(policy, config, 1, outcomes);
}

/// Where the last of a series of attempts is the first that is ready, and
/// the policy allows that many attempts, `start` ends in success after
/// exactly that many launches, and the process of that attempt is recorded,
/// together with the number of attempts.
pub proof fn start_succeeds_at_first_ready_attempt(
    policy: Policy,
    config: LaunchConfig,
    outcomes: Seq<Outcome>,
    pid: u32,
)
    requires
        1 <= outcomes.len() <= policy.max_attempts,
        forall|i: int| 0 <= i < outcomes.len() - 1 ==> outcomes[i] !is Ready,
        outcomes.last() == Outcome::Ready(pid),
    ensures
        ({
            let (first, launch) = launch_step(State::Absent, config);
            let (state, actions) = run(policy, first, script(outcomes));
            &&& launch == Some(Action::Launch)
            &&& status_of(state) == Status::Running(
                SupervisedProcess { pid, attempts: outcomes.len() as u32 },
            )
            &&& actions.len() >= 1
            &&& actions.last() == Action::Finish(Ok(()))
            &&& 1 + launches(actions) == outcomes.len()
        }),
{
    run_follows_retry_loop(policy, config, 1, outcomes);
    lemma_retry_loop_ready(policy, config, 1, outcomes, pid);
}

/// A process that was spawned and found unreachable is killed at once: the
/// kill is the supervisor's answer to the failed probe, so no launch can come
/// between the two.
pub proof fn unreachable_process_is_killed_first(
    policy: Policy,
    config: LaunchConfig,
    attempt: u32,
    pid: u32,
    later: Seq<Event>,
)
    ensures
        ({
            let probing = State::Starting(Run { config, attempt, stage: Stage::Probing(pid) });
            let actions = run(policy, probing, seq![Event::Probed(false)] + later).1;
            &&& actions.len() >= 1
            &&& actions.first() == Action::Kill(pid)
        }),
{
    let probing = State::Starting(Run { config, attempt, stage: Stage::Probing(pid) });
    lemma_run_cons(policy, probing, Event::Probed(false), later);
}

/// Whatever is reported to a supervisor, in whatever order: the processes it
/// held before and those spawned since are, in that order, those it has
/// asked to kill since and the one it holds now. So every process that was
/// spawned and is not held has been killed, and as a supervisor holds at
/// most one process, at most one process that is not recorded is alive at
/// any time.
pub proof fn spawned_processes_are_killed_or_held(
    policy: Policy,
    state: State,
    events: Seq<Event>,
)
    ensures
        held(state) + spawns(policy, state, events) == kills(run(policy, state, events).1) + held(
            run(policy, state, events).0,
        ),
        held(state).len() <= 1,
        held(run(policy, state, events).0).len() <= 1,
    decreases events.len(),
{
    if events.len() == 0 {
        assert(held(state) + Seq::<u32>::empty() =~= Seq::<u32>::empty() + held(state));
    } else {
        let event = events.first();
        let rest = events.drop_first();
        let (next, action) = event_step(policy, state, event);
        let (last, later) = run(policy, next, rest);
        spawned_processes_are_killed_or_held(policy, next, rest);
        let born = spawns(policy, state, events);
        let born_later = spawns(policy, next, rest);
        let asked = run(policy, state, events).1;
        match action {
            Some(a) => {
                assert(asked == seq![a] + later);
                assert(asked.first() == a);
                assert(asked.drop_first() =~= later);
            },
            None => {},
        }
        assert(held(state) + born =~= kills(asked) + held(last));
    }
}

/// The longest time that `action` may block, in milliseconds. A probe may
/// use up the probe window and a delay its length; launching and killing
/// are taken not to block.
pub open spec fn cost(policy: Policy, action: Action) -> int {
    match action {
        Action::Probe => policy.probe.window(),
        Action::Delay(ms) => ms as int,
        _ => 0,
    }
}

/// The longest time that `actions` may block altogether.
pub open spec fn total_cost(policy: Policy, actions: Seq<Action>) -> int
    decreases actions.len(),
{
    if actions.len() == 0 {
        0
    } else {
        cost(policy, actions.first()) + total_cost(policy, actions.drop_first())
    }
}

/// The longest time that a supervisor in `state` may yet block, after the
/// action under way.
pub open spec fn time_left(policy: Policy, state: State) -> int {
    match state {
        State::Starting(run) => {
            let later = (policy.max_attempts - run.attempt) * (policy.probe.window()
                + policy.retry_delay_ms);
            match run.stage {
                Stage::Launching => policy.probe.window() + policy.retry_delay_ms + later,
                Stage::Probing(_) => policy.retry_delay_ms + later,
                Stage::Killing(_) => policy.retry_delay_ms + later,
                Stage::Delaying(_) => later,
            }
        },
        _ => 0,
    }
}

proof fn lemma_time_left(policy: Policy, state: State, events: Seq<Event>)
    requires
        state matches State::Starting(run) ==> run.attempt <= policy.max_attempts,
    ensures
        0 <= total_cost(policy, run(policy, state, events).1) <= time_left(policy, state),
    decreases events.len(),
{
    let window = policy.probe.window();
    let per_attempt = window + policy.retry_delay_ms;
    assert(window >= 0) by (nonlinear_arith)
        requires
            window == (policy.probe.max_tries as int) * (policy.probe.timeout_ms as int
                + policy.probe.interval_ms as int),
    ;
    assert(forall|n: int| n >= 0 ==> #[trigger] (n * per_attempt) >= 0) by (nonlinear_arith)
        requires
            per_attempt >= 0,
    ;
    if events.len() > 0 {
        let event = events.first();
        let rest = events.drop_first();
        let (next, action) = event_step(policy, state, event);
        let later = run(policy, next, rest).1;
        lemma_time_left(policy, next, rest);
        match action {
            Some(a) => {
                let asked = seq![a] + later;
                assert(asked.first() == a);
                assert(asked.drop_first() =~= later);
                if let State::Starting(run) = state {
                    if run.attempt < policy.max_attempts {
                        assert((policy.max_attempts - run.attempt) * per_attempt == per_attempt + (
                        policy.max_attempts - (run.attempt + 1)) * per_attempt)
                            by (nonlinear_arith);
                    }
                }
            },
            None => {},
        }
    }
}

/// Whatever is reported to a supervisor after a start, in whatever order:
/// from the first launch on it never asks for more blocking time than the
/// start window, which is the number of attempts times the sum of the probe
/// window and the retry delay.
pub proof fn start_stays_within_window(policy: Policy, config: LaunchConfig, events: Seq<Event>)
    requires
        policy.wf(),
    ensures
        ({
            let (first, _) = launch_step(State::Absent, config);
            let actions = run(policy, first, events).1;
            total_cost(policy, seq![Action::Launch] + actions) <= policy.window()
        }),
{
    let (first, _) = launch_step(State::Absent, config);
    let actions = run(policy, first, events).1;
    let per_attempt = policy.probe.window() + policy.retry_delay_ms;
    lemma_time_left(policy, first, events);
    let asked = seq![Action::Launch] + actions;
    assert(asked.first() == Action::Launch);
    assert(asked.drop_first() =~= actions);
    assert(policy.max_attempts * per_attempt == per_attempt + (policy.max_attempts - 1)
        * per_attempt) by (nonlinear_arith);
}

/// A process is recorded only at the moment its probe reports it reachable:
/// an event that leaves a supervisor with a recorded process found it with
/// that process recorded already, or probing that process, and then the
/// event is the probe's success.
pub proof fn process_is_recorded_only_when_ready(policy: Policy, state: State, event: Event)
    requires
        event_step(policy, state, event).0 is Running,
    ensures
        ({
            let recorded = event_step(policy, state, event).0->Running_0;
            ||| state == State::Running(recorded)
            ||| {
                &&& state matches State::Starting(run)
                &&& run.stage == Stage::Probing(recorded.pid)
                &&& run.attempt == recorded.attempts
                &&& event == Event::Probed(true)
            }
        }),
{
}

/// A stop that follows a successful start finds the process that the start
/// recorded and terminates it: the plan kills that process and waits for
/// its exit, and no process is recorded afterwards.
pub proof fn stop_after_start_terminates_its_process(
    platform: Platform,
    policy: Policy,
    config: LaunchConfig,
    outcomes: Seq<Outcome>,
    pid: u32,
)
    requires
        1 <= outcomes.len() <= policy.max_attempts,
        forall|i: int| 0 <= i < outcomes.len() - 1 ==> outcomes[i] !is Ready,
        outcomes.last() == Outcome::Ready(pid),
    ensures
        ({
            let (first, _) = launch_step(State::Absent, config);
            let (started, _) = run(policy, first, script(outcomes));
            let (stopped, plan) = stop_step(platform, started);
            &&& stopped == State::Absent
            &&& plan.len() >= 2
            &&& plan[plan.len() - 2] == Termination::Kill(pid)
            &&& plan.last() == Termination::Wait(pid)
        }),
{
    start_succeeds_at_first_ready_attempt(policy, config, outcomes, pid);
}

} // verus!
