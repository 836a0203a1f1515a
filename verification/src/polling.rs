//! Whole probes: what a probe amounts to when the caller reports a sequence
//! of events, and what holds of every probe.

use vstd::prelude::*;
use crate::policy::probe_window;
use crate::prober::{probe_begin, probe_step, ProbeAction, ProbeEvent, ProbeState};

verus! {

/// The state a prober reaches from `state` when the events of `events` are
/// reported in turn, and the actions it asks for on the way.
pub open spec fn probe_run(interval_ms: u32, state: ProbeState, events: Seq<ProbeEvent>) -> (
    ProbeState,
    Seq<ProbeAction>,
)
    decreases events.len(),
{
    if events.len() == 0 {
        (state, Seq::<ProbeAction>::empty())
    } else {
        let (next, action) = probe_step(interval_ms, state, events.first());
        let (last, actions) = probe_run(interval_ms, next, events.drop_first());
        (
            last,
            match action {
                Some(a) => seq![a] + actions,
                None => actions,
            },
        )
    }
}

/// The events of a series of connection attempts, where `answers` says of
/// each in turn whether it was accepted: an accepted one is reported as
/// such, a refused one is reported and then the pause after it.
pub open spec fn answers_script(answers: Seq<bool>) -> Seq<ProbeEvent>
    decreases answers.len(),
{
    if answers.len() == 0 {
        Seq::<ProbeEvent>::empty()
    } else if answers.first() {
        seq![ProbeEvent::Connected] + answers_script(answers.drop_first())
    } else {
        seq![ProbeEvent::Refused, ProbeEvent::Slept] + answers_script(answers.drop_first())
    }
}

/// The number of connection attempts among `actions`.
pub open spec fn connects(actions: Seq<ProbeAction>) -> nat
    decreases actions.len(),
{
    if actions.len() == 0 {
        0
    } else {
        connects(actions.drop_first()) + if actions.first() is Connect {
            1nat
        } else {
            0nat
        }
    }
}

/// The longest time that `action` may block, in milliseconds, where a
/// connection attempt is given `timeout_ms`.
pub open spec fn cost(timeout_ms: u32, action: ProbeAction) -> int {
    match action {
        ProbeAction::Connect => timeout_ms as int,
        ProbeAction::Sleep(ms) => ms as int,
        ProbeAction::Finish(_) => 0,
    }
}

/// The longest time that `actions` may block altogether.
pub open spec fn total_cost(timeout_ms: u32, actions: Seq<ProbeAction>) -> int
    decreases actions.len(),
{
    if actions.len() == 0 {
        0
    } else {
        cost(timeout_ms, actions.first()) + total_cost(timeout_ms, actions.drop_first())
    }
}

/// The longest time that a prober in `state` may yet block, after the
/// action under way.
pub open spec fn time_left(timeout_ms: u32, interval_ms: u32, state: ProbeState) -> int {
    match state {
        ProbeState::Connecting(left) => interval_ms + if left > 1 {
            (left - 1) * (timeout_ms + interval_ms)
        } else {
            0
        },
        ProbeState::Sleeping(left) => if left > 1 {
            (left - 1) * (timeout_ms + interval_ms)
        } else {
            0
        },
        ProbeState::Finished(_) => 0,
    }
}

proof fn lemma_probe_run_cons(
    interval_ms: u32,
    state: ProbeState,
    event: ProbeEvent,
    rest: Seq<ProbeEvent>,
)
    ensures
        probe_run(interval_ms, state, seq![event] + rest) == ({
            let (next, action) = probe_step(interval_ms, state, event);
            let (last, actions) = probe_run(interval_ms, next, rest);
            (
                last,
                match action {
                    Some(a) => seq![a] + actions,
                    None => actions,
                },
            )
        }),
{
    let events = seq![event] + rest;
    assert(events.first() == event);
    assert(events.drop_first() =~= rest);
}

proof fn lemma_connects_cons(action: ProbeAction, rest: Seq<ProbeAction>)
    ensures
        connects(seq![action] + rest) == connects(rest) + if action is Connect {
            1nat
        } else {
            0nat
        },
{
    let actions = seq![action] + rest;
    assert(actions.first() == action);
    assert(actions.drop_first() =~= rest);
}

proof fn lemma_total_cost_cons(timeout_ms: u32, action: ProbeAction, rest: Seq<ProbeAction>)
    ensures
        total_cost(timeout_ms, seq![action] + rest) == cost(timeout_ms, action) + total_cost(
            timeout_ms,
            rest,
        ),
{
    let actions = seq![action] + rest;
    assert(actions.first() == action);
    assert(actions.drop_first() =~= rest);
}

proof fn lemma_polling(interval_ms: u32, left: u32, answers: Seq<bool>)
    requires
        left >= 1,
        answers.len() <= left,
        forall|i: int| 0 <= i < answers.len() - 1 ==> !answers[i],
    ensures
        ({
            let (state, actions) = probe_run(
                interval_ms,
                ProbeState::Connecting(left),
                answers_script(answers),
            );
            if answers.len() == 0 {
                state == ProbeState::Connecting(left) && actions.len() == 0
            } else if answers.last() {
                &&& state == ProbeState::Finished(true)
                &&& actions.len() >= 1
                &&& actions.last() == ProbeAction::Finish(true)
                &&& connects(actions) == answers.len() - 1
            } else if answers.len() == left {
                &&& state == ProbeState::Finished(false)
                &&& actions.len() >= 1
                &&& actions.last() == ProbeAction::Finish(false)
                &&& connects(actions) == answers.len() - 1
            } else {
                &&& state == ProbeState::Connecting((left - answers.len()) as u32)
                &&& connects(actions) == answers.len()
            }
        }),
    decreases answers.len(),
{
    let nothing = Seq::<ProbeAction>::empty();
    if answers.len() > 0 {
        let rest = answers.drop_first();
        let later = answers_script(rest);
        if answers.first() {
            assert(answers.len() == 1);
            assert(rest.len() == 0);
            assert(seq![ProbeEvent::Connected] + later =~= seq![ProbeEvent::Connected]
                + Seq::<ProbeEvent>::empty());
            lemma_probe_run_cons(
                interval_ms,
                ProbeState::Connecting(left),
                ProbeEvent::Connected,
                Seq::<ProbeEvent>::empty(),
            );
            lemma_connects_cons(ProbeAction::Finish(true), nothing);
            assert(seq![ProbeAction::Finish(true)] + nothing =~= seq![ProbeAction::Finish(true)]);
        } else {
            let pause = ProbeAction::Sleep(interval_ms);
            assert(seq![ProbeEvent::Refused, ProbeEvent::Slept] + later =~= seq![
                ProbeEvent::Refused,
            ] + (seq![ProbeEvent::Slept] + later));
            lemma_probe_run_cons(
                interval_ms,
                ProbeState::Connecting(left),
                ProbeEvent::Refused,
                seq![ProbeEvent::Slept] + later,
            );
            lemma_probe_run_cons(
                interval_ms,
                ProbeState::Sleeping(left),
                ProbeEvent::Slept,
                later,
            );
            if left > 1 {
                assert forall|i: int| 0 <= i < rest.len() - 1 implies !rest[i] by {
                    assert(rest[i] == answers[i + 1]);
                }
                lemma_polling(interval_ms, (left - 1) as u32, rest);
                let tail = probe_run(
                    interval_ms,
                    ProbeState::Connecting((left - 1) as u32),
                    later,
                ).1;
                lemma_connects_cons(pause, seq![ProbeAction::Connect] + tail);
                lemma_connects_cons(ProbeAction::Connect, tail);
                if rest.len() > 0 {
                    assert(rest.last() == answers.last());
                }
            } else {
                assert(rest.len() == 0);
                lemma_connects_cons(pause, seq![ProbeAction::Finish(false)] + nothing);
                lemma_connects_cons(ProbeAction::Finish(false), nothing);
            }
        }
    }
}

/// Where the last of a series of connection attempts is the first that is
/// accepted, and the probe allows that many tries, the probe ends with the
/// verdict that the backend is reachable, after exactly that many attempts.
pub proof fn probe_succeeds_at_first_accepted_connection(
    max_tries: u32,
    interval_ms: u32,
    answers: Seq<bool>,
)
    requires
        1 <= answers.len() <= max_tries,
        forall|i: int| 0 <= i < answers.len() - 1 ==> !answers[i],
        answers.last(),
    ensures
        ({
            let (first, action) = probe_begin(max_tries);
            let (state, actions) = probe_run(interval_ms, first, answers_script(answers));
            &&& action == ProbeAction::Connect
            &&& state == ProbeState::Finished(true)
            &&& actions.len() >= 1
            &&& actions.last() == ProbeAction::Finish(true)
            &&& 1 + connects(actions) == answers.len()
        }),
{
    lemma_polling(interval_ms, max_tries, answers);
}

/// Where every connection attempt that the probe allows is refused, the
/// probe ends with the verdict that the backend is not reachable, after
/// exactly that many attempts.
pub proof fn probe_fails_after_all_tries(max_tries: u32, interval_ms: u32, answers: Seq<bool>)
    requires
        answers.len() == max_tries,
        forall|i: int| 0 <= i < answers.len() ==> !answers[i],
    ensures
        ({
            let (first, action) = probe_begin(max_tries);
            let (state, actions) = probe_run(interval_ms, first, answers_script(answers));
            let asked = seq![action] + actions;
            &&& state == ProbeState::Finished(false)
            &&& asked.last() == ProbeAction::Finish(false)
            &&& connects(asked) == max_tries
        }),
{
    let (first, action) = probe_begin(max_tries);
    let actions = probe_run(interval_ms, first, answers_script(answers)).1;
    lemma_connects_cons(action, actions);
    if max_tries >= 1 {
        lemma_polling(interval_ms, max_tries, answers);
    } else {
        assert(seq![action] + actions =~= seq![action]);
    }
}

proof fn lemma_time_left(
    timeout_ms: u32,
    interval_ms: u32,
    state: ProbeState,
    events: Seq<ProbeEvent>,
)
    ensures
        0 <= total_cost(timeout_ms, probe_run(interval_ms, state, events).1) <= time_left(
            timeout_ms,
            interval_ms,
            state,
        ),
    decreases events.len(),
{
    let per_try = timeout_ms + interval_ms;
    assert(forall|n: int| n >= 0 ==> #[trigger] (n * per_try) >= 0) by (nonlinear_arith)
        requires
            per_try >= 0,
    ;
    if events.len() > 0 {
        let event = events.first();
        let rest = events.drop_first();
        let (next, action) = probe_step(interval_ms, state, event);
        let later = probe_run(interval_ms, next, rest).1;
        lemma_time_left(timeout_ms, interval_ms, next, rest);
        match action {
            Some(a) => {
                lemma_total_cost_cons(timeout_ms, a, later);
                if let ProbeState::Sleeping(left) = state {
                    if left > 1 {
                        assert((left - 1) * per_try == per_try + (left - 2) * per_try)
                            by (nonlinear_arith);
                    }
                }
            },
            None => {},
        }
    }
}

/// Whatever is reported to a prober, in whatever order: from its first
/// action on it never asks for more blocking time than the probe window,
/// which is the number of tries times the sum of the timeout of a
/// connection attempt and the pause after it.
pub proof fn probe_stays_within_window(
    timeout_ms: u32,
    max_tries: u32,
    interval_ms: u32,
    events: Seq<ProbeEvent>,
)
    ensures
        ({
            let (first, action) = probe_begin(max_tries);
            let actions = probe_run(interval_ms, first, events).1;
            total_cost(timeout_ms, seq![action] + actions) <= probe_window(
                timeout_ms as int,
                max_tries as int,
                interval_ms as int,
            )
        }),
{
    let (first, action) = probe_begin(max_tries);
    let actions = probe_run(interval_ms, first, events).1;
    let per_try = timeout_ms + interval_ms;
    lemma_time_left(timeout_ms, interval_ms, first, events);
    lemma_total_cost_cons(timeout_ms, action, actions);
    if max_tries >= 1 {
        assert(max_tries * per_try == per_try + (max_tries - 1) * per_try) by (nonlinear_arith);
    } else {
        assert(max_tries * per_try == 0) by (nonlinear_arith)
            requires
                max_tries == 0,
        ;
    }
}

} // verus!
