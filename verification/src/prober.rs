//! The readiness prober: it decides when to try a connection to the backend,
//! when to pause, and when to give its verdict.
//!
//! The prober makes no connection itself. It asks for one with
//! [`ProbeAction::Connect`], and the caller reports how it went.

use vstd::prelude::*;
use crate::policy::ProbeSettings;

verus! {

/// What the caller reports to the prober.
#[derive(Clone, Copy, Debug, PartialEq, Eq, Structural)]
pub enum ProbeEvent {
    /// The connection was accepted.
    Connected,
    /// The connection failed or timed out.
    Refused,
    /// The pause is over.
    Slept,
}

/// What the prober asks of the caller.
#[derive(Clone, Copy, Debug, PartialEq, Eq, Structural)]
pub enum ProbeAction {
    /// Try to connect to the backend's address, within the timeout.
    Connect,
    /// Pause for this many milliseconds.
    Sleep(u32),
    /// The probe is over; the backend is reachable or it is not.
    Finish(bool),
}

/// Where a probe stands.
#[derive(Clone, Copy, Debug, PartialEq, Eq, Structural)]
pub enum ProbeState {
    /// A connection attempt is under way; the number counts it and the tries
    /// that may follow.
    Connecting(u32),
    /// A pause after a failed try is under way; the number counts that try
    /// and the tries that may follow.
    Sleeping(u32),
    /// The verdict has been given.
    Finished(bool),
}

/// How a probe of up to `max_tries` tries begins: with a first connection
/// attempt, or with the verdict `false` where no try is allowed.
pub open spec fn probe_begin(max_tries: u32) -> (ProbeState, ProbeAction) {
    if max_tries == 0 {
        (ProbeState::Finished(false), ProbeAction::Finish(false))
    } else {
        (ProbeState::Connecting(max_tries), ProbeAction::Connect)
    }
}

/// The prober's answer to one event: the next state and the action asked for,
/// or the same state and no action where the event answers nothing the prober
/// is waiting for.
pub open spec fn probe_step(interval_ms: u32, state: ProbeState, event: ProbeEvent) -> (
    ProbeState,
    Option<ProbeAction>,
) {
    match (state, event) {
        (ProbeState::Connecting(_), ProbeEvent::Connected) => (
            ProbeState::Finished(true),
            Some(ProbeAction::Finish(true)),
        ),
        (ProbeState::Connecting(left), ProbeEvent::Refused) => (
            ProbeState::Sleeping(left),
            Some(ProbeAction::Sleep(interval_ms)),
        ),
        (ProbeState::Sleeping(left), ProbeEvent::Slept) => if left > 1 {
            (ProbeState::Connecting((left - 1) as u32), Some(ProbeAction::Connect))
        } else {
            (ProbeState::Finished(false), Some(ProbeAction::Finish(false)))
        },
        _ => (state, None),
    }
}

/// A probe in progress.
#[derive(Clone, Copy, Debug, PartialEq, Eq, Structural)]
pub struct Prober {
    /// Pause after a failed try, in milliseconds.
    pub interval_ms: u32,
    /// Where the probe stands.
    pub state: ProbeState,
}

impl Prober {
    /// Begins a probe under `settings` and says what to do first.
    pub fn begin(settings: &ProbeSettings) -> (r: (Prober, ProbeAction))
        ensures
            r.0.interval_ms == settings.interval_ms,
            (r.0.state, r.1) == probe_begin(settings.max_tries),
    {
        if settings.max_tries == 0 {
            (
                Prober { interval_ms: settings.interval_ms, state: ProbeState::Finished(false) },
                ProbeAction::Finish(false),
            )
        } else {
            (
                Prober {
                    interval_ms: settings.interval_ms,
                    state: ProbeState::Connecting(settings.max_tries),
                },
                ProbeAction::Connect,
            )
        }
    }

    /// Takes in one event and says what to do next. An event that answers
    /// nothing the prober is waiting for changes nothing and gets no action.
    pub fn advance(&mut self, event: ProbeEvent) -> (action: Option<ProbeAction>)
        ensures
            final(self).interval_ms == old(self).interval_ms,
            (final(self).state, action) == probe_step(
                old(self).interval_ms,
                old(self).state,
                event,
            ),
    {
        match (self.state, event) {
            (ProbeState::Connecting(_), ProbeEvent::Connected) => {
                self.state = ProbeState::Finished(true);
                Some(ProbeAction::Finish(true))
            },
            (ProbeState::Connecting(left), ProbeEvent::Refused) => {
                self.state = ProbeState::Sleeping(left);
                Some(ProbeAction::Sleep(self.interval_ms))
            },
            (ProbeState::Sleeping(left), ProbeEvent::Slept) => {
                if left > 1 {
                    self.state = ProbeState::Connecting(left - 1);
                    Some(ProbeAction::Connect)
                } else {
                    self.state = ProbeState::Finished(false);
                    Some(ProbeAction::Finish(false))
                }
            },
            _ => None,
        }
    }

    /// The verdict, once the probe is over.
    pub fn verdict(&self) -> (v: Option<bool>)
        ensures
            v == match self.state {
                ProbeState::Finished(reachable) => Some(reachable),
                _ => None::<bool>,
            },
    {
        match self.state {
            ProbeState::Finished(reachable) => Some(reachable),
            _ => None,
        }
    }
}

} // verus!
