//! What can go wrong while the backend is being started.

use vstd::prelude::*;

verus! {

/// Why a launch attempt produced no process.
#[derive(Clone, Debug, PartialEq, Eq)]
pub enum LaunchError {
    /// The operating system could not create the process; the text is its
    /// description of the failure.
    SpawnFailed(String),
}

/// Why one full launch attempt (spawn, then readiness probe) failed.
#[derive(Clone, Debug, PartialEq, Eq)]
pub enum AttemptError {
    /// No process was created.
    SpawnFailed(String),
    /// A process was created but never became reachable within the probe
    /// window.
    ProbeTimeout,
}

/// The failure that `start` surfaces to the host application.
#[derive(Clone, Debug, PartialEq, Eq)]
pub enum SupervisionError {
    /// Every attempt the policy allows has failed; the payload is the failure
    /// of the last one.
    AllAttemptsFailed(AttemptError),
}

/// The text that describes a probe timeout to the user.
pub open spec fn probe_timeout_text() -> Seq<char> {
    "backend process started but its port never opened"@
}

impl LaunchError {
    /// The failure of the attempt whose launch failed with `self`.
    pub open spec fn as_attempt_error(self) -> AttemptError {
        match self {
            LaunchError::SpawnFailed(text) => AttemptError::SpawnFailed(text),
        }
    }

    pub fn into_attempt_error(self) -> (e: AttemptError)
        ensures
            e == self.as_attempt_error(),
    {
        match self {
            LaunchError::SpawnFailed(text) => AttemptError::SpawnFailed(text),
        }
    }
}

impl AttemptError {
    /// The text shown for this failure: the operating system's own words for
    /// a failed spawn, a fixed sentence for a probe timeout.
    pub open spec fn description(self) -> Seq<char> {
        match self {
            AttemptError::SpawnFailed(text) => text@,
            AttemptError::ProbeTimeout => probe_timeout_text(),
        }
    }

    pub fn describe(&self) -> (text: String)
        ensures
            text@ == self.description(),
    {
        match self {
            AttemptError::SpawnFailed(text) => text.clone(),
            AttemptError::ProbeTimeout => "backend process started but its port never opened".to_owned(),
        }
    }
}

impl SupervisionError {
    /// The failure of the last attempt.
    pub open spec fn last_error(self) -> AttemptError {
        match self {
            SupervisionError::AllAttemptsFailed(e) => e,
        }
    }

    /// The descriptive text handed to the host for display: that of the last
    /// attempt's failure.
    pub open spec fn description(self) -> Seq<char> {
        self.last_error().description()
    }

    pub fn message(&self) -> (text: String)
        ensures
            text@ == self.description(),
    {
        match self {
            SupervisionError::AllAttemptsFailed(e) => e.describe(),
        }
    }
}

} // verus!
