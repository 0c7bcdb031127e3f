//! The order of a run.
//!
//! A run is a fixed sequence of steps, each attempted once. The program
//! around this library performs a step and reports how it went; this module
//! says which step comes next. It holds the rules of failure: before there
//! is a workspace a failure ends the run at once; after that every failure
//! leads to the cleanup first; a failure of the code host is only a warning;
//! and the cleanup runs once, whatever happened.

use vstd::prelude::*;
use crate::error::{ErrorKind, PeonyError};

verus! {

/// A step of a run.
#[derive(Debug, Clone, Copy, PartialEq, Eq, Structural)]
pub enum Action {
    /// Find the build tool and read the configuration and the manifest.
    Preflight,
    /// Copy the project into a new temporary directory.
    CreateWorkspace,
    /// Run the build tool in the workspace.
    Build,
    /// Find what the build left.
    LocateArtifact,
    /// Name the release and read the artifact.
    NameVersion,
    /// Write the changelog.
    WriteChangelog,
    /// Create the release on the code host and attach the artifact.
    PublishCodeHost,
    /// Create the version on the mod platform.
    PublishModPlatform,
    /// Announce the release in the chat.
    Announce,
    /// Remove the workspace.
    CleanUp,
    /// Nothing is left to do.
    Finish,
}

impl Action {
    /// The place of a step in the order of a run.
    pub open spec fn rank(self) -> nat {
        match self {
            Action::Preflight => 0,
            Action::CreateWorkspace => 1,
            Action::Build => 2,
            Action::LocateArtifact => 3,
            Action::NameVersion => 4,
            Action::WriteChangelog => 5,
            Action::PublishCodeHost => 6,
            Action::PublishModPlatform => 7,
            Action::Announce => 8,
            Action::CleanUp => 9,
            Action::Finish => 10,
        }
    }
}

/// The step that follows `pending`, given whether `pending` succeeded and
/// whether the run is to announce the release.
pub open spec fn next_action(pending: Action, succeeded: bool, announce: bool) -> Action {
    match pending {
        Action::Preflight => if succeeded {
            Action::CreateWorkspace
        } else {
            Action::Finish
        },
        Action::CreateWorkspace => if succeeded {
            Action::Build
        } else {
            Action::Finish
        },
        Action::Build => if succeeded {
            Action::LocateArtifact
        } else {
            Action::CleanUp
        },
        Action::LocateArtifact => if succeeded {
            Action::NameVersion
        } else {
            Action::CleanUp
        },
        Action::NameVersion => if succeeded {
            Action::WriteChangelog
        } else {
            Action::CleanUp
        },
        Action::WriteChangelog => if succeeded {
            Action::PublishCodeHost
        } else {
            Action::CleanUp
        },
        Action::PublishCodeHost => Action::PublishModPlatform,
        Action::PublishModPlatform => if succeeded && announce {
            Action::Announce
        } else {
            Action::CleanUp
        },
        Action::Announce => Action::CleanUp,
        Action::CleanUp => Action::Finish,
        Action::Finish => Action::Finish,
    }
}

/// Tells the step that follows `pending`.
pub fn following(pending: Action, succeeded: bool, announce: bool) -> (out: Action)
    ensures
        out == next_action(pending, succeeded, announce),
{
    match pending {
        Action::Preflight => if succeeded {
            Action::CreateWorkspace
        } else {
            Action::Finish
        },
        Action::CreateWorkspace => if succeeded {
            Action::Build
        } else {
            Action::Finish
        },
        Action::Build => if succeeded {
            Action::LocateArtifact
        } else {
            Action::CleanUp
        },
        Action::LocateArtifact => if succeeded {
            Action::NameVersion
        } else {
            Action::CleanUp
        },
        Action::NameVersion => if succeeded {
            Action::WriteChangelog
        } else {
            Action::CleanUp
        },
        Action::WriteChangelog => if succeeded {
            Action::PublishCodeHost
        } else {
            Action::CleanUp
        },
        Action::PublishCodeHost => Action::PublishModPlatform,
        Action::PublishModPlatform => if succeeded && announce {
            Action::Announce
        } else {
            Action::CleanUp
        },
        Action::Announce => Action::CleanUp,
        Action::CleanUp => Action::Finish,
        Action::Finish => Action::Finish,
    }
}

/// A failure as plain values: its kind and its detail.
pub type Failure = (ErrorKind, Seq<char>);

/// A run in progress: the step that is to be performed now, whether the
/// release is to be announced, the failure that the run will report, and the
/// failure of the code host, which it will not.
#[derive(Debug, Clone, PartialEq, Eq)]
pub struct Run {
    pub pending: Action,
    pub announce: bool,
    pub failure: Option<PeonyError>,
    pub warning: Option<PeonyError>,
}

/// A run seen as plain values.
pub struct RunView {
    pub pending: Action,
    pub announce: bool,
    pub failure: Option<Failure>,
    pub warning: Option<Failure>,
}

/// A failure that may be absent, as plain values.
pub open spec fn optional_failure(failure: Option<PeonyError>) -> Option<Failure> {
    match failure {
        Some(failure) => Some(failure@),
        None => None,
    }
}

/// How a step went, as plain values.
pub open spec fn outcome_view(outcome: Result<(), PeonyError>) -> Result<(), Failure> {
    match outcome {
        Ok(_) => Ok(()),
        Err(failure) => Err(failure@),
    }
}

impl View for Run {
    type V = RunView;

    open spec fn view(&self) -> RunView {
        RunView {
            pending: self.pending,
            announce: self.announce,
            failure: optional_failure(self.failure),
            warning: optional_failure(self.warning),
        }
    }
}

/// A run before its first step.
pub open spec fn started(announce: bool) -> RunView {
    RunView { pending: Action::Preflight, announce, failure: None, warning: None }
}

/// The run after its pending step went as `outcome` says. A failure of the
/// code host is kept as the warning, any other as the failure that the run
/// reports; so a failure of the cleanup takes the place of the failure that
/// led to it. A finished run stays as it is.
pub open spec fn advanced(run: RunView, outcome: Result<(), Failure>) -> RunView {
    if run.pending == Action::Finish {
        run
    } else {
        RunView {
            pending: next_action(run.pending, outcome is Ok, run.announce),
            announce: run.announce,
            failure: if outcome is Err && run.pending != Action::PublishCodeHost {
                Some(outcome->Err_0)
            } else {
                run.failure
            },
            warning: if outcome is Err && run.pending == Action::PublishCodeHost {
                Some(outcome->Err_0)
            } else {
                run.warning
            },
        }
    }
}

impl Run {
    /// A run before its first step.
    pub fn start(announce: bool) -> (out: Run)
        ensures
            out@ == started(announce),
    {
        Run { pending: Action::Preflight, announce, failure: None, warning: None }
    }

    /// Takes note of how the pending step went and moves on to the next.
    pub fn advance(self, outcome: Result<(), PeonyError>) -> (out: Run)
        ensures
            out@ == advanced(self@, outcome_view(outcome)),
    {
        match self.pending {
            Action::Finish => self,
            pending => {
                let next = following(pending, outcome.is_ok(), self.announce);
                match outcome {
                    Ok(_) => Run {
                        pending: next,
                        announce: self.announce,
                        failure: self.failure,
                        warning: self.warning,
                    },
                    Err(failure) => match pending {
                        Action::PublishCodeHost => Run {
                            pending: next,
                            announce: self.announce,
                            failure: self.failure,
                            warning: Some(failure),
                        },
                        _ => Run {
                            pending: next,
                            announce: self.announce,
                            failure: Some(failure),
                            warning: self.warning,
                        },
                    },
                }
            },
        }
    }

    /// Tells whether nothing is left to do.
    pub fn is_finished(&self) -> (out: bool)
        ensures
            out == (self.pending == Action::Finish),
    {
        match self.pending {
            Action::Finish => true,
            _ => false,
        }
    }

    /// What the run reports: its failure, or success if it has none. The
    /// warning does not count.
    pub fn result(self) -> (out: Result<(), PeonyError>)
        ensures
            outcome_view(out) == match self@.failure {
                Some(failure) => Err::<(), Failure>(failure),
                None => Ok::<(), Failure>(()),
            },
    {
        match self.failure {
            Some(failure) => Err(failure),
            None => Ok(()),
        }
    }
}

/// The run after the outcomes of its steps arrived in the order given.
pub open spec fn after(run: RunView, outcomes: Seq<Result<(), Failure>>) -> RunView
    decreases outcomes.len(),
{
    if outcomes.len() == 0 {
        run
    } else {
        after(advanced(run, outcomes[0]), outcomes.skip(1))
    }
}

/// The steps that were performed to get those outcomes, in order. Outcomes
/// that arrive after the run has finished belong to no step.
pub open spec fn performed(run: RunView, outcomes: Seq<Result<(), Failure>>) -> Seq<Action>
    decreases outcomes.len(),
{
    if outcomes.len() == 0 || run.pending == Action::Finish {
        Seq::empty()
    } else {
        seq![run.pending] + performed(advanced(run, outcomes[0]), outcomes.skip(1))
    }
}

/// How often `action` stands in `actions`.
pub open spec fn count(actions: Seq<Action>, action: Action) -> nat
    decreases actions.len(),
{
    if actions.len() == 0 {
        0
    } else {
        count(actions.skip(1), action) + if actions[0] == action {
            1nat
        } else {
            0nat
        }
    }
}

/// A workspace was created: the run got past its first two steps.
pub open spec fn workspace_created(outcomes: Seq<Result<(), Failure>>) -> bool {
    outcomes.len() >= 2 && outcomes[0] is Ok && outcomes[1] is Ok
}

/// The number of cleanups that a run owes from the step `pending` on, given
/// the outcomes still to come.
spec fn cleanups_owed(pending: Action, outcomes: Seq<Result<(), Failure>>) -> nat {
    match pending {
        Action::Finish => 0,
        Action::Preflight => if workspace_created(outcomes) {
            1
        } else {
            0
        },
        Action::CreateWorkspace => if outcomes.len() >= 1 && outcomes[0] is Ok {
            1
        } else {
            0
        },
        _ => 1,
    }
}

/// From any step on, a run that finishes performs the cleanups that it owes.
proof fn lemma_cleanups_from(run: RunView, outcomes: Seq<Result<(), Failure>>)
    requires
        after(run, outcomes).pending == Action::Finish,
    ensures
        count(performed(run, outcomes), Action::CleanUp) == cleanups_owed(run.pending, outcomes),
    decreases outcomes.len(),
{
    if outcomes.len() == 0 || run.pending == Action::Finish {
    } else {
        let next = advanced(run, outcomes[0]);
        let rest = outcomes.skip(1);
        lemma_cleanups_from(next, rest);
        let steps = performed(run, outcomes);
        assert(steps.skip(1) =~= performed(next, rest));
        assert(steps[0] == run.pending);
        if rest.len() > 0 {
            assert(rest[0] == outcomes[1]);
        } else if next.pending != Action::Finish {
            assert(after(next, rest) == next);
        }
    }
}

/// The cleanup runs exactly once in every finished run that created a
/// workspace, whichever steps failed, and never in one that did not.
pub proof fn lemma_cleanup_runs_once(announce: bool, outcomes: Seq<Result<(), Failure>>)
    requires
        after(started(announce), outcomes).pending == Action::Finish,
    ensures
        count(performed(started(announce), outcomes), Action::CleanUp) == if workspace_created(
            outcomes,
        ) {
            1nat
        } else {
            0nat
        },
{
    lemma_cleanups_from(started(announce), outcomes);
}

/// The steps of a run come in their order: each step that is performed
/// stands at or behind the pending one, and none is performed twice.
proof fn lemma_steps_ascend(run: RunView, outcomes: Seq<Result<(), Failure>>, action: Action)
    ensures
        count(performed(run, outcomes), action) <= 1,
        action.rank() < run.pending.rank() ==> count(performed(run, outcomes), action) == 0,
    decreases outcomes.len(),
{
    if outcomes.len() == 0 || run.pending == Action::Finish {
    } else {
        let next = advanced(run, outcomes[0]);
        lemma_steps_ascend(next, outcomes.skip(1), action);
        assert(performed(run, outcomes).skip(1) =~= performed(next, outcomes.skip(1)));
        assert(next.pending.rank() > run.pending.rank());
    }
}

/// No step is attempted twice in a run, and the cleanup is never attempted
/// more than once even in a run that is cut short.
pub proof fn lemma_no_step_twice(
    announce: bool,
    outcomes: Seq<Result<(), Failure>>,
    action: Action,
)
    ensures
        count(performed(started(announce), outcomes), action) <= 1,
{
    lemma_steps_ascend(started(announce), outcomes, action);
}

/// When the mod platform refuses the version, the run reports that failure
/// and goes on to the cleanup: the release is not announced, whatever comes
/// after.
pub proof fn lemma_platform_failure_is_fatal(
    run: RunView,
    failure: Failure,
    later: Seq<Result<(), Failure>>,
)
    requires
        run.pending == Action::PublishModPlatform,
    ensures
        advanced(run, Err(failure)).pending == Action::CleanUp,
        advanced(run, Err(failure)).failure == Some(failure),
        count(performed(advanced(run, Err(failure)), later), Action::Announce) == 0,
        advanced(advanced(run, Err(failure)), Ok(())).pending == Action::Finish,
        advanced(advanced(run, Err(failure)), Ok(())).failure == Some(failure),
{
    lemma_steps_ascend(advanced(run, Err(failure)), later, Action::Announce);
}

/// When the code host fails, the run goes on to the mod platform, keeps the
/// failure as a warning and reports what it would have reported without it.
pub proof fn lemma_code_host_failure_is_a_warning(run: RunView, failure: Failure)
    requires
        run.pending == Action::PublishCodeHost,
    ensures
        advanced(run, Err(failure)).pending == Action::PublishModPlatform,
        advanced(run, Err(failure)).failure == run.failure,
        advanced(run, Err(failure)).warning == Some(failure),
{
}

/// A failure in the workspace leads to the cleanup as the very next step,
/// and the run reports it if the cleanup succeeds.
pub proof fn lemma_failure_leads_to_cleanup(run: RunView, failure: Failure)
    requires
        run.pending.rank() >= Action::Build.rank(),
        run.pending.rank() < Action::CleanUp.rank(),
        run.pending != Action::PublishCodeHost,
    ensures
        advanced(run, Err(failure)).pending == Action::CleanUp,
        advanced(advanced(run, Err(failure)), Ok(())).pending == Action::Finish,
        advanced(advanced(run, Err(failure)), Ok(())).failure == Some(failure),
{
}

} // verus!
