//! Acquiring an installer and running it: download, silent run, elevated
//! run, manual fallback, cleanup of the artifact and the post-condition check.
//!
//! The caller performs each `Action` and reports what happened as an
//! `Event`; `InstallSession::step` decides what comes next.

use vstd::prelude::*;

use crate::outcome::StepOutcome;
use crate::text::{contains, contains_spec, phrase};

verus! {

/// The phrase with which the host shell refuses to run the download helper.
pub const SCRIPTS_DISABLED: &'static str = "cannot be loaded because running scripts is disabled";

/// Why a download failed.
#[derive(PartialEq, Eq, Structural, Clone, Copy, Debug)]
pub enum AcquireError {
    /// The execution policy prevents running the download helper.
    PolicyBlocked,
    /// The helper exited non-zero.
    TransferFailed,
    /// The helper reported success but the file is not there.
    ArtifactMissing,
}

/// The result of a download, from the helper's exit status, its error text
/// and whether the destination file exists afterwards.
pub open spec fn download_result(exit_ok: bool, stderr: Seq<u8>, file_present: bool) -> Result<
    (),
    AcquireError,
> {
    if !exit_ok {
        if contains_spec(stderr, phrase(SCRIPTS_DISABLED)) {
            Err(AcquireError::PolicyBlocked)
        } else {
            Err(AcquireError::TransferFailed)
        }
    } else if !file_present {
        Err(AcquireError::ArtifactMissing)
    } else {
        Ok(())
    }
}

/// Judges a finished download; success is never assumed from the exit
/// status alone.
pub fn check_download(exit_ok: bool, stderr: &[u8], file_present: bool) -> (r: Result<(), AcquireError>)
    ensures
        r == download_result(exit_ok, stderr@, file_present),
{
    if !exit_ok {
        if contains(stderr, SCRIPTS_DISABLED.as_bytes()) {
            Err(AcquireError::PolicyBlocked)
        } else {
            Err(AcquireError::TransferFailed)
        }
    } else if !file_present {
        Err(AcquireError::ArtifactMissing)
    } else {
        Ok(())
    }
}

/// Why an installation failed.
#[derive(PartialEq, Eq, Structural, Clone, Copy, Debug)]
pub enum InstallError {
    Acquire(AcquireError),
    /// The installer failed and no fallback was allowed.
    InstallerFailed,
    /// The expected installation artifact is absent after the install.
    ArtifactAbsent,
}

/// Where a session stands.
#[derive(PartialEq, Eq, Structural, Clone, Copy, Debug)]
pub enum Phase {
    Acquiring,
    Silent,
    Elevated,
    Manual,
    Cleanup,
    Checking,
    Finished,
}

/// What the caller reports back.
#[derive(Clone, Copy, Debug)]
pub enum Event {
    /// The download ended, as judged by `check_download`.
    Downloaded(Result<(), AcquireError>),
    /// The installer (silent or elevated) exited; true for status zero.
    Exited(bool),
    /// The user confirmed the end of a manual installation.
    Acknowledged,
    /// The downloaded artifact was deleted (or was not there).
    Removed,
    /// The installation artifact was looked for; true if it exists.
    Checked(bool),
}

/// What the caller does next.
#[derive(Clone, Copy, Debug)]
pub enum Action {
    Download,
    RunSilent,
    /// Run the installer again, asking for administrator rights, and wait.
    RunElevated,
    /// Print the manual steps and wait for one line of input.
    PromptManual,
    RemoveArtifact,
    CheckArtifact,
    Finish(Result<(), InstallError>),
}

/// One installation, from download to the post-condition check.
#[derive(Clone, Copy, Debug)]
pub struct InstallSession {
    pub phase: Phase,
    /// A failed silent run falls back to an elevated and then a manual run.
    pub fallback: bool,
    /// The expected artifact is checked for after the install.
    pub check_after: bool,
    /// A downloaded (possibly partial) artifact may be on disk.
    pub artifact_on_disk: bool,
    /// The error to report once the artifact is removed.
    pub pending: Option<InstallError>,
}

impl InstallSession {
    /// An artifact may be on disk exactly until it has been removed.
    pub open spec fn wf(self) -> bool {
        &&& self.artifact_on_disk <==> !(self.phase is Checking || self.phase is Finished)
        &&& self.pending is Some ==> self.phase is Cleanup
    }

    /// The events that the session waits for in its phase.
    pub open spec fn accepts(self, e: Event) -> bool {
        match self.phase {
            Phase::Acquiring => e is Downloaded,
            Phase::Silent | Phase::Elevated => e is Exited,
            Phase::Manual => e is Acknowledged,
            Phase::Cleanup => e is Removed,
            Phase::Checking => e is Checked,
            Phase::Finished => false,
        }
    }

    /// The session after `e`, and the action it asks for.
    pub open spec fn next(self, e: Event) -> (InstallSession, Action) {
        let cleanup = |p: Option<InstallError>|
            (InstallSession { phase: Phase::Cleanup, pending: p, ..self }, Action::RemoveArtifact);
        match e {
            Event::Downloaded(Ok(())) => (
                InstallSession { phase: Phase::Silent, ..self },
                Action::RunSilent,
            ),
            Event::Downloaded(Err(a)) => cleanup(Some(InstallError::Acquire(a))),
            Event::Exited(true) => cleanup(None),
            Event::Exited(false) => if self.phase is Silent && self.fallback {
                (InstallSession { phase: Phase::Elevated, ..self }, Action::RunElevated)
            } else if self.phase is Silent {
                cleanup(Some(InstallError::InstallerFailed))
            } else {
                (InstallSession { phase: Phase::Manual, ..self }, Action::PromptManual)
            },
            Event::Acknowledged => cleanup(None),
            Event::Removed => match self.pending {
                Some(err) => (
                    InstallSession {
                        phase: Phase::Finished,
                        artifact_on_disk: false,
                        pending: None,
                        ..self
                    },
                    Action::Finish(Err(err)),
                ),
                None => if self.check_after {
                    (
                        InstallSession { phase: Phase::Checking, artifact_on_disk: false, ..self },
                        Action::CheckArtifact,
                    )
                } else {
                    (
                        InstallSession { phase: Phase::Finished, artifact_on_disk: false, ..self },
                        Action::Finish(Ok(())),
                    )
                },
            },
            Event::Checked(found) => (
                InstallSession { phase: Phase::Finished, ..self },
                Action::Finish(
                    if found {
                        Ok(())
                    } else {
                        Err(InstallError::ArtifactAbsent)
                    },
                ),
            ),
        }
    }

    /// A new session; its first action is `Action::Download`.
    pub fn new(fallback: bool, check_after: bool) -> (r: InstallSession)
        ensures
            r.wf(),
            r.phase is Acquiring,
            r.fallback == fallback,
            r.check_after == check_after,
    {
        InstallSession {
            phase: Phase::Acquiring,
            fallback,
            check_after,
            artifact_on_disk: true,
            pending: None,
        }
    }

    /// Whether the session waits for `e` now.
    pub fn accepts_event(&self, e: &Event) -> (r: bool)
        ensures
            r == self.accepts(*e),
    {
        match self.phase {
            Phase::Acquiring => matches!(e, Event::Downloaded(_)),
            Phase::Silent | Phase::Elevated => matches!(e, Event::Exited(_)),
            Phase::Manual => matches!(e, Event::Acknowledged),
            Phase::Cleanup => matches!(e, Event::Removed),
            Phase::Checking => matches!(e, Event::Checked(_)),
            Phase::Finished => false,
        }
    }

    fn cleanup(&mut self, pending: Option<InstallError>) -> (a: Action)
        ensures
            *final(self) == (InstallSession { phase: Phase::Cleanup, pending, ..*old(self) }),
            a == Action::RemoveArtifact,
    {
        self.phase = Phase::Cleanup;
        self.pending = pending;
        Action::RemoveArtifact
    }

    /// Takes the caller's report of the last action and returns the next one.
    pub fn step(&mut self, e: Event) -> (a: Action)
        requires
            old(self).wf(),
            old(self).accepts(e),
        ensures
            final(self).wf(),
            (*final(self), a) == old(self).next(e),
    {
        match e {
            Event::Downloaded(Ok(())) => {
                self.phase = Phase::Silent;
                Action::RunSilent
            },
            Event::Downloaded(Err(a)) => self.cleanup(Some(InstallError::Acquire(a))),
            Event::Exited(true) => self.cleanup(None),
            Event::Exited(false) => {
                if matches!(self.phase, Phase::Silent) && self.fallback {
                    self.phase = Phase::Elevated;
                    Action::RunElevated
                } else if matches!(self.phase, Phase::Silent) {
                    self.cleanup(Some(InstallError::InstallerFailed))
                } else {
                    self.phase = Phase::Manual;
                    Action::PromptManual
                }
            },
            Event::Acknowledged => self.cleanup(None),
            Event::Removed => {
                self.artifact_on_disk = false;
                match self.pending {
                    Some(err) => {
                        self.phase = Phase::Finished;
                        self.pending = None;
                        Action::Finish(Err(err))
                    },
                    None => {
                        if self.check_after {
                            self.phase = Phase::Checking;
                            Action::CheckArtifact
                        } else {
                            self.phase = Phase::Finished;
                            Action::Finish(Ok(()))
                        }
                    },
                }
            },
            Event::Checked(found) => {
                self.phase = Phase::Finished;
                Action::Finish(
                    if found {
                        Ok(())
                    } else {
                        Err(InstallError::ArtifactAbsent)
                    },
                )
            },
        }
    }
}

/// The step outcome of a finished installation: any error is fatal.
pub open spec fn install_step_outcome(r: Result<(), InstallError>) -> StepOutcome {
    match r {
        Ok(()) => StepOutcome::Succeeded,
        Err(_) => StepOutcome::HardFailed,
    }
}

pub fn install_outcome(r: &Result<(), InstallError>) -> (o: StepOutcome)
    ensures
        o == install_step_outcome(*r),
{
    match r {
        Ok(()) => StepOutcome::Succeeded,
        Err(_) => StepOutcome::HardFailed,
    }
}

/// No installer artifact is left behind: a failed download is answered by
/// removing the artifact, and whenever a session finishes, on success or on
/// failure, the artifact has been removed.
pub proof fn lemma_no_leaked_artifact(s: InstallSession, e: Event)
    requires
        s.wf(),
        s.accepts(e),
    ensures
        (e matches Event::Downloaded(Err(_))) ==> s.next(e).1 == Action::RemoveArtifact,
        s.next(e).1 is Finish ==> !s.next(e).0.artifact_on_disk,
        s.next(e).0.phase is Finished ==> !s.next(e).0.artifact_on_disk,
{
}

/// What a bounded readiness poll does after looking for a file.
#[derive(PartialEq, Eq, Structural, Clone, Copy, Debug)]
pub enum Poll {
    Ready,
    /// Sleep one interval and look again.
    Wait,
    TimedOut,
}

/// Decides a readiness poll: `attempt` looks (counted from zero) have been
/// made before this one, out of at most `bound`.
pub fn poll_next(attempt: u32, bound: u32, found: bool) -> (r: Poll)
    ensures
        found ==> r == Poll::Ready,
        !found && attempt + 1 < bound ==> r == Poll::Wait,
        !found && attempt + 1 >= bound ==> r == Poll::TimedOut,
{
    if found {
        Poll::Ready
    } else if attempt < bound && bound - attempt > 1 {
        Poll::Wait
    } else {
        Poll::TimedOut
    }
}

} // verus!
