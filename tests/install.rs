use gnu_provision::install::{
    check_download, install_outcome, poll_next, AcquireError, Action, Event, InstallError,
    InstallSession, Phase, Poll,
};
use gnu_provision::outcome::StepOutcome;

fn drive(s: &mut InstallSession, events: &[Event]) -> Vec<Action> {
    let mut out = Vec::new();
    for e in events {
        assert!(s.accepts_event(e));
        out.push(s.step(*e));
    }
    out
}

#[test]
fn download_errors_are_classified() {
    assert_eq!(
        check_download(false, b"File C:\\x.ps1 cannot be loaded because running scripts is disabled on this system.", false),
        Err(AcquireError::PolicyBlocked)
    );
    assert_eq!(check_download(false, b"404 Not Found", true), Err(AcquireError::TransferFailed));
    assert_eq!(check_download(true, b"", false), Err(AcquireError::ArtifactMissing));
    assert_eq!(check_download(true, b"", true), Ok(()));
}

#[test]
fn silent_install_then_cleanup_then_check() {
    let mut s = InstallSession::new(true, true);
    assert!(s.artifact_on_disk);
    let acts = drive(
        &mut s,
        &[Event::Downloaded(Ok(())), Event::Exited(true), Event::Removed, Event::Checked(true)],
    );
    assert!(matches!(acts[0], Action::RunSilent));
    assert!(matches!(acts[1], Action::RemoveArtifact));
    assert!(matches!(acts[2], Action::CheckArtifact));
    assert!(matches!(acts[3], Action::Finish(Ok(()))));
    assert_eq!(s.phase, Phase::Finished);
    assert!(!s.artifact_on_disk);
}

#[test]
fn failed_download_removes_partial_artifact() {
    let mut s = InstallSession::new(true, true);
    let acts = drive(&mut s, &[Event::Downloaded(Err(AcquireError::TransferFailed)), Event::Removed]);
    assert!(matches!(acts[0], Action::RemoveArtifact));
    assert!(matches!(acts[1], Action::Finish(Err(InstallError::Acquire(AcquireError::TransferFailed)))));
    assert!(!s.artifact_on_disk);
    assert!(!s.accepts_event(&Event::Removed));
}

#[test]
fn elevated_then_manual_fallback() {
    let mut s = InstallSession::new(true, true);
    let acts = drive(
        &mut s,
        &[
            Event::Downloaded(Ok(())),
            Event::Exited(false),
            Event::Exited(false),
            Event::Acknowledged,
            Event::Removed,
            Event::Checked(false),
        ],
    );
    assert!(matches!(acts[1], Action::RunElevated));
    assert!(matches!(acts[2], Action::PromptManual));
    assert!(matches!(acts[3], Action::RemoveArtifact));
    assert!(matches!(acts[4], Action::CheckArtifact));
    assert!(matches!(acts[5], Action::Finish(Err(InstallError::ArtifactAbsent))));
    assert_eq!(install_outcome(&Err(InstallError::ArtifactAbsent)), StepOutcome::HardFailed);
}

#[test]
fn without_fallback_a_failed_installer_is_an_error() {
    let mut s = InstallSession::new(false, false);
    let acts = drive(&mut s, &[Event::Downloaded(Ok(())), Event::Exited(false), Event::Removed]);
    assert!(matches!(acts[1], Action::RemoveArtifact));
    assert!(matches!(acts[2], Action::Finish(Err(InstallError::InstallerFailed))));
    let mut ok = InstallSession::new(false, false);
    let acts = drive(&mut ok, &[Event::Downloaded(Ok(())), Event::Exited(true), Event::Removed]);
    assert!(matches!(acts[2], Action::Finish(Ok(()))));
    assert_eq!(install_outcome(&Ok(())), StepOutcome::Succeeded);
}

#[test]
fn unexpected_events_are_not_accepted() {
    let s = InstallSession::new(true, true);
    assert!(!s.accepts_event(&Event::Exited(true)));
    assert!(!s.accepts_event(&Event::Removed));
    assert!(s.accepts_event(&Event::Downloaded(Ok(()))));
}

#[test]
fn readiness_poll_is_bounded() {
    assert_eq!(poll_next(0, 10, true), Poll::Ready);
    assert_eq!(poll_next(0, 10, false), Poll::Wait);
    assert_eq!(poll_next(8, 10, false), Poll::Wait);
    assert_eq!(poll_next(9, 10, false), Poll::TimedOut);
    assert_eq!(poll_next(9, 10, true), Poll::Ready);
    assert_eq!(poll_next(0, 0, false), Poll::TimedOut);
    assert_eq!(poll_next(u32::MAX, u32::MAX, false), Poll::TimedOut);
}
