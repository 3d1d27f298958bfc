use gnu_provision::smoke::{
    advisories, is_gnu_target, marker_present, verification_outcome, Advisory, VerificationReport,
};
use gnu_provision::outcome::StepOutcome;
use gnu_provision::orchestrator::{Orchestrator, Stage};

fn report(compiled: bool, ran: bool, marker_found: bool) -> VerificationReport {
    VerificationReport { info_ok: true, target_listed: true, compiled, ran, marker_found }
}

#[test]
fn target_list_and_marker() {
    assert!(is_gnu_target(b"x86_64-pc-windows-gnu"));
    assert!(!is_gnu_target(b"x86_64-pc-windows-msvc"));
    assert!(marker_present(b"Hello\n\xE2\x9C\x85 Successfully using GNU environment!\n"));
    assert!(!marker_present(b"Not using GNU environment"));
}

#[test]
fn passing_smoke_test_succeeds() {
    assert_eq!(verification_outcome(&report(true, true, true)), StepOutcome::Succeeded);
    assert!(advisories(&report(true, true, true)).is_empty());
}

#[test]
fn failures_are_advisory() {
    assert_eq!(verification_outcome(&report(false, false, false)), StepOutcome::SoftFailed);
    assert_eq!(advisories(&report(false, false, false)), vec![Advisory::CompileFailed]);
    assert_eq!(advisories(&report(true, false, false)), vec![Advisory::RunFailed]);
    assert_eq!(advisories(&report(true, true, false)), vec![Advisory::MarkerMissing]);
    let all = VerificationReport {
        info_ok: false,
        target_listed: false,
        compiled: false,
        ran: false,
        marker_found: false,
    };
    assert_eq!(
        advisories(&all),
        vec![Advisory::ToolchainInfoUnavailable, Advisory::TargetNotListed, Advisory::CompileFailed]
    );
}

#[test]
fn failed_compile_still_ends_done() {
    let mut o = Orchestrator::new();
    while o.stage != Stage::Verifying {
        o.finish_stage(o.stage.name().to_string(), StepOutcome::Succeeded);
    }
    let outcome = verification_outcome(&report(false, false, false));
    o.finish_stage("verification".to_string(), outcome);
    assert_eq!(o.stage, Stage::Done);
    assert!(o.succeeded());
    assert_eq!(o.warnings(), 1);
}
