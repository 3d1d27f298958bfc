use gnu_provision::classify::{
    classify_init, classify_package, classify_tolerated, diagnose, failure_detail, Diagnostic,
};
use gnu_provision::outcome::{CommandResult, StepOutcome};

fn failed(stderr: &str) -> CommandResult {
    CommandResult::new(false, Vec::new(), stderr.as_bytes().to_vec())
}

#[test]
fn nothing_to_do_is_skipped() {
    let r = failed("warning: mingw-w64-x86_64-cmake is up to date -- skipping\n there is nothing to do");
    assert_eq!(classify_package(&r, false), StepOutcome::Skipped);
    assert_eq!(classify_package(&r, true), StepOutcome::Skipped);
    assert_eq!(classify_package(&failed(" nothing to do"), true), StepOutcome::Skipped);
}

#[test]
fn up_to_date_is_skipped() {
    assert_eq!(classify_package(&failed("package is up to date"), false), StepOutcome::Skipped);
}

#[test]
fn unsatisfied_dependencies_is_soft() {
    let r = failed("error: failed to prepare transaction (could not satisfy dependencies)");
    assert_eq!(classify_package(&r, false), StepOutcome::SoftFailed);
    assert_eq!(classify_package(&r, true), StepOutcome::SoftFailed);
}

#[test]
fn target_not_found_is_soft() {
    let r = failed("error: target not found: mingw-w64-x86_64-pkg-config");
    assert_eq!(classify_package(&r, true), StepOutcome::SoftFailed);
}

#[test]
fn unknown_failure_depends_on_criticality() {
    let r = failed("error: failed retrieving file\nmore");
    assert_eq!(classify_package(&r, false), StepOutcome::SoftFailed);
    assert_eq!(classify_package(&r, true), StepOutcome::HardFailed);
    assert_eq!(failure_detail(&r), b"error: failed retrieving file".to_vec());
}

#[test]
fn zero_exit_succeeds() {
    let r = CommandResult::new(true, b"ok".to_vec(), b"nothing to do".to_vec());
    assert_eq!(classify_package(&r, true), StepOutcome::Succeeded);
    assert_eq!(classify_init(&r), StepOutcome::Succeeded);
}

#[test]
fn init_tolerates_warnings_not_errors() {
    assert_eq!(classify_init(&failed("warning: config file missing")), StepOutcome::SoftFailed);
    assert_eq!(
        classify_init(&failed("warning: x\nerror: keyring is not writable")),
        StepOutcome::HardFailed
    );
    assert_eq!(classify_init(&failed("fatal")), StepOutcome::HardFailed);
    assert_eq!(classify_init(&failed(" there is nothing to do")), StepOutcome::Skipped);
    let quiet = CommandResult::new(false, b" there is nothing to do".to_vec(), b"".to_vec());
    assert_eq!(classify_init(&quiet), StepOutcome::Skipped);
}

#[test]
fn tolerated_commands_never_hard_fail() {
    assert_eq!(classify_tolerated(true), StepOutcome::Succeeded);
    assert_eq!(classify_tolerated(false), StepOutcome::SoftFailed);
}

#[test]
fn diagnostics_report_first_line_or_note() {
    let ok = CommandResult::new(true, b"gcc.exe (Rev3) 13.2.0\nCopyright".to_vec(), Vec::new());
    match diagnose(true, &ok) {
        Diagnostic::Answered(line) => assert_eq!(line, b"gcc.exe (Rev3) 13.2.0".to_vec()),
        Diagnostic::NotYetAvailable => panic!("expected an answer"),
    }
    assert!(matches!(diagnose(false, &ok), Diagnostic::NotYetAvailable));
    let bad = CommandResult::new(false, b"x".to_vec(), Vec::new());
    assert!(matches!(diagnose(true, &bad), Diagnostic::NotYetAvailable));
}
