//! Content-aware classification of failed shell commands.
//!
//! Package managers exit non-zero for benign reasons ("nothing to do"), so a
//! result is judged by the phrases in its captured text, not by its exit
//! status alone.

use vstd::prelude::*;

use crate::outcome::{CommandResult, StepOutcome};
use crate::text::{contains, contains_spec, first_line, first_line_spec, phrase};

verus! {

pub const NOTHING_TO_DO: &'static str = "nothing to do";

pub const THERE_IS_NOTHING_TO_DO: &'static str = "there is nothing to do";

pub const UP_TO_DATE: &'static str = "up to date";

pub const UNSATISFIED_DEPENDENCIES: &'static str = "could not satisfy dependencies";

pub const TARGET_NOT_FOUND: &'static str = "target not found";

pub const WARNING: &'static str = "warning";

pub const ERROR: &'static str = "error";

/// The error text says that the package is already current.
pub open spec fn reports_current(stderr: Seq<u8>) -> bool {
    contains_spec(stderr, phrase(NOTHING_TO_DO)) || contains_spec(stderr, phrase(UP_TO_DATE))
}

/// The error text names a dependency or naming problem.
pub open spec fn reports_unresolvable(stderr: Seq<u8>) -> bool {
    contains_spec(stderr, phrase(UNSATISFIED_DEPENDENCIES)) || contains_spec(
        stderr,
        phrase(TARGET_NOT_FOUND),
    )
}

/// Outcome of one package-install command.
pub open spec fn package_outcome(success: bool, stderr: Seq<u8>, critical: bool) -> StepOutcome {
    if success {
        StepOutcome::Succeeded
    } else if reports_current(stderr) {
        StepOutcome::Skipped
    } else if reports_unresolvable(stderr) {
        StepOutcome::SoftFailed
    } else if critical {
        StepOutcome::HardFailed
    } else {
        StepOutcome::SoftFailed
    }
}

/// Outcome of one environment-initialisation command (keyring, database
/// sync, system upgrade): warnings are tolerated, errors are not.
pub open spec fn init_outcome(success: bool, stdout: Seq<u8>, stderr: Seq<u8>) -> StepOutcome {
    if success {
        StepOutcome::Succeeded
    } else if contains_spec(stderr, phrase(NOTHING_TO_DO)) || contains_spec(
        stdout,
        phrase(THERE_IS_NOTHING_TO_DO),
    ) {
        StepOutcome::Skipped
    } else if contains_spec(stderr, phrase(WARNING)) && !contains_spec(stderr, phrase(ERROR)) {
        StepOutcome::SoftFailed
    } else {
        StepOutcome::HardFailed
    }
}

/// Classifies the result of a package-install command; a `critical` package
/// that fails for an unrecognised reason fails the step.
pub fn classify_package(result: &CommandResult, critical: bool) -> (r: StepOutcome)
    ensures
        r == package_outcome(result.success, result.stderr@, critical),
{
    if result.success {
        StepOutcome::Succeeded
    } else if contains(result.stderr.as_slice(), NOTHING_TO_DO.as_bytes()) || contains(
        result.stderr.as_slice(),
        UP_TO_DATE.as_bytes(),
    ) {
        StepOutcome::Skipped
    } else if contains(result.stderr.as_slice(), UNSATISFIED_DEPENDENCIES.as_bytes()) || contains(
        result.stderr.as_slice(),
        TARGET_NOT_FOUND.as_bytes(),
    ) {
        StepOutcome::SoftFailed
    } else if critical {
        StepOutcome::HardFailed
    } else {
        StepOutcome::SoftFailed
    }
}

/// Classifies the result of an environment-initialisation command.
pub fn classify_init(result: &CommandResult) -> (r: StepOutcome)
    ensures
        r == init_outcome(result.success, result.stdout@, result.stderr@),
{
    if result.success {
        StepOutcome::Succeeded
    } else if contains(result.stderr.as_slice(), NOTHING_TO_DO.as_bytes()) || contains(
        result.stdout.as_slice(),
        THERE_IS_NOTHING_TO_DO.as_bytes(),
    ) {
        StepOutcome::Skipped
    } else if contains(result.stderr.as_slice(), WARNING.as_bytes()) && !contains(
        result.stderr.as_slice(),
        ERROR.as_bytes(),
    ) {
        StepOutcome::SoftFailed
    } else {
        StepOutcome::HardFailed
    }
}

/// The line reported beside a failure: the first line of the error text.
pub fn failure_detail(result: &CommandResult) -> (r: Vec<u8>)
    ensures
        r@ == first_line_spec(result.stderr@),
{
    first_line(result.stderr.as_slice())
}

/// A diagnostic self-check (`pacman --version`, `gcc --version`) as reported
/// to the user; its failure is never fatal.
#[derive(Debug)]
pub enum Diagnostic {
    /// The tool answered; its first output line.
    Answered(Vec<u8>),
    /// The tool is not there yet (it comes with the toolchain packages).
    NotYetAvailable,
}

/// Reads a diagnostic self-check; `ran` is false where the command could not
/// be started at all.
pub fn diagnose(ran: bool, result: &CommandResult) -> (r: Diagnostic)
    ensures
        ran && result.success ==> (r matches Diagnostic::Answered(line) && line@ == first_line_spec(
            result.stdout@,
        )),
        !(ran && result.success) ==> r is NotYetAvailable,
{
    if ran && result.success {
        Diagnostic::Answered(first_line(result.stdout.as_slice()))
    } else {
        Diagnostic::NotYetAvailable
    }
}

} // verus!

verus! {

/// A failed package command whose error text says "nothing to do" is
/// classified as skipped, critical or not; and such text never makes any
/// package command a failure.
pub proof fn lemma_nothing_to_do_is_skipped(success: bool, stderr: Seq<u8>, critical: bool)
    requires
        contains_spec(stderr, phrase(NOTHING_TO_DO)),
    ensures
        !success ==> package_outcome(success, stderr, critical) == StepOutcome::Skipped,
        package_outcome(success, stderr, critical) != StepOutcome::SoftFailed,
        package_outcome(success, stderr, critical) != StepOutcome::HardFailed,
{
}

} // verus!

verus! {

/// Outcome of a command whose failure is tolerated (a toolchain command
/// being unavailable, a default not being set).
pub open spec fn tolerated_outcome(success: bool) -> StepOutcome {
    if success {
        StepOutcome::Succeeded
    } else {
        StepOutcome::SoftFailed
    }
}

pub fn classify_tolerated(success: bool) -> (r: StepOutcome)
    ensures
        r == tolerated_outcome(success),
{
    if success {
        StepOutcome::Succeeded
    } else {
        StepOutcome::SoftFailed
    }
}

} // verus!
