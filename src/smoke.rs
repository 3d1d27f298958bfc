//! The verification pass: toolchain queries and a smoke-test program whose
//! failures are advisory only.

use vstd::prelude::*;

use crate::orchestrator::{stage_after, Stage};
use crate::outcome::StepOutcome;
use crate::text::{contains, contains_spec, phrase};

verus! {

/// The text by which an installed target list shows the GNU target.
pub const GNU_TARGET_TAG: &'static str = "windows-gnu";

/// The text the smoke-test program prints when built for the GNU environment.
pub const GNU_MARKER: &'static str = "Successfully using GNU environment";

/// Whether a line of the installed target list names a GNU target.
pub fn is_gnu_target(line: &[u8]) -> (r: bool)
    ensures
        r == contains_spec(line@, phrase(GNU_TARGET_TAG)),
{
    contains(line, GNU_TARGET_TAG.as_bytes())
}

/// Whether the smoke-test program's output carries the marker.
pub fn marker_present(output: &[u8]) -> (r: bool)
    ensures
        r == contains_spec(output@, phrase(GNU_MARKER)),
{
    contains(output, GNU_MARKER.as_bytes())
}

/// What the verification pass observed.
#[derive(PartialEq, Eq, Structural, Clone, Copy, Debug)]
pub struct VerificationReport {
    /// The compiler's version query ran.
    pub info_ok: bool,
    /// The installed target list names the GNU target.
    pub target_listed: bool,
    /// The smoke-test program compiled.
    pub compiled: bool,
    /// The compiled program could be run.
    pub ran: bool,
    /// Its output carries the marker.
    pub marker_found: bool,
}

/// An advisory warning of the verification pass.
#[derive(PartialEq, Eq, Structural, Clone, Copy, Debug)]
pub enum Advisory {
    ToolchainInfoUnavailable,
    TargetNotListed,
    CompileFailed,
    /// Compiled, but could not be run (runtime libraries may be off the path).
    RunFailed,
    /// Ran, but the GNU environment may not be active.
    MarkerMissing,
}

/// The smoke test passed end to end.
pub open spec fn smoke_passed(r: VerificationReport) -> bool {
    r.compiled && r.ran && r.marker_found
}

/// The outcome of the pass: never a hard failure.
pub open spec fn verification_outcome_spec(r: VerificationReport) -> StepOutcome {
    if smoke_passed(r) {
        StepOutcome::Succeeded
    } else {
        StepOutcome::SoftFailed
    }
}

pub fn verification_outcome(r: &VerificationReport) -> (o: StepOutcome)
    ensures
        o == verification_outcome_spec(*r),
{
    if r.compiled && r.ran && r.marker_found {
        StepOutcome::Succeeded
    } else {
        StepOutcome::SoftFailed
    }
}

pub open spec fn opt(c: bool, a: Advisory) -> Seq<Advisory> {
    if c {
        seq![a]
    } else {
        Seq::empty()
    }
}

/// The advisories of a pass, in the order in which it runs its checks; a
/// check that could not run because an earlier one failed adds none.
pub open spec fn advisories_spec(r: VerificationReport) -> Seq<Advisory> {
    opt(!r.info_ok, Advisory::ToolchainInfoUnavailable) + opt(
        !r.target_listed,
        Advisory::TargetNotListed,
    ) + if !r.compiled {
        seq![Advisory::CompileFailed]
    } else if !r.ran {
        seq![Advisory::RunFailed]
    } else {
        opt(!r.marker_found, Advisory::MarkerMissing)
    }
}

pub fn advisories(r: &VerificationReport) -> (v: Vec<Advisory>)
    ensures
        v@ == advisories_spec(*r),
{
    let mut v: Vec<Advisory> = Vec::new();
    if !r.info_ok {
        v.push(Advisory::ToolchainInfoUnavailable);
    }
    if !r.target_listed {
        v.push(Advisory::TargetNotListed);
    }
    if !r.compiled {
        v.push(Advisory::CompileFailed);
    } else if !r.ran {
        v.push(Advisory::RunFailed);
    } else if !r.marker_found {
        v.push(Advisory::MarkerMissing);
    }
    assert(v@ =~= advisories_spec(*r));
    v
}

/// The verification pass never aborts the run: whatever it observed (a
/// compiler that exits non-zero included) the run ends `Done`, and a failed
/// compilation is reported as an advisory warning.
pub proof fn lemma_verification_never_aborts(r: VerificationReport)
    ensures
        verification_outcome_spec(r) != StepOutcome::HardFailed,
        stage_after(Stage::Verifying, verification_outcome_spec(r)) == Stage::Done,
        !r.compiled ==> verification_outcome_spec(r) == StepOutcome::SoftFailed,
        !r.compiled ==> advisories_spec(r).contains(Advisory::CompileFailed),
{
    if !r.compiled {
        assert(advisories_spec(r).last() == Advisory::CompileFailed);
    }
}

} // verus!
