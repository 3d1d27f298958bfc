//! The run as a strictly forward state machine, and the report it keeps.
//!
//! The caller performs each stage's work and hands the outcome back; the
//! machine decides whether the run goes on, and where.

use vstd::prelude::*;

use crate::classify::{
    classify_init, classify_package, init_outcome, package_outcome, reports_current,
    UNSATISFIED_DEPENDENCIES,
};
use crate::outcome::{CommandResult, StepOutcome};
use crate::text::{contains_spec, phrase};

verus! {

/// The stages of a run, in order, with the terminal `Done` and `Aborted`.
#[derive(PartialEq, Eq, Structural, Clone, Copy, Debug)]
pub enum Stage {
    CheckingPrereqs,
    InstallingPackageManagerEnv,
    InstallingCompilerPackages,
    InstallingLanguageToolchain,
    WritingConfig,
    Verifying,
    Done,
    Aborted,
}

/// The stage that follows `s` when `s` ends without a hard failure.
pub open spec fn next_stage(s: Stage) -> Stage {
    match s {
        Stage::CheckingPrereqs => Stage::InstallingPackageManagerEnv,
        Stage::InstallingPackageManagerEnv => Stage::InstallingCompilerPackages,
        Stage::InstallingCompilerPackages => Stage::InstallingLanguageToolchain,
        Stage::InstallingLanguageToolchain => Stage::WritingConfig,
        Stage::WritingConfig => Stage::Verifying,
        Stage::Verifying => Stage::Done,
        Stage::Done => Stage::Done,
        Stage::Aborted => Stage::Aborted,
    }
}

/// The stage after recording `o` in stage `s`: a hard failure aborts.
pub open spec fn stage_after_record(s: Stage, o: StepOutcome) -> Stage {
    if o == StepOutcome::HardFailed {
        Stage::Aborted
    } else {
        s
    }
}

/// The stage after stage `s` ends with outcome `o`.
pub open spec fn stage_after(s: Stage, o: StepOutcome) -> Stage {
    if o == StepOutcome::HardFailed {
        Stage::Aborted
    } else {
        next_stage(s)
    }
}

impl Stage {
    pub open spec fn is_terminal(self) -> bool {
        self is Done || self is Aborted
    }

    /// Stages that download, install or write something on the host.
    pub open spec fn is_provisioning(self) -> bool {
        ||| self is InstallingPackageManagerEnv
        ||| self is InstallingCompilerPackages
        ||| self is InstallingLanguageToolchain
        ||| self is WritingConfig
    }

    pub fn is_done(&self) -> (r: bool)
        ensures
            r == (*self is Done),
    {
        matches!(self, Stage::Done)
    }

    pub fn is_aborted(&self) -> (r: bool)
        ensures
            r == (*self is Aborted),
    {
        matches!(self, Stage::Aborted)
    }

    /// The name under which a skipped stage is reported.
    pub fn name(&self) -> &'static str {
        match self {
            Stage::CheckingPrereqs => "prerequisites",
            Stage::InstallingPackageManagerEnv => "package manager environment",
            Stage::InstallingCompilerPackages => "compiler packages",
            Stage::InstallingLanguageToolchain => "language toolchain",
            Stage::WritingConfig => "build configuration",
            Stage::Verifying => "verification",
            Stage::Done => "done",
            Stage::Aborted => "aborted",
        }
    }
}

/// What the probes found on the host before a stage is entered.
#[derive(Clone, Copy, Debug, PartialEq, Eq, Structural)]
pub struct HostFacts {
    pub package_env_present: bool,
    pub compiler_present: bool,
    pub toolchain_present: bool,
    /// The configuration file exists with exactly the content this run writes.
    pub config_current: bool,
}

impl HostFacts {
    pub open spec fn all_present(self) -> bool {
        self.package_env_present && self.compiler_present && self.toolchain_present
            && self.config_current
    }
}

/// The work of stage `s` is already present on the host.
pub open spec fn satisfied(s: Stage, f: HostFacts) -> bool {
    match s {
        Stage::InstallingPackageManagerEnv => f.package_env_present,
        Stage::InstallingCompilerPackages => f.compiler_present,
        Stage::InstallingLanguageToolchain => f.toolchain_present,
        Stage::WritingConfig => f.config_current,
        _ => false,
    }
}

/// Whether the work of stage `s` can be skipped.
pub fn is_satisfied(s: Stage, f: &HostFacts) -> (r: bool)
    ensures
        r == satisfied(s, *f),
{
    match s {
        Stage::InstallingPackageManagerEnv => f.package_env_present,
        Stage::InstallingCompilerPackages => f.compiler_present,
        Stage::InstallingLanguageToolchain => f.toolchain_present,
        Stage::WritingConfig => f.config_current,
        _ => false,
    }
}

/// One line of the run report.
#[derive(Debug)]
pub struct ReportEntry {
    pub name: String,
    pub outcome: StepOutcome,
}

/// Number of soft failures in `s`.
pub open spec fn count_soft(s: Seq<StepOutcome>) -> nat
    decreases s.len(),
{
    if s.len() == 0 {
        0
    } else {
        count_soft(s.drop_last()) + if s.last() == StepOutcome::SoftFailed {
            1nat
        } else {
            0nat
        }
    }
}

/// The run: its current stage and the report accumulated so far.
#[derive(Debug)]
pub struct Orchestrator {
    pub stage: Stage,
    pub report: Vec<ReportEntry>,
}

impl Orchestrator {
    /// The outcomes of the report, in order.
    pub open spec fn outcomes(&self) -> Seq<StepOutcome> {
        self.report@.map_values(|e: ReportEntry| e.outcome)
    }

    /// At most one hard failure, as the last entry, exactly when the run
    /// is aborted.
    pub open spec fn wf(&self) -> bool {
        &&& forall|i: int|
            0 <= i < self.outcomes().len() - 1 ==> self.outcomes()[i] != StepOutcome::HardFailed
        &&& (self.stage is Aborted) <==> (self.outcomes().len() > 0 && self.outcomes().last()
            == StepOutcome::HardFailed)
    }

    pub fn new() -> (r: Orchestrator)
        ensures
            r.wf(),
            r.stage is CheckingPrereqs,
            r.report@.len() == 0,
    {
        Orchestrator { stage: Stage::CheckingPrereqs, report: Vec::new() }
    }

    /// Records the outcome of a step of the current stage; a hard failure
    /// aborts the run.
    pub fn record(&mut self, name: String, outcome: StepOutcome)
        requires
            old(self).wf(),
            !old(self).stage.is_terminal(),
        ensures
            final(self).wf(),
            final(self).stage == stage_after_record(old(self).stage, outcome),
            final(self).report@.len() == old(self).report@.len() + 1,
            final(self).report@.drop_last() == old(self).report@,
            final(self).report@.last().outcome == outcome,
            final(self).report@.last().name@ == name@,
    {
        self.report.push(ReportEntry { name, outcome });
        if outcome == StepOutcome::HardFailed {
            self.stage = Stage::Aborted;
        }
        proof {
            assert(self.report@.drop_last() =~= old(self).report@);
            assert(self.outcomes().drop_last() =~= old(self).outcomes());
            assert forall|i: int| 0 <= i < self.outcomes().len() - 1 implies self.outcomes()[i]
                != StepOutcome::HardFailed by {
                assert(self.outcomes()[i] == old(self).outcomes()[i]);
            }
        }
    }

    /// Ends the current stage with `outcome`: a hard failure aborts the run,
    /// anything else moves it to the next stage.
    pub fn finish_stage(&mut self, name: String, outcome: StepOutcome)
        requires
            old(self).wf(),
            !old(self).stage.is_terminal(),
        ensures
            final(self).wf(),
            final(self).stage == stage_after(old(self).stage, outcome),
            final(self).report@.len() == old(self).report@.len() + 1,
            final(self).report@.drop_last() == old(self).report@,
            final(self).report@.last().outcome == outcome,
            final(self).report@.last().name@ == name@,
    {
        self.record(name, outcome);
        if outcome != StepOutcome::HardFailed {
            self.advance();
        }
    }

    /// Moves to the next stage after the current one completed.
    pub fn advance(&mut self)
        requires
            old(self).wf(),
            !old(self).stage.is_terminal(),
        ensures
            final(self).wf(),
            final(self).stage == next_stage(old(self).stage),
            final(self).report == old(self).report,
    {
        self.stage = match self.stage {
            Stage::CheckingPrereqs => Stage::InstallingPackageManagerEnv,
            Stage::InstallingPackageManagerEnv => Stage::InstallingCompilerPackages,
            Stage::InstallingCompilerPackages => Stage::InstallingLanguageToolchain,
            Stage::InstallingLanguageToolchain => Stage::WritingConfig,
            Stage::WritingConfig => Stage::Verifying,
            Stage::Verifying => Stage::Done,
            Stage::Done => Stage::Done,
            Stage::Aborted => Stage::Aborted,
        };
    }

    /// Enters the current stage: where its work is already present on the
    /// host it is reported as skipped and the run moves on (returns false);
    /// otherwise the caller has its work to do (returns true).
    pub fn enter(&mut self, facts: &HostFacts) -> (run: bool)
        requires
            old(self).wf(),
            !old(self).stage.is_terminal(),
        ensures
            final(self).wf(),
            run == !satisfied(old(self).stage, *facts),
            run ==> *final(self) == *old(self),
            !run ==> final(self).stage == next_stage(old(self).stage),
            !run ==> final(self).report@.len() == old(self).report@.len() + 1,
            !run ==> final(self).report@.drop_last() == old(self).report@,
            !run ==> final(self).report@.last().outcome == StepOutcome::Skipped,
    {
        if is_satisfied(self.stage, facts) {
            let name = self.stage.name().to_owned();
            self.finish_stage(name, StepOutcome::Skipped);
            false
        } else {
            true
        }
    }

    /// Classifies and records the result of one package-install command.
    pub fn record_package(&mut self, name: String, result: &CommandResult, critical: bool) -> (o:
        StepOutcome)
        requires
            old(self).wf(),
            !old(self).stage.is_terminal(),
        ensures
            o == package_outcome(result.success, result.stderr@, critical),
            final(self).wf(),
            final(self).stage == stage_after_record(old(self).stage, o),
            final(self).report@.len() == old(self).report@.len() + 1,
            final(self).report@.drop_last() == old(self).report@,
            final(self).report@.last().outcome == o,
            final(self).report@.last().name@ == name@,
    {
        let o = classify_package(result, critical);
        self.record(name, o);
        o
    }

    /// Classifies and records the result of one environment-initialisation
    /// command.
    pub fn record_init(&mut self, name: String, result: &CommandResult) -> (o: StepOutcome)
        requires
            old(self).wf(),
            !old(self).stage.is_terminal(),
        ensures
            o == init_outcome(result.success, result.stdout@, result.stderr@),
            final(self).wf(),
            final(self).stage == stage_after_record(old(self).stage, o),
            final(self).report@.len() == old(self).report@.len() + 1,
            final(self).report@.drop_last() == old(self).report@,
            final(self).report@.last().outcome == o,
            final(self).report@.last().name@ == name@,
    {
        let o = classify_init(result);
        self.record(name, o);
        o
    }

    /// Positions in the report of the soft failures, in order.
    pub fn soft_failures(&self) -> (r: Vec<usize>)
        ensures
            forall|k: int|
                0 <= k < r@.len() ==> r@[k] < self.outcomes().len() && self.outcomes()[r@[k] as int]
                    == StepOutcome::SoftFailed,
            forall|k: int, m: int| 0 <= k < m < r@.len() ==> r@[k] < r@[m],
            forall|i: int|
                0 <= i < self.outcomes().len() && self.outcomes()[i] == StepOutcome::SoftFailed
                    ==> r@.contains(i as usize),
    {
        let mut r: Vec<usize> = Vec::new();
        let mut i: usize = 0;
        while i < self.report.len()
            invariant
                0 <= i <= self.report@.len(),
                forall|k: int|
                    0 <= k < r@.len() ==> r@[k] < i && self.outcomes()[r@[k] as int]
                        == StepOutcome::SoftFailed,
                forall|k: int, m: int| 0 <= k < m < r@.len() ==> r@[k] < r@[m],
                forall|j: int|
                    0 <= j < i && self.outcomes()[j] == StepOutcome::SoftFailed ==> r@.contains(
                        j as usize,
                    ),
            decreases self.report@.len() - i,
        {
            let ghost before = r@;
            if self.report[i].outcome == StepOutcome::SoftFailed {
                r.push(i);
                assert(r@[r@.len() - 1] == i);
            }
            assert forall|j: int|
                0 <= j < i + 1 && self.outcomes()[j] == StepOutcome::SoftFailed implies r@.contains(
                j as usize,
            ) by {
                if j < i {
                    let k = choose|k: int| 0 <= k < before.len() && before[k] == j as usize;
                    assert(r@[k] == j as usize);
                } else {
                    assert(r@[r@.len() - 1] == i);
                }
            }
            i = i + 1;
        }
        r
    }

    /// The run ended successfully.
    pub fn succeeded(&self) -> (r: bool)
        ensures
            r == (self.stage is Done),
    {
        self.stage.is_done()
    }

    /// Number of soft failures reported so far: one warning line each.
    pub fn warnings(&self) -> (r: usize)
        ensures
            r == count_soft(self.outcomes()),
    {
        let mut n: usize = 0;
        let mut i: usize = 0;
        while i < self.report.len()
            invariant
                0 <= i <= self.report@.len(),
                n == count_soft(self.outcomes().take(i as int)),
                n <= i,
            decreases self.report@.len() - i,
        {
            assert(self.outcomes().take(i + 1).drop_last() =~= self.outcomes().take(i as int));
            if self.report[i].outcome == StepOutcome::SoftFailed {
                n = n + 1;
            }
            i = i + 1;
        }
        assert(self.outcomes().take(i as int) =~= self.outcomes());
        n
    }
}

/// A failed package whose error text says "could not satisfy dependencies"
/// (and does not also say that it is already current) is a soft failure,
/// critical or not, and recording it leaves the run where it was, so the
/// next package is installed.
pub proof fn lemma_unresolvable_package_continues(stderr: Seq<u8>, critical: bool, s: Stage)
    requires
        contains_spec(stderr, phrase(UNSATISFIED_DEPENDENCIES)),
        !reports_current(stderr),
    ensures
        package_outcome(false, stderr, critical) == StepOutcome::SoftFailed,
        stage_after_record(s, package_outcome(false, stderr, critical)) == s,
{
}

/// After a successful run every provisioning stage finds its work present,
/// so a second run reports each of them as skipped and downloads, installs
/// and writes nothing.
pub proof fn lemma_rerun_skips(facts: HostFacts)
    requires
        facts.all_present(),
    ensures
        forall|s: Stage| #[trigger] s.is_provisioning() ==> satisfied(s, facts),
        next_stage(
            next_stage(next_stage(next_stage(Stage::InstallingPackageManagerEnv))),
        ) == Stage::Verifying,
{
}

} // verus!
