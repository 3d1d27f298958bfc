//! What a shell invocation yields, and how a provisioning step ended.

use vstd::prelude::*;

verus! {

/// How one provisioning step (or one package of a step) ended.
#[derive(PartialEq, Eq, Structural, Clone, Copy, Debug)]
pub enum StepOutcome {
    /// Already satisfied: nothing was done.
    Skipped,
    Succeeded,
    /// Non-fatal: recorded for the summary, the run goes on.
    SoftFailed,
    /// Fatal: the run stops.
    HardFailed,
}

/// The captured result of one shell invocation.
#[derive(Debug)]
pub struct CommandResult {
    /// The process exited with status zero.
    pub success: bool,
    pub stdout: Vec<u8>,
    pub stderr: Vec<u8>,
}

impl CommandResult {
    pub fn new(success: bool, stdout: Vec<u8>, stderr: Vec<u8>) -> (r: CommandResult)
        ensures
            r.success == success,
            r.stdout@ == stdout@,
            r.stderr@ == stderr@,
    {
        CommandResult { success, stdout, stderr }
    }
}

} // verus!
