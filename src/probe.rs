//! Reading what the host already has, so that completed stages are skipped.
//!
//! The caller looks at the host (which candidate paths exist, whether a
//! version query ran) and hands the observation in; detection itself reads
//! nothing else and changes nothing.

use vstd::prelude::*;

use crate::orchestrator::HostFacts;
use crate::text::{contains, contains_spec, phrase, same_bytes};

verus! {

/// The one operating system this provisioning sequence is for.
pub const SUPPORTED_OS: &'static str = "windows";

/// The phrase in a compiler version that marks the MSVC toolchain.
pub const MSVC: &'static str = "msvc";

/// Whether the run can proceed on the operating system named `os` (as the
/// standard library names it).
pub fn platform_supported(os: &str) -> (r: bool)
    ensures
        r == (phrase(os) == phrase(SUPPORTED_OS)),
{
    same_bytes(os.as_bytes(), SUPPORTED_OS.as_bytes())
}

/// What a probe looks for.
#[derive(PartialEq, Eq, Structural, Clone, Copy, Debug)]
pub enum ComponentKind {
    /// The package-manager environment: found by its shell's path.
    PackageEnv,
    /// The compiler: found by a version query that runs.
    Compiler,
    /// The language toolchain manager: found by a version query that runs.
    Toolchain,
}

#[derive(PartialEq, Eq, Structural, Clone, Copy, Debug)]
pub enum Presence {
    Present,
    Absent,
}

/// What the caller observed on the host for one probe.
#[derive(Debug)]
pub struct Observation {
    /// For each well-known candidate path, in order, whether it exists.
    pub paths_present: Vec<bool>,
    /// The component's version query ran and exited with status zero.
    pub command_ok: bool,
}

/// Some candidate path exists.
pub open spec fn any_present(paths: Seq<bool>) -> bool {
    exists|i: int| 0 <= i < paths.len() && paths[i]
}

pub open spec fn detect_spec(kind: ComponentKind, paths: Seq<bool>, command_ok: bool) -> Presence {
    let found = match kind {
        ComponentKind::PackageEnv => any_present(paths),
        _ => command_ok,
    };
    if found {
        Presence::Present
    } else {
        Presence::Absent
    }
}

/// The first candidate path that exists.
pub fn first_present(paths: &Vec<bool>) -> (r: Option<usize>)
    ensures
        r is None <==> !any_present(paths@),
        r matches Some(i) ==> i < paths@.len() && paths@[i as int] && forall|j: int|
            0 <= j < i ==> !paths@[j],
{
    let mut i: usize = 0;
    while i < paths.len()
        invariant
            0 <= i <= paths@.len(),
            forall|j: int| 0 <= j < i ==> !paths@[j],
        decreases paths@.len() - i,
    {
        if paths[i] {
            return Some(i);
        }
        i = i + 1;
    }
    None
}

/// Whether `kind` is present, as the observation shows it.
pub fn detect(kind: ComponentKind, obs: &Observation) -> (r: Presence)
    ensures
        r == detect_spec(kind, obs.paths_present@, obs.command_ok),
{
    let found = match kind {
        ComponentKind::PackageEnv => first_present(&obs.paths_present).is_some(),
        _ => obs.command_ok,
    };
    if found {
        Presence::Present
    } else {
        Presence::Absent
    }
}

/// Probing has no effect of its own: the same observation gives the same
/// answer, so probing twice with no installation in between agrees.
pub proof fn lemma_detect_stable(kind: ComponentKind, first: Observation, second: Observation)
    requires
        first.paths_present@ == second.paths_present@,
        first.command_ok == second.command_ok,
    ensures
        detect_spec(kind, first.paths_present@, first.command_ok) == detect_spec(
            kind,
            second.paths_present@,
            second.command_ok,
        ),
{
}

/// The compiler version text names the MSVC toolchain (the GNU one is then
/// added beside it).
pub fn is_msvc(version: &[u8]) -> (r: bool)
    ensures
        r == contains_spec(version@, phrase(MSVC)),
{
    contains(version, MSVC.as_bytes())
}

/// The facts a run decides its skips on, from the four probes.
pub fn host_facts(
    package_env: Presence,
    compiler: Presence,
    toolchain: Presence,
    config_current: bool,
) -> (r: HostFacts)
    ensures
        r.package_env_present == (package_env == Presence::Present),
        r.compiler_present == (compiler == Presence::Present),
        r.toolchain_present == (toolchain == Presence::Present),
        r.config_current == config_current,
{
    HostFacts {
        package_env_present: package_env == Presence::Present,
        compiler_present: compiler == Presence::Present,
        toolchain_present: toolchain == Presence::Present,
        config_current,
    }
}

} // verus!
