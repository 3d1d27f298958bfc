//! The build configuration file that points the language toolchain at the
//! newly installed GNU compiler.

use vstd::prelude::*;

use crate::text::{phrase, same_bytes};

verus! {

pub const HYPHEN: u8 = 45;

pub const UNDERSCORE: u8 = 95;

pub const TARGET_OPEN: &'static str = "[target.";

pub const LINKER_KEY: &'static str = "]\nlinker = \"";

pub const AR_KEY: &'static str = "\"\nar = \"";

pub const BUILD_SECTION: &'static str = "\"\n\n[build]\ntarget = \"";

pub const ENV_SECTION: &'static str = "\"\n\n[env]\nCC_";

pub const ASSIGN: &'static str = " = \"";

pub const CXX_KEY: &'static str = "\"\nCXX_";

pub const LINE_END: &'static str = "\"\n";

/// The target triple and the executables that build for it.
#[derive(Clone, Copy, Debug)]
pub struct BuildConfig {
    pub target: &'static str,
    pub linker: &'static str,
    pub archiver: &'static str,
    pub c_compiler: &'static str,
    pub cxx_compiler: &'static str,
}

/// `s` with each hyphen replaced by an underscore, as environment variable
/// names spell a target triple.
pub open spec fn underscored(s: Seq<u8>) -> Seq<u8> {
    s.map_values(|b: u8| if b == HYPHEN { UNDERSCORE } else { b })
}

/// The file's content: a target section with linker and archiver, a build
/// section with the default target, and an environment section with the C
/// and C++ compiler variables for that target.
pub open spec fn render_spec(c: BuildConfig) -> Seq<u8> {
    phrase(TARGET_OPEN) + phrase(c.target) + phrase(LINKER_KEY) + phrase(c.linker) + phrase(AR_KEY)
        + phrase(c.archiver) + phrase(BUILD_SECTION) + phrase(c.target) + phrase(ENV_SECTION)
        + underscored(phrase(c.target)) + phrase(ASSIGN) + phrase(c.c_compiler) + phrase(CXX_KEY)
        + underscored(phrase(c.target)) + phrase(ASSIGN) + phrase(c.cxx_compiler) + phrase(LINE_END)
}

/// The configuration for the 64-bit Windows GNU target and the MinGW-w64
/// executables.
pub fn gnu_config() -> (r: BuildConfig)
    ensures
        r.target@ == "x86_64-pc-windows-gnu"@,
        r.linker@ == "x86_64-w64-mingw32-gcc"@,
        r.archiver@ == "x86_64-w64-mingw32-ar"@,
        r.c_compiler@ == "x86_64-w64-mingw32-gcc"@,
        r.cxx_compiler@ == "x86_64-w64-mingw32-g++"@,
{
    BuildConfig {
        target: "x86_64-pc-windows-gnu",
        linker: "x86_64-w64-mingw32-gcc",
        archiver: "x86_64-w64-mingw32-ar",
        c_compiler: "x86_64-w64-mingw32-gcc",
        cxx_compiler: "x86_64-w64-mingw32-g++",
    }
}

fn push_all(out: &mut Vec<u8>, s: &[u8])
    ensures
        final(out)@ == old(out)@ + s@,
{
    let mut i: usize = 0;
    while i < s.len()
        invariant
            0 <= i <= s@.len(),
            out@ == old(out)@ + s@.subrange(0, i as int),
        decreases s@.len() - i,
    {
        out.push(s[i]);
        i = i + 1;
        assert(out@ =~= old(out)@ + s@.subrange(0, i as int));
    }
    assert(s@.subrange(0, i as int) =~= s@);
}

fn push_underscored(out: &mut Vec<u8>, s: &[u8])
    ensures
        final(out)@ == old(out)@ + underscored(s@),
{
    let mut i: usize = 0;
    while i < s.len()
        invariant
            0 <= i <= s@.len(),
            out@ == old(out)@ + underscored(s@.subrange(0, i as int)),
        decreases s@.len() - i,
    {
        let b = s[i];
        if b == HYPHEN {
            out.push(UNDERSCORE);
        } else {
            out.push(b);
        }
        i = i + 1;
        assert(out@ =~= old(out)@ + underscored(s@.subrange(0, i as int)));
    }
    assert(s@.subrange(0, i as int) =~= s@);
}

impl BuildConfig {
    /// The bytes of the configuration file.
    pub fn render(&self) -> (r: Vec<u8>)
        ensures
            r@ == render_spec(*self),
    {
        let mut out: Vec<u8> = Vec::new();
        push_all(&mut out, TARGET_OPEN.as_bytes());
        push_all(&mut out, self.target.as_bytes());
        push_all(&mut out, LINKER_KEY.as_bytes());
        push_all(&mut out, self.linker.as_bytes());
        push_all(&mut out, AR_KEY.as_bytes());
        push_all(&mut out, self.archiver.as_bytes());
        push_all(&mut out, BUILD_SECTION.as_bytes());
        push_all(&mut out, self.target.as_bytes());
        push_all(&mut out, ENV_SECTION.as_bytes());
        push_underscored(&mut out, self.target.as_bytes());
        push_all(&mut out, ASSIGN.as_bytes());
        push_all(&mut out, self.c_compiler.as_bytes());
        push_all(&mut out, CXX_KEY.as_bytes());
        push_underscored(&mut out, self.target.as_bytes());
        push_all(&mut out, ASSIGN.as_bytes());
        push_all(&mut out, self.cxx_compiler.as_bytes());
        push_all(&mut out, LINE_END.as_bytes());
        assert(out@ =~= render_spec(*self));
        out
    }

    /// Whether a file holding `existing` already is this configuration.
    pub fn is_current(&self, existing: &[u8]) -> (r: bool)
        ensures
            r == (existing@ == render_spec(*self)),
    {
        let rendered = self.render();
        same_bytes(existing, rendered.as_slice())
    }
}

/// What to do about the configuration directory before the file is written.
#[derive(PartialEq, Eq, Structural, Clone, Copy, Debug)]
pub enum DirAction {
    Create,
    /// It exists (whatever it holds): use it as it is.
    Keep,
}

pub fn dir_action(exists: bool) -> (r: DirAction)
    ensures
        exists ==> r == DirAction::Keep,
        !exists ==> r == DirAction::Create,
{
    if exists {
        DirAction::Keep
    } else {
        DirAction::Create
    }
}

/// The file's content after the configuration is written over `previous`
/// (none where there was no file): the write replaces it whole.
pub open spec fn content_after_write(previous: Option<Seq<u8>>, c: BuildConfig) -> Seq<u8> {
    render_spec(c)
}

/// Writing the configuration is idempotent: a second write leaves exactly
/// the bytes of the first, which a later run then finds current; and an
/// existing directory, empty or not, is kept rather than created again.
pub proof fn lemma_config_write_idempotent(previous: Option<Seq<u8>>, c: BuildConfig, dir_exists: bool)
    ensures
        content_after_write(Some(content_after_write(previous, c)), c) == content_after_write(
            previous,
            c,
        ),
        content_after_write(previous, c) == render_spec(c),
        dir_exists ==> dir_action_spec(dir_exists) == DirAction::Keep,
{
}

pub open spec fn dir_action_spec(exists: bool) -> DirAction {
    if exists {
        DirAction::Keep
    } else {
        DirAction::Create
    }
}

} // verus!
