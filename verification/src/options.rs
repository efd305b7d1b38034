//! The compile options the front-end keeps and edits.
//!
//! The package-manager library that performs the builds is an outside
//! collaborator; these are the plain values the UI's own decisions read
//! and write — the defaults it starts from, the job count its options
//! dialog saves, and the compile mode each action button picks before
//! the collaborator is called.

use vstd::prelude::*;

verus! {

/// Which targets a compile action covers.
#[derive(Debug, Clone, PartialEq, Eq, Structural)]
pub enum Filter {
    Everything,
}

/// Which package-manager action a compile call performs.
#[derive(Debug, Clone, Copy, PartialEq, Eq, Structural)]
pub enum CompileMode {
    Build,
    Test,
    Bench,
    Doc { deps: bool },
    Run,
}

/// The compile options the window holds for its whole session, shared by
/// every action button and edited by the options dialog.
#[derive(Debug, PartialEq, Eq)]
pub struct Options {
    /// How many jobs the build may run at once; the collaborator picks
    /// when absent.
    pub jobs: Option<u32>,
    /// The target triple to build for, if not the host's.
    pub target: Option<String>,
    /// The features to switch on.
    pub features: Vec<String>,
    /// Whether the default features stay off.
    pub no_default_features: bool,
    /// Which packages of a workspace the action covers; all when empty.
    pub package_specs: Vec<String>,
    pub filter: Filter,
    /// Release mode rather than debug.
    pub release: bool,
    pub mode: CompileMode,
    /// Extra arguments handed through to the documentation tool.
    pub target_rustdoc_args: Option<Vec<String>>,
    /// Extra arguments handed through to the compiler.
    pub target_rustc_args: Option<Vec<String>>,
}

impl Default for Options {
    /// The options a fresh window starts from: eight jobs, a plain debug
    /// build of everything, nothing narrowed and nothing passed through.
    fn default() -> (r: Options)
        ensures
            r.jobs == Some(8u32),
            r.target is None,
            r.features@ == Seq::<String>::empty(),
            !r.no_default_features,
            r.package_specs@ == Seq::<String>::empty(),
            r.filter is Everything,
            !r.release,
            r.mode is Build,
            r.target_rustdoc_args is None,
            r.target_rustc_args is None,
    {
        Options {
            jobs: Some(8u32),
            target: None,
            features: Vec::new(),
            no_default_features: false,
            package_specs: Vec::new(),
            filter: Filter::Everything,
            release: false,
            mode: CompileMode::Build,
            target_rustdoc_args: None,
            target_rustc_args: None,
        }
    }
}

impl Options {
    /// What the options dialog saves when confirmed: the job count from
    /// its spinner, everything else untouched.
    pub fn set_jobs(&mut self, jobs: u32)
        ensures
            *final(self) == (Options { jobs: Some(jobs), ..*old(self) }),
    {
        self.jobs = Some(jobs);
    }

    /// What an action button does before calling the collaborator: pick
    /// its own compile mode, leaving the shared options untouched
    /// otherwise.
    pub fn set_mode(&mut self, mode: CompileMode)
        ensures
            *final(self) == (Options { mode, ..*old(self) }),
    {
        self.mode = mode;
    }
}

} // verus!
