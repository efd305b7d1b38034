//! The new-package form's decisions.
//!
//! The form itself — a directory chooser, a name field, and two combo
//! boxes for the package type and the version-control choice — is UI
//! plumbing, and creating the package on disk is the package-manager
//! collaborator's work.  What is decided here is how the form's raw
//! inputs become the create call's options.

use vstd::prelude::*;

use crate::util::str_equal;

verus! {

/// Which version-control system a fresh package is put under.
#[derive(Debug, Clone, Copy, PartialEq, Eq, Structural)]
pub enum VersionControl {
    Git,
    Hg,
    NoVcs,
}

/// Reads the version-control choice out of the identifier the form's
/// combo box reports: `git` and `mercurial` name their systems, and any
/// other identifier means none.
pub fn version_control_of(id: &str) -> (v: VersionControl)
    ensures
        id@ == "git"@ ==> v is Git,
        id@ == "mercurial"@ ==> v is Hg,
        id@ != "git"@ && id@ != "mercurial"@ ==> v is NoVcs,
{
    proof {
        reveal_strlit("git");
        reveal_strlit("mercurial");
        assert("git"@.len() == 3);
        assert("mercurial"@.len() == 9);
        assert("git"@ != "mercurial"@);
    }
    if str_equal(id, "git") {
        VersionControl::Git
    } else if str_equal(id, "mercurial") {
        VersionControl::Hg
    } else {
        VersionControl::NoVcs
    }
}

/// What the form hands the package-manager collaborator when its create
/// button is pressed.
#[derive(Debug, PartialEq, Eq)]
pub struct NewPackageSpec {
    /// The directory the package is created in.
    pub path: String,
    /// The package's name; the collaborator derives one from the path
    /// when absent.
    pub name: Option<String>,
    /// A binary package rather than a library.
    pub bin: bool,
    /// The version-control choice, where the combo box reported one.
    pub version_control: Option<VersionControl>,
}

/// Folds the form's raw inputs — the chosen directory, the name field
/// and the identifiers the two combo boxes report — into the create
/// call's options.  The package is a binary exactly when the type box
/// reports `bin`.
pub fn new_package_spec(
    path: String,
    name: Option<String>,
    type_id: Option<&str>,
    vcs_id: Option<&str>,
) -> (s: NewPackageSpec)
    ensures
        s.path == path,
        s.name == name,
        s.bin == (type_id matches Some(t) && t@ == "bin"@),
        (match vcs_id {
            None => s.version_control is None,
            Some(v) => {
                &&& v@ == "git"@ ==> s.version_control == Some(VersionControl::Git)
                &&& v@ == "mercurial"@ ==> s.version_control == Some(VersionControl::Hg)
                &&& v@ != "git"@ && v@ != "mercurial"@ ==> s.version_control == Some(
                    VersionControl::NoVcs,
                )
            },
        }),
{
    let bin = match type_id {
        Some(t) => str_equal(t, "bin"),
        None => false,
    };
    let version_control = match vcs_id {
        Some(v) => Some(version_control_of(v)),
        None => None,
    };
    NewPackageSpec { path, name, bin, version_control }
}

} // verus!
