//! A discovered candidate directory: real host path plus derived display
//! form. Identity is the real path alone.

use vstd::prelude::*;

use crate::paths::abbrev_home;
use crate::paths::prettify;

verus! {

/// A directory eligible to back a workspace: its absolute path in the real
/// host filesystem and its human-readable display form.
pub struct WorkspaceDir {
    /// Display form, home directory abbreviated. Derived, never identity.
    pub pretty_path: String,
    /// Absolute path in the real host filesystem; the identity key.
    pub path: String,
}

/// The mathematical content of a `WorkspaceDir`.
pub ghost struct DirView {
    pub pretty_path: Seq<char>,
    pub path: Seq<char>,
}

impl View for WorkspaceDir {
    type V = DirView;

    open spec fn view(&self) -> DirView {
        DirView { pretty_path: self.pretty_path@, path: self.path@ }
    }
}

impl WorkspaceDir {
    /// The display form is exactly the home abbreviation of the real path.
    pub open spec fn wf(self) -> bool {
        self@.pretty_path == abbrev_home(self@.path)
    }

    /// Builds an entry from its real path, deriving the display form.
    pub fn new(path: String) -> (r: WorkspaceDir)
        ensures
            r.wf(),
            r@.path == path@,
    {
        let pretty_path = prettify(path.as_str());
        WorkspaceDir { pretty_path, path }
    }

    /// A field-for-field copy.
    pub fn duplicate(&self) -> (r: WorkspaceDir)
        ensures
            r == *self,
    {
        WorkspaceDir { pretty_path: self.pretty_path.clone(), path: self.path.clone() }
    }
}

impl PartialEq for WorkspaceDir {
    /// Two directories are the same workspace identity exactly when their
    /// real paths are equal; the display form never takes part.
    fn eq(&self, other: &WorkspaceDir) -> bool {
        self.path == other.path
    }
}

impl vstd::std_specs::cmp::PartialEqSpecImpl for WorkspaceDir {
    open spec fn obeys_eq_spec() -> bool {
        true
    }

    open spec fn eq_spec(&self, other: &WorkspaceDir) -> bool {
        self@.path == other@.path
    }
}

} // verus!
