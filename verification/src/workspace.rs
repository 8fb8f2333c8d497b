//! A workspace: a display label plus the directory it is rooted at. Created
//! once per distinct real path and never mutated afterwards.

use vstd::prelude::*;

use crate::paths::name_of;
use crate::workspace_dir::DirView;
use crate::workspace_dir::WorkspaceDir;

verus! {

/// A discovered workspace: a label shown in the picker and the directory
/// it stands for.
pub struct Workspace {
    /// Display label: the last segment of the directory's display form.
    pub name: String,
    /// The owned directory entry.
    pub dir: WorkspaceDir,
}

/// The mathematical content of a `Workspace`.
pub ghost struct WorkspaceView {
    pub name: Seq<char>,
    pub dir: DirView,
}

impl View for Workspace {
    type V = WorkspaceView;

    open spec fn view(&self) -> WorkspaceView {
        WorkspaceView { name: self.name@, dir: self.dir@ }
    }
}

impl Workspace {
    /// The directory entry is well formed and the label is derived from its
    /// display form.
    pub open spec fn wf(self) -> bool {
        self.dir.wf() && self@.name == name_of(self@.dir.pretty_path)
    }

    /// Builds a workspace for a newly discovered directory; the label is the
    /// last segment of the display form.
    pub fn from_dir(dir: &WorkspaceDir) -> (r: Workspace)
        ensures
            r@.dir == dir@,
            r@.name == name_of(dir@.pretty_path),
            dir.wf() ==> r.wf(),
    {
        let name = crate::paths::segment_name(dir.pretty_path.as_str());
        Workspace { name, dir: dir.duplicate() }
    }

    /// The session label this workspace is targeted under: the last segment
    /// of its real path, or a sentinel when the path has no segments.
    pub fn session_name(&self) -> (r: String)
        ensures
            r@ == name_of(self@.dir.path),
    {
        crate::paths::segment_name(self.dir.path.as_str())
    }

    /// A field-for-field copy.
    pub fn duplicate(&self) -> (r: Workspace)
        ensures
            r == *self,
    {
        Workspace { name: self.name.clone(), dir: self.dir.duplicate() }
    }
}

} // verus!
