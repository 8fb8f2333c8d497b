//! One live session known to the registry: identified by name, optionally
//! tied to a workspace directory whose display label matches the name.

use vstd::prelude::*;

use crate::workspace_dir::WorkspaceDir;

verus! {

/// A session record as the host's snapshot events deliver it.
pub struct RawSessionInfo {
    /// The session's identifier, unique among live sessions.
    pub name: String,
    /// Whether the user is currently attached to this session.
    pub is_current_session: bool,
}

/// The mathematical content of a `RawSessionInfo`.
pub ghost struct InfoView {
    pub name: Seq<char>,
    pub is_current_session: bool,
}

impl View for RawSessionInfo {
    type V = InfoView;

    open spec fn view(&self) -> InfoView {
        InfoView { name: self.name@, is_current_session: self.is_current_session }
    }
}

impl RawSessionInfo {
    /// A field-for-field copy.
    pub fn duplicate(&self) -> (r: RawSessionInfo)
        ensures
            r == *self,
    {
        RawSessionInfo { name: self.name.clone(), is_current_session: self.is_current_session }
    }
}

/// A live session: its name (the identity key), whether the user is attached
/// to it, and the real path of the workspace its name resolved to, if any.
pub struct SessionDetail {
    /// Whether this is the session the user is currently attached to.
    pub active: bool,
    /// Whether the name resolved to a known workspace directory.
    pub is_workspace_dir: bool,
    /// The session's identifier; the identity key.
    pub name: String,
    /// The resolved workspace directory's real path, or empty.
    pub path: String,
}

/// The mathematical content of a `SessionDetail`.
pub ghost struct SessionView {
    pub active: bool,
    pub is_workspace_dir: bool,
    pub name: Seq<char>,
    pub path: Seq<char>,
}

impl View for SessionDetail {
    type V = SessionView;

    open spec fn view(&self) -> SessionView {
        SessionView {
            active: self.active,
            is_workspace_dir: self.is_workspace_dir,
            name: self.name@,
            path: self.path@,
        }
    }
}

impl SessionDetail {
    /// Builds a record for a session the host reported for the first time,
    /// with the workspace directory its name resolved to, if any.
    pub fn new(session_info: RawSessionInfo, workspace_dir: Option<&WorkspaceDir>) -> (r:
        SessionDetail)
        ensures
            r@.name == session_info@.name,
            r@.active == session_info@.is_current_session,
            match workspace_dir {
                Some(d) => r@.is_workspace_dir && r@.path == d@.path,
                None => !r@.is_workspace_dir && r@.path == Seq::<char>::empty(),
            },
    {
        let (is_workspace_dir, path) = match workspace_dir {
            Some(dir) => (true, dir.path.clone()),
            None => (false, String::new()),
        };
        SessionDetail {
            active: session_info.is_current_session,
            is_workspace_dir,
            name: session_info.name,
            path,
        }
    }

    /// The line shown for this session: its name.
    pub fn render(&self) -> (r: String)
        ensures
            r@ == self@.name,
    {
        self.name.clone()
    }

    /// Reconciles an already-known session with a fresh snapshot record.
    /// Presence is all the snapshot carries today, so the record is kept as
    /// it is.
    pub fn update_from_session_info(&mut self, _session_info: RawSessionInfo)
        ensures
            *final(self) == *old(self),
    {
    }

    /// A field-for-field copy.
    pub fn duplicate(&self) -> (r: SessionDetail)
        ensures
            r == *self,
    {
        SessionDetail {
            active: self.active,
            is_workspace_dir: self.is_workspace_dir,
            name: self.name.clone(),
            path: self.path.clone(),
        }
    }
}

impl PartialEq for SessionDetail {
    /// Two session records stand for the same session exactly when their
    /// names are equal.
    fn eq(&self, other: &SessionDetail) -> bool {
        self.name == other.name
    }
}

impl vstd::std_specs::cmp::PartialEqSpecImpl for SessionDetail {
    open spec fn obeys_eq_spec() -> bool {
        true
    }

    open spec fn eq_spec(&self, other: &SessionDetail) -> bool {
        self@.name == other@.name
    }
}

} // verus!
