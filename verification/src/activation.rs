//! The activation decision: which session name and which real working
//! directory to hand to the host's switch-or-create action for a selected
//! workspace.

use vstd::prelude::*;

use crate::paths::PathError;
use crate::paths::lemma_path_round_trip;
use crate::paths::lemma_sandbox_under_root;
use crate::paths::name_of;
use crate::paths::real_form;
use crate::paths::sandbox_form;
use crate::paths::to_real;
use crate::paths::to_sandbox;
use crate::session_detail::SessionDetail;
use crate::workspace::Workspace;
use crate::workspace_manager::sandbox_root;
use crate::workspace_manager::sandbox_root_view;

verus! {

/// The parameters handed to the host's session-switch action, which itself
/// switches to the named session if it exists and creates it otherwise.
pub struct ActivationPlan {
    /// The session name to target: the selected workspace's session label.
    pub session_name: String,
    /// The real working directory for the session.
    pub real_cwd: String,
}

/// The mathematical content of an `ActivationPlan`.
pub ghost struct PlanView {
    pub session_name: Seq<char>,
    pub real_cwd: Seq<char>,
}

impl View for ActivationPlan {
    type V = PlanView;

    open spec fn view(&self) -> PlanView {
        PlanView { session_name: self.session_name@, real_cwd: self.real_cwd@ }
    }
}

/// Decides the activation parameters for the selected workspace: the session
/// name is the last segment of its real path, and the working directory is
/// that path taken through a sandbox round trip. The session list is not
/// consulted: the plan is handed to the host whether or not a session of
/// that name exists. A failed translation would abort the activation, and
/// the round trip shows it never fails.
pub fn activate_workspace(selected: &Workspace, _sessions: &Vec<SessionDetail>) -> (r: Result<
    ActivationPlan,
    PathError,
>)
    ensures
        ({
            &&& r matches Ok(plan)
            &&& plan@.session_name == name_of(selected@.dir.path)
            &&& plan@.real_cwd == real_form(
                sandbox_form(selected@.dir.path, sandbox_root_view()),
                sandbox_root_view(),
            )
        }),
        selected@.dir.path.len() > 0 && selected@.dir.path[0] == '/' ==> (r matches Ok(plan)
            && plan@.real_cwd == selected@.dir.path),
{
    let session_name = selected.session_name();
    let sandboxed = to_sandbox(selected.dir.path.as_str(), sandbox_root());
    proof {
        lemma_sandbox_under_root(selected@.dir.path, sandbox_root_view());
        if selected@.dir.path.len() > 0 && selected@.dir.path[0] == '/' {
            lemma_path_round_trip(selected@.dir.path, sandbox_root_view());
        }
    }
    match to_real(sandboxed.as_str(), sandbox_root()) {
        Ok(real_cwd) => Ok(ActivationPlan { session_name, real_cwd }),
        Err(e) => {
            proof {
                assert(false);
            }
            Err(e)
        },
    }
}

} // verus!
