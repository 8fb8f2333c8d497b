//! Key-event decisions: from the picker's state and one key press to the
//! picker's next state, the render request, and the host actions to perform.
//! The host performs the actions; nothing here does I/O.

use vstd::prelude::*;

use crate::activation::activate_workspace;
use crate::paths::name_of;
use crate::paths::real_form;
use crate::paths::sandbox_form;
use crate::picker::Picker;
use crate::session_detail::SessionDetail;
use crate::workspace_manager::sandbox_root_view;

verus! {

/// A key press, reduced to what the switcher reacts to.
pub enum KeyCode {
    Esc,
    Up,
    Down,
    Enter,
    Char(char),
    Other,
}

/// A key press with its modifier state.
pub struct KeyEvent {
    /// The base key.
    pub code: KeyCode,
    /// Whether Ctrl is held.
    pub ctrl: bool,
    /// Whether Shift is held.
    pub shift: bool,
}

/// An action the core asks the host to perform.
pub enum HostAction {
    /// Switch to the named session rooted at the real directory, creating it
    /// if it does not exist.
    SwitchToSession { session_name: String, real_cwd: String },
    /// Delete all sessions with no attached client.
    DeleteAllDeadSessions,
    /// Reload this plugin instance.
    Reload,
    /// Close this plugin instance.
    CloseSelf,
}

/// What one key press decided: whether to redraw, and which host actions to
/// perform, in order.
pub struct KeyOutcome {
    /// Whether the picker should be redrawn.
    pub should_render: bool,
    /// The host actions to perform, in order.
    pub actions: Vec<HostAction>,
}

/// Whether this key press moves the highlight up.
pub open spec fn is_up_key(key: KeyEvent) -> bool {
    key.code is Up || (key.code matches KeyCode::Char(c) && c == 'k')
}

/// Whether this key press moves the highlight down.
pub open spec fn is_down_key(key: KeyEvent) -> bool {
    key.code is Down || (key.code matches KeyCode::Char(c) && c == 'j')
}

/// Whether this key press asks for a plugin reload.
pub open spec fn is_reload_key(key: KeyEvent) -> bool {
    key.code matches KeyCode::Char(c) && c == 'r' && key.ctrl && !is_up_key(key) && !is_down_key(
        key,
    )
}

/// Whether this key press asks for dead sessions to be cleared.
pub open spec fn is_clear_key(key: KeyEvent) -> bool {
    key.code matches KeyCode::Char(c) && c == 'd' && key.ctrl && key.shift && !is_up_key(key)
        && !is_down_key(key)
}

/// The cursor after one upward step with wraparound.
pub open spec fn cursor_after_up(p: Picker) -> int {
    if p.workspaces@.len() == 0 {
        0
    } else if p.cursor == 0 {
        p.workspaces@.len() - 1
    } else {
        p.cursor - 1
    }
}

/// The cursor after one downward step with wraparound.
pub open spec fn cursor_after_down(p: Picker) -> int {
    if p.workspaces@.len() == 0 {
        0
    } else if p.cursor + 1 == p.workspaces@.len() {
        0
    } else {
        p.cursor + 1
    }
}

/// Handles one key press against the picker, deciding the next cursor
/// position, whether to redraw, and the host actions to perform:
/// Esc closes; Up and `k` move up; Down and `j` move down; Ctrl+`r`
/// reloads; Ctrl+Shift+`d` clears dead sessions; Enter activates the
/// selection (if any) and closes; anything else does nothing.
pub fn handle_key_event(picker: &mut Picker, sessions: &Vec<SessionDetail>, key: KeyEvent) -> (r:
    KeyOutcome)
    requires
        old(picker).wf(),
    ensures
        final(picker).wf(),
        final(picker).workspaces@ == old(picker).workspaces@,
        is_up_key(key) ==> {
            &&& final(picker).cursor == cursor_after_up(*old(picker))
            &&& r.should_render
            &&& r.actions@.len() == 0
        },
        is_down_key(key) ==> {
            &&& final(picker).cursor == cursor_after_down(*old(picker))
            &&& r.should_render
            &&& r.actions@.len() == 0
        },
        !is_up_key(key) && !is_down_key(key) ==> final(picker).cursor == old(picker).cursor,
        key.code is Esc ==> {
            &&& !r.should_render
            &&& r.actions@.len() == 1
            &&& r.actions@[0] is CloseSelf
        },
        is_reload_key(key) ==> {
            &&& !r.should_render
            &&& r.actions@.len() == 1
            &&& r.actions@[0] is Reload
        },
        is_clear_key(key) ==> {
            &&& !r.should_render
            &&& r.actions@.len() == 1
            &&& r.actions@[0] is DeleteAllDeadSessions
        },
        key.code is Enter && old(picker).workspaces@.len() == 0 ==> {
            &&& !r.should_render
            &&& r.actions@.len() == 1
            &&& r.actions@[0] is CloseSelf
        },
        key.code is Enter && old(picker).workspaces@.len() > 0 ==> {
            let sel = old(picker).workspaces@[old(picker).cursor as int];
            &&& !r.should_render
            &&& r.actions@.len() == 2
            &&& r.actions@[0] matches HostAction::SwitchToSession { session_name, real_cwd }
                && session_name@ == name_of(sel@.dir.path) && real_cwd@ == real_form(
                sandbox_form(sel@.dir.path, sandbox_root_view()),
                sandbox_root_view(),
            )
            &&& r.actions@[1] is CloseSelf
        },
        !is_up_key(key) && !is_down_key(key) && !is_reload_key(key) && !is_clear_key(key) && !(
        key.code is Esc) && !(key.code is Enter) ==> {
            &&& !r.should_render
            &&& r.actions@.len() == 0
        },
{
    let mut actions: Vec<HostAction> = Vec::new();
    let up = match &key.code {
        KeyCode::Up => true,
        KeyCode::Char(c) => *c == 'k',
        _ => false,
    };
    let down = match &key.code {
        KeyCode::Down => true,
        KeyCode::Char(c) => *c == 'j',
        _ => false,
    };
    if up {
        picker.handle_up();
        return KeyOutcome { should_render: true, actions };
    }
    if down {
        picker.handle_down();
        return KeyOutcome { should_render: true, actions };
    }
    match key.code {
        KeyCode::Esc => {
            actions.push(HostAction::CloseSelf);
            KeyOutcome { should_render: false, actions }
        },
        KeyCode::Char(c) => {
            if c == 'r' && key.ctrl {
                actions.push(HostAction::Reload);
            } else if c == 'd' && key.ctrl && key.shift {
                actions.push(HostAction::DeleteAllDeadSessions);
            }
            KeyOutcome { should_render: false, actions }
        },
        KeyCode::Enter => {
            match picker.get_selection() {
                Some(selected) => {
                    match activate_workspace(&selected, sessions) {
                        Ok(plan) => {
                            actions.push(
                                HostAction::SwitchToSession {
                                    session_name: plan.session_name,
                                    real_cwd: plan.real_cwd,
                                },
                            );
                        },
                        Err(_) => {
                            // A failed translation aborts the activation;
                            // the picker still closes below.
                        },
                    }
                },
                None => {},
            }
            actions.push(HostAction::CloseSelf);
            KeyOutcome { should_render: false, actions }
        },
        _ => KeyOutcome { should_render: false, actions },
    }
}

} // verus!
