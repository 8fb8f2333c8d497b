use utena::activation::activate_workspace;
use utena::events::HostAction;
use utena::events::KeyCode;
use utena::events::KeyEvent;
use utena::events::handle_key_event;
use utena::picker::Picker;
use utena::workspace::Workspace;
use utena::workspace_dir::WorkspaceDir;

fn workspace(real_path: &str) -> Workspace {
    Workspace::from_dir(&WorkspaceDir::new(String::from(real_path)))
}

fn key(code: KeyCode) -> KeyEvent {
    KeyEvent { code, ctrl: false, shift: false }
}

#[test]
fn activation_targets_last_segment_and_real_path() {
    let selected = workspace("/projects/beta");
    let plan = activate_workspace(&selected, &vec![]).unwrap();
    assert_eq!(plan.session_name, "beta");
    assert_eq!(plan.real_cwd, "/projects/beta");
}

#[test]
fn activation_of_root_workspace_uses_sentinel_name() {
    let selected = workspace("/");
    let plan = activate_workspace(&selected, &vec![]).unwrap();
    assert_eq!(plan.session_name, "no name");
    assert_eq!(plan.real_cwd, "/");
}

#[test]
fn workspace_session_name_is_last_path_segment() {
    assert_eq!(workspace("/projects/beta").session_name(), "beta");
}

#[test]
fn escape_closes_without_rendering() {
    let mut picker = Picker::new(vec![workspace("/p/a")]);
    let outcome = handle_key_event(&mut picker, &vec![], key(KeyCode::Esc));
    assert!(!outcome.should_render);
    assert_eq!(outcome.actions.len(), 1);
    assert!(matches!(outcome.actions[0], HostAction::CloseSelf));
}

#[test]
fn arrow_keys_move_cursor_and_rerender() {
    let mut picker = Picker::new(vec![workspace("/p/a"), workspace("/p/b")]);
    let outcome = handle_key_event(&mut picker, &vec![], key(KeyCode::Down));
    assert!(outcome.should_render);
    assert!(outcome.actions.is_empty());
    assert_eq!(picker.cursor, 1);
    let outcome = handle_key_event(&mut picker, &vec![], key(KeyCode::Up));
    assert!(outcome.should_render);
    assert_eq!(picker.cursor, 0);
}

#[test]
fn vi_keys_move_cursor_with_wraparound() {
    let mut picker = Picker::new(vec![workspace("/p/a"), workspace("/p/b")]);
    handle_key_event(&mut picker, &vec![], key(KeyCode::Char('k')));
    assert_eq!(picker.cursor, 1);
    handle_key_event(&mut picker, &vec![], key(KeyCode::Char('j')));
    assert_eq!(picker.cursor, 0);
}

#[test]
fn ctrl_r_asks_for_reload() {
    let mut picker = Picker::new(vec![]);
    let outcome = handle_key_event(
        &mut picker,
        &vec![],
        KeyEvent { code: KeyCode::Char('r'), ctrl: true, shift: false },
    );
    assert!(!outcome.should_render);
    assert_eq!(outcome.actions.len(), 1);
    assert!(matches!(outcome.actions[0], HostAction::Reload));
}

#[test]
fn plain_r_does_nothing() {
    let mut picker = Picker::new(vec![]);
    let outcome = handle_key_event(&mut picker, &vec![], key(KeyCode::Char('r')));
    assert!(!outcome.should_render);
    assert!(outcome.actions.is_empty());
}

#[test]
fn ctrl_shift_d_clears_dead_sessions() {
    let mut picker = Picker::new(vec![]);
    let outcome = handle_key_event(
        &mut picker,
        &vec![],
        KeyEvent { code: KeyCode::Char('d'), ctrl: true, shift: true },
    );
    assert!(!outcome.should_render);
    assert_eq!(outcome.actions.len(), 1);
    assert!(matches!(outcome.actions[0], HostAction::DeleteAllDeadSessions));
}

#[test]
fn enter_switches_to_selected_workspace_then_closes() {
    let mut picker = Picker::new(vec![workspace("/projects/alpha"), workspace("/projects/beta")]);
    handle_key_event(&mut picker, &vec![], key(KeyCode::Down));
    let outcome = handle_key_event(&mut picker, &vec![], key(KeyCode::Enter));
    assert!(!outcome.should_render);
    assert_eq!(outcome.actions.len(), 2);
    match &outcome.actions[0] {
        HostAction::SwitchToSession { session_name, real_cwd } => {
            assert_eq!(session_name, "beta");
            assert_eq!(real_cwd, "/projects/beta");
        }
        _ => panic!("expected a session switch action"),
    }
    assert!(matches!(outcome.actions[1], HostAction::CloseSelf));
}

#[test]
fn enter_on_empty_list_only_closes() {
    let mut picker = Picker::new(vec![]);
    let outcome = handle_key_event(&mut picker, &vec![], key(KeyCode::Enter));
    assert_eq!(outcome.actions.len(), 1);
    assert!(matches!(outcome.actions[0], HostAction::CloseSelf));
}

#[test]
fn unhandled_key_does_nothing() {
    let mut picker = Picker::new(vec![workspace("/p/a")]);
    let outcome = handle_key_event(&mut picker, &vec![], key(KeyCode::Other));
    assert!(!outcome.should_render);
    assert!(outcome.actions.is_empty());
    assert_eq!(picker.cursor, 0);
}
