use utena::picker::Picker;
use utena::workspace::Workspace;
use utena::workspace_dir::WorkspaceDir;

fn workspace(real_path: &str) -> Workspace {
    Workspace::from_dir(&WorkspaceDir::new(String::from(real_path)))
}

fn three_item_picker() -> Picker {
    Picker::new(vec![workspace("/p/a"), workspace("/p/b"), workspace("/p/c")])
}

#[test]
fn cursor_wraps_from_top_to_bottom() {
    let mut picker = three_item_picker();
    picker.handle_up();
    assert_eq!(picker.cursor, 2);
}

#[test]
fn cursor_wraps_from_bottom_to_top() {
    let mut picker = three_item_picker();
    picker.handle_up();
    assert_eq!(picker.cursor, 2);
    picker.handle_down();
    assert_eq!(picker.cursor, 0);
}

#[test]
fn cursor_steps_without_wrapping_in_the_middle() {
    let mut picker = three_item_picker();
    picker.handle_down();
    assert_eq!(picker.cursor, 1);
    picker.handle_up();
    assert_eq!(picker.cursor, 0);
}

#[test]
fn navigation_is_a_no_op_on_empty_list() {
    let mut picker = Picker::new(vec![]);
    picker.handle_up();
    assert_eq!(picker.cursor, 0);
    picker.handle_down();
    assert_eq!(picker.cursor, 0);
}

#[test]
fn selection_returns_item_under_cursor() {
    let mut picker = three_item_picker();
    picker.handle_down();
    let selected = picker.get_selection().unwrap();
    assert_eq!(selected.dir.path, "/p/b");
}

#[test]
fn selection_is_empty_for_empty_list() {
    let picker = Picker::new(vec![]);
    assert!(picker.get_selection().is_none());
}

#[test]
fn rebuild_keeps_selected_item_at_new_index() {
    let mut picker = three_item_picker();
    picker.handle_down();
    picker.rebuild(vec![workspace("/p/c"), workspace("/p/b")]);
    assert_eq!(picker.cursor, 1);
    assert_eq!(picker.get_selection().unwrap().dir.path, "/p/b");
}

#[test]
fn rebuild_resets_cursor_when_item_is_gone() {
    let mut picker = three_item_picker();
    picker.handle_down();
    picker.rebuild(vec![workspace("/p/a"), workspace("/p/c")]);
    assert_eq!(picker.cursor, 0);
}

#[test]
fn window_centers_cursor_when_room_allows() {
    let items: Vec<Workspace> = (0..10).map(|i| workspace(&format!("/p/w{}", i))).collect();
    let mut picker = Picker::new(items);
    for _ in 0..5 {
        picker.handle_down();
    }
    let (first, count) = picker.visible_window(3);
    assert_eq!((first, count), (4, 3));
    assert!(first <= picker.cursor && picker.cursor < first + count);
}

#[test]
fn window_clamps_at_end_of_list() {
    let items: Vec<Workspace> = (0..10).map(|i| workspace(&format!("/p/w{}", i))).collect();
    let mut picker = Picker::new(items);
    for _ in 0..9 {
        picker.handle_down();
    }
    let (first, count) = picker.visible_window(4);
    assert_eq!((first, count), (6, 4));
}

#[test]
fn window_shows_everything_when_list_fits() {
    let picker = three_item_picker();
    let (first, count) = picker.visible_window(5);
    assert_eq!((first, count), (0, 3));
}

#[test]
fn render_pads_short_list_with_blank_rows() {
    let picker = three_item_picker();
    let plan = picker.render(5);
    assert_eq!(plan.blank_rows, 2);
    assert_eq!(plan.first, 0);
    assert_eq!(plan.rows.len(), 3);
}

#[test]
fn render_marks_only_cursor_row_selected() {
    let mut picker = three_item_picker();
    picker.handle_down();
    let plan = picker.render(2);
    assert_eq!(plan.blank_rows, 0);
    assert_eq!(plan.first, 1);
    assert_eq!(plan.rows.len(), 2);
    assert_eq!(plan.rows[0].label, "b");
    assert!(plan.rows[0].selected);
    assert_eq!(plan.rows[1].label, "c");
    assert!(!plan.rows[1].selected);
}
