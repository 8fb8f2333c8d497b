use utena::config::Config;
use utena::config::parse_dir_str;
use utena::workspace_dir::WorkspaceDir;
use utena::workspace_manager::ExtraDir;
use utena::workspace_manager::ScanEntry;
use utena::workspace_manager::WorkspaceManager;

fn dir_entry(sandbox_path: &str) -> ScanEntry {
    ScanEntry { sandbox_path: String::from(sandbox_path), is_dir: true }
}

#[test]
fn parse_dir_str_splits_on_semicolons() {
    assert_eq!(parse_dir_str("/a;/b"), vec![String::from("/a"), String::from("/b")]);
}

#[test]
fn parse_dir_str_of_empty_input_yields_one_empty_piece() {
    assert_eq!(parse_dir_str(""), vec![String::from("")]);
}

#[test]
fn config_defaults_to_empty_lists() {
    let config = Config::from_settings(None, None);
    assert!(config.root_dirs.is_empty());
    assert!(config.extra_dirs.is_empty());
}

#[test]
fn config_takes_roots_from_settings() {
    let roots = String::from("/projects");
    let config = Config::from_settings(Some(&roots), None);
    assert_eq!(config.root_dirs, vec![String::from("/projects")]);
    assert!(config.extra_dirs.is_empty());
}

#[test]
fn workspace_dir_derives_display_form() {
    let dir = WorkspaceDir::new(String::from("/home/bob/proj"));
    assert_eq!(dir.path, "/home/bob/proj");
    assert_eq!(dir.pretty_path, "~/proj");
}

#[test]
fn workspace_dir_identity_is_real_path_only() {
    let a = WorkspaceDir { pretty_path: String::from("~/x"), path: String::from("/home/b/x") };
    let b = WorkspaceDir { pretty_path: String::from("other"), path: String::from("/home/b/x") };
    let c = WorkspaceDir { pretty_path: String::from("~/x"), path: String::from("/home/b/y") };
    assert!(a == b);
    assert!(a != c);
}

#[test]
fn scan_host_dirs_translates_each_root() {
    let manager = WorkspaceManager::new();
    let roots = String::from("/projects;/work");
    let config = Config::from_settings(Some(&roots), None);
    let listed = manager.scan_host_dirs(&config);
    assert_eq!(listed, vec![String::from("/host/projects"), String::from("/host/work")]);
}

#[test]
fn scan_and_refresh_discover_root_children() {
    let mut manager = WorkspaceManager::new();
    let entries = vec![dir_entry("/host/projects/alpha"), dir_entry("/host/projects/beta")];
    let outcome = manager.get_workspace_dirs(&entries, &vec![]);
    manager.refresh_workspaces(&outcome.dirs);
    let listed = manager.list_workspaces();
    assert_eq!(listed.len(), 2);
    assert_eq!(listed[0].name, "alpha");
    assert_eq!(listed[0].dir.path, "/projects/alpha");
    assert_eq!(listed[1].name, "beta");
    assert_eq!(listed[1].dir.path, "/projects/beta");
    assert!(outcome.skipped.is_empty());
}

#[test]
fn scan_skips_entries_that_are_not_directories() {
    let manager = WorkspaceManager::new();
    let entries = vec![
        ScanEntry { sandbox_path: String::from("/host/projects/readme"), is_dir: false },
        dir_entry("/host/projects/alpha"),
    ];
    let outcome = manager.get_workspace_dirs(&entries, &vec![]);
    assert_eq!(outcome.dirs.len(), 1);
    assert_eq!(outcome.dirs[0].path, "/projects/alpha");
}

#[test]
fn scan_skips_children_outside_the_sandbox() {
    let manager = WorkspaceManager::new();
    let entries = vec![dir_entry("/stray/alpha"), dir_entry("/host/projects/beta")];
    let outcome = manager.get_workspace_dirs(&entries, &vec![]);
    assert_eq!(outcome.dirs.len(), 1);
    assert_eq!(outcome.dirs[0].path, "/projects/beta");
}

#[test]
fn missing_extra_dir_is_skipped_with_diagnostic() {
    let mut manager = WorkspaceManager::new();
    let extras = vec![ExtraDir { real_path: String::from("/projects/gamma"), exists: false }];
    let outcome = manager.get_workspace_dirs(&vec![], &extras);
    manager.refresh_workspaces(&outcome.dirs);
    let listed = manager.list_workspaces();
    assert!(listed.is_empty());
    assert_eq!(outcome.skipped, vec![String::from("/projects/gamma")]);
}

#[test]
fn existing_extra_dir_is_included_without_scan() {
    let mut manager = WorkspaceManager::new();
    let extras = vec![ExtraDir { real_path: String::from("/projects/gamma"), exists: true }];
    let outcome = manager.get_workspace_dirs(&vec![], &extras);
    manager.refresh_workspaces(&outcome.dirs);
    let listed = manager.list_workspaces();
    assert_eq!(listed.len(), 1);
    assert_eq!(listed[0].dir.path, "/projects/gamma");
    assert!(outcome.skipped.is_empty());
}

#[test]
fn refresh_never_registers_a_path_twice() {
    let mut manager = WorkspaceManager::new();
    let entries = vec![dir_entry("/host/projects/alpha"), dir_entry("/host/projects/alpha")];
    let outcome = manager.get_workspace_dirs(&entries, &vec![]);
    manager.refresh_workspaces(&outcome.dirs);
    manager.refresh_workspaces(&outcome.dirs);
    let listed = manager.list_workspaces();
    assert_eq!(listed.len(), 1);
    assert_eq!(listed[0].dir.path, "/projects/alpha");
}

#[test]
fn refresh_keeps_workspaces_missing_from_later_scans() {
    let mut manager = WorkspaceManager::new();
    let first = vec![dir_entry("/host/projects/alpha"), dir_entry("/host/projects/beta")];
    let outcome = manager.get_workspace_dirs(&first, &vec![]);
    manager.refresh_workspaces(&outcome.dirs);
    let second = vec![dir_entry("/host/projects/beta")];
    let outcome = manager.get_workspace_dirs(&second, &vec![]);
    manager.refresh_workspaces(&outcome.dirs);
    let listed = manager.list_workspaces();
    assert_eq!(listed.len(), 2);
    assert_eq!(listed[0].dir.path, "/projects/alpha");
    assert_eq!(listed[1].dir.path, "/projects/beta");
}
