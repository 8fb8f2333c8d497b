use utena::paths::PathError;
use utena::paths::prettify;
use utena::paths::segment_name;
use utena::paths::to_real;
use utena::paths::to_sandbox;

#[test]
fn to_sandbox_joins_absolute_path_under_root() {
    assert_eq!(to_sandbox("/projects/alpha", "/host"), "/host/projects/alpha");
}

#[test]
fn to_sandbox_treats_bare_path_as_relative() {
    assert_eq!(to_sandbox("projects", "/host"), "/host/projects");
}

#[test]
fn to_real_strips_root_and_reroots() {
    assert_eq!(to_real("/host/projects/alpha", "/host"), Ok(String::from("/projects/alpha")));
}

#[test]
fn to_real_of_root_itself_is_filesystem_root() {
    assert_eq!(to_real("/host", "/host"), Ok(String::from("/")));
}

#[test]
fn round_trip_returns_original_absolute_path() {
    let sandboxed = to_sandbox("/projects/beta", "/host");
    assert_eq!(to_real(&sandboxed, "/host"), Ok(String::from("/projects/beta")));
}

#[test]
fn to_real_rejects_path_outside_sandbox() {
    assert_eq!(to_real("/elsewhere/x", "/host"), Err(PathError::NotUnderSandbox));
}

#[test]
fn to_real_rejects_proper_prefix_of_root() {
    assert_eq!(to_real("/hos", "/host"), Err(PathError::NotUnderSandbox));
}

#[test]
fn prettify_abbreviates_home_directory() {
    assert_eq!(prettify("/home/bob/projects/x"), "~/projects/x");
}

#[test]
fn prettify_abbreviates_users_directory() {
    assert_eq!(prettify("/Users/al"), "~");
}

#[test]
fn prettify_leaves_other_paths_alone() {
    assert_eq!(prettify("/data/x"), "/data/x");
}

#[test]
fn prettify_replaces_only_leftmost_match() {
    assert_eq!(prettify("/home/a/Users/b"), "~/Users/b");
}

#[test]
fn prettify_handles_nested_home_pattern() {
    assert_eq!(prettify("/x/home/bob/y"), "/x~/y");
}

#[test]
fn prettify_accepts_empty_user_name() {
    assert_eq!(prettify("/home/"), "~");
}

#[test]
fn segment_name_takes_last_segment() {
    assert_eq!(segment_name("/projects/beta"), "beta");
}

#[test]
fn segment_name_ignores_trailing_separator() {
    assert_eq!(segment_name("/a/b/"), "b");
}

#[test]
fn segment_name_of_filesystem_root_is_sentinel() {
    assert_eq!(segment_name("/"), "no name");
}

#[test]
fn segment_name_of_empty_path_is_sentinel() {
    assert_eq!(segment_name(""), "no name");
}
