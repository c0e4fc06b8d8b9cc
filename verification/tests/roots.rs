use codex_core::code_intel_format::format_root_statuses;
use codex_core::roots::{default_root_name, path_has_prefix, validate_root_request, MultiRootState};

fn names(state: &MultiRootState) -> Vec<String> {
    state.roots().into_iter().map(|r| r.name).collect()
}

fn session() -> MultiRootState {
    let mut state = MultiRootState::new("/work/app");
    state.add_root("app", "/work/app").expect("primary root");
    state
}

#[test]
fn default_root_name_uses_the_last_component() {
    assert_eq!(default_root_name("/work/app"), "app");
    assert_eq!(default_root_name("/work/app/"), "app");
    assert_eq!(default_root_name("/"), "root");
    assert_eq!(default_root_name("/work/  "), "root");
}

#[test]
fn new_names_the_primary_root_after_its_path() {
    let state = MultiRootState::new("/home/me/project");
    assert_eq!(state.primary_root(), "project");
    assert!(state.roots().is_empty());
}

#[test]
fn add_root_trims_the_name_and_keeps_the_order() {
    let mut state = session();
    let added = state.add_root("  lib  ", "/work/lib").expect("added");
    assert_eq!(added.name, "lib");
    assert_eq!(added.path, "/work/lib");
    assert_eq!(names(&state), vec!["app".to_string(), "lib".to_string()]);
}

#[test]
fn add_root_refuses_a_taken_name_or_path() {
    let mut state = session();
    assert_eq!(state.add_root("app", "/elsewhere").unwrap_err(), "root 'app' already exists");
    assert_eq!(
        state.add_root("other", "/work/app").unwrap_err(),
        "root path already registered: /work/app"
    );
    assert_eq!(names(&state), vec!["app".to_string()]);
}

#[test]
fn validate_root_request_checks_name_and_path() {
    assert_eq!(validate_root_request("  ", "/a").unwrap_err(), "`root` must be non-empty");
    assert_eq!(
        validate_root_request("x", "relative/dir").unwrap_err(),
        "`path` must be an absolute directory path"
    );
    assert!(validate_root_request("x", "/abs").is_ok());
}

#[test]
fn remove_root_refuses_primary_and_unknown() {
    let mut state = session();
    assert_eq!(state.remove_root("app").unwrap_err(), "cannot remove the primary root");
    assert_eq!(state.remove_root("nope").unwrap_err(), "unknown root 'nope'");
    assert_eq!(names(&state), vec!["app".to_string()]);
}

#[test]
fn add_then_remove_restores_the_roots() {
    let mut state = session();
    state.add_root("docs", "/work/docs").expect("added");
    let before = names(&state);
    state.add_root("lib", "/work/lib").expect("added");
    state.remove_root("lib").expect("removed");
    assert_eq!(names(&state), before);
    // The path is free again once its root is gone.
    assert!(state.add_root("lib2", "/work/lib").is_ok());
}

#[test]
fn path_prefix_compares_whole_components() {
    assert!(path_has_prefix("/a/b/c.rs", "/a/b"));
    assert!(path_has_prefix("/a/b", "/a/b/"));
    assert!(path_has_prefix("/a//b/./c", "/a/b"));
    assert!(!path_has_prefix("/a/bc/d", "/a/b"));
    assert!(!path_has_prefix("a/b", "/a/b"));
    assert!(!path_has_prefix("/a", "/a/b"));
}

#[test]
fn root_for_file_prefers_the_deepest_root() {
    let mut state = session();
    state.add_root("ui", "/work/app/ui").expect("added");
    state.add_root("other", "/srv").expect("added");
    assert_eq!(state.root_for_file("/work/app/ui/main.rs").expect("found").name, "ui");
    assert_eq!(state.root_for_file("/work/app/src/lib.rs").expect("found").name, "app");
    assert_eq!(state.root_for_file("/work/application/x").map(|r| r.name), None);
    assert!(state.root_for_file("/tmp/x").is_none());
}

#[test]
fn resolve_root_by_name_file_or_primary() {
    let mut state = session();
    state.add_root("ui", "/work/app/ui").expect("added");
    assert_eq!(state.resolve_root(None, None).expect("primary").name, "app");
    assert_eq!(state.resolve_root(Some("ui"), None).expect("named").path, "/work/app/ui");
    assert_eq!(state.resolve_root(Some("app"), Some("/work/app/ui/x.rs")).expect("inside").name, "app");
    assert!(state.resolve_root(Some("ui"), Some("/work/app/src/x.rs")).is_none());
    assert!(state.resolve_root(Some("missing"), None).is_none());
    assert_eq!(state.resolve_root(None, Some("/work/app/ui/x.rs")).expect("by file").name, "ui");
}

#[test]
fn root_statuses_mark_primary_and_capabilities() {
    let mut state = session();
    state.add_root("ui", "/work/app/ui").expect("added");
    let statuses = state.root_statuses(&["ui".to_string()], &["app".to_string(), "ui".to_string()]);
    assert_eq!(statuses.len(), 2);
    assert!(statuses[0].is_primary && !statuses[0].has_lsp && statuses[0].has_treesitter);
    assert!(!statuses[1].is_primary && statuses[1].has_lsp && statuses[1].has_treesitter);
    assert_eq!(
        format_root_statuses(&statuses),
        "Registered roots:\n* app -> /work/app [treesitter]\n- ui -> /work/app/ui [lsp, treesitter]"
    );
}

#[test]
fn add_root_refuses_a_blank_name_or_a_relative_path() {
    let mut state = MultiRootState::new("/work/app");
    state.add_root("app", "/work/app").expect("primary root");
    assert_eq!(state.add_root("   ", "/work/lib").unwrap_err(), "`root` must be non-empty");
    assert_eq!(state.add_root("lib", "work/lib").unwrap_err(), "`path` must be an absolute directory path");
    assert_eq!(state.add_root("lib", "").unwrap_err(), "`path` must be an absolute directory path");
    assert_eq!(names(&state), vec!["app".to_string()]);
}
