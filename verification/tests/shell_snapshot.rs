use codex_core::shell_snapshot::{
    build_override_exports, build_override_exports_for_keys, build_proxy_env_exports, is_valid_shell_variable_name,
    join_shell_blocks, shell_single_quote, maybe_wrap_shell_lc_with_snapshot,
};
use codex_core::sorting::{dedup_strings, sort_strings};

fn words(items: &[&str]) -> Vec<String> {
    items.iter().map(|s| s.to_string()).collect()
}

#[test]
fn shell_variable_names() {
    assert!(is_valid_shell_variable_name("PATH"));
    assert!(is_valid_shell_variable_name("_x1"));
    assert!(!is_valid_shell_variable_name(""));
    assert!(!is_valid_shell_variable_name("1A"));
    assert!(!is_valid_shell_variable_name("A-B"));
    assert!(!is_valid_shell_variable_name("É"));
}

#[test]
fn single_quote_escaping() {
    assert_eq!(shell_single_quote("it's"), "it'\"'\"'s");
    assert_eq!(shell_single_quote("plain"), "plain");
}

#[test]
fn blocks_skip_empty_ones() {
    assert_eq!(join_shell_blocks(words(&["a", "", "b"])), "a\nb");
    assert_eq!(join_shell_blocks(words(&["", ""])), "");
}

#[test]
fn sorting_matches_std() {
    let input = words(&["b", "a", "B", "_z", "ab", "a"]);
    let mut expected = input.clone();
    expected.sort_unstable();
    assert_eq!(sort_strings(input), expected);
    assert_eq!(dedup_strings(words(&["a", "a", "b", "a"])), words(&["a", "b", "a"]));
}

#[test]
fn override_exports_for_keys() {
    assert_eq!(build_override_exports_for_keys("P", &[]), (String::new(), String::new()));
    let (c, r) = build_override_exports_for_keys("P", &words(&["A", "B"]));
    assert_eq!(c, "P_SET_0=\"${A+x}\"\nP_0=\"${A-}\"\nP_SET_1=\"${B+x}\"\nP_1=\"${B-}\"");
    assert_eq!(
        r,
        "if [ -n \"${P_SET_0}\" ]; then export A=\"${P_0}\"; else unset A; fi\nif [ -n \"${P_SET_1}\" ]; then export B=\"${P_1}\"; else unset B; fi"
    );
}

#[test]
fn override_exports_keep_valid_names_sorted() {
    let (c, _) = build_override_exports(&words(&["ZED", "bad-name", "ALPHA"]));
    assert!(c.starts_with("__CODEX_SNAPSHOT_OVERRIDE_SET_0=\"${ALPHA+x}\""));
    assert!(c.contains("__CODEX_SNAPSHOT_OVERRIDE_SET_1=\"${ZED+x}\""));
    assert!(!c.contains("bad-name"));
}

#[test]
fn proxy_exports_are_guarded_by_the_active_key() {
    let (c, r) = build_proxy_env_exports(&words(&["HTTPS_PROXY", "HTTP_PROXY", "HTTPS_PROXY"]), "CODEX_PROXY_ACTIVE");
    assert!(c.ends_with("\n__CODEX_SNAPSHOT_PROXY_ENV_SET=\"${CODEX_PROXY_ACTIVE+x}\""));
    assert!(c.starts_with("__CODEX_SNAPSHOT_PROXY_OVERRIDE_SET_0=\"${HTTPS_PROXY+x}\""));
    assert!(!c.contains("_2="));
    assert!(r.starts_with(
        "if [ -n \"$__CODEX_SNAPSHOT_PROXY_ENV_SET\" ] || [ -n \"${CODEX_PROXY_ACTIVE+x}\" ]; then\n"
    ));
    assert!(r.ends_with("\nfi"));
}

#[test]
fn non_login_commands_are_left_alone() {
    let cmd = words(&["bash", "-c", "echo hi"]);
    assert_eq!(maybe_wrap_shell_lc_with_snapshot(&cmd, "/bin/zsh", "/snap", &[], None, &[], "A"), cmd);
    let short = words(&["bash", "-lc"]);
    assert_eq!(maybe_wrap_shell_lc_with_snapshot(&short, "/bin/zsh", "/snap", &[], None, &[], "A"), short);
}

#[test]
fn login_commands_source_the_snapshot() {
    let cmd = words(&["/bin/bash", "-lc", "echo 'hi'", "x y"]);
    let wrapped = maybe_wrap_shell_lc_with_snapshot(
        &cmd,
        "/bin/zsh",
        "/tmp/snap.sh",
        &words(&["FOO"]),
        Some("CODEX_THREAD_ID"),
        &words(&["HTTP_PROXY"]),
        "CODEX_PROXY_ACTIVE",
    );
    assert_eq!(wrapped[0], "/bin/zsh");
    assert_eq!(wrapped[1], "-c");
    let script = &wrapped[2];
    assert!(script.starts_with("__CODEX_SNAPSHOT_OVERRIDE_SET_0=\"${CODEX_THREAD_ID+x}\""));
    assert!(script.contains("__CODEX_SNAPSHOT_OVERRIDE_SET_1=\"${FOO+x}\""));
    assert!(script.contains("\n\nif . '/tmp/snap.sh' >/dev/null 2>&1; then :; fi\n\n"));
    assert!(script.ends_with("\n\nexec '/bin/bash' -c 'echo '\"'\"'hi'\"'\"'' 'x y'"));
}
