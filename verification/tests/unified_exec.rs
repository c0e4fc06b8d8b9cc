use codex_core::unified_exec::{
    all_commands_target_only_codex_home, ata_shell_wrapper_script, escalation_rejected_message, format_response,
    exec_env_for_sandbox_permissions, is_ata_program, path_file_name, resolve_agent_ata_command, ExecReport,
    SubCommand, UnifiedExecHandler, split_sandbox_command, kb_root_needs_entry, PermissionEntry,
    unified_exec_call, check_escalation, requested_workdir, UnifiedExecCall,
};

fn words(ws: &[&str]) -> Vec<String> {
    ws.iter().map(|s| s.to_string()).collect()
}

fn cmd(words: &[&str], known_safe: bool) -> SubCommand {
    SubCommand { words: words.iter().map(|s| s.to_string()).collect(), known_safe }
}

const HOME: &str = "/home/u/.ata";

#[test]
fn rm_under_codex_home_is_allowed() {
    let kb_path = format!("{HOME}/knowledge-base/cards/*");
    assert!(all_commands_target_only_codex_home(HOME, &[cmd(&["rm", "-rf", &kb_path], false)]));
}

#[test]
fn rm_outside_codex_home_is_blocked() {
    assert!(!all_commands_target_only_codex_home(HOME, &[cmd(&["rm", "-rf", "/etc/passwd"], false)]));
}

#[test]
fn rm_mixed_paths_is_blocked() {
    let kb_path = format!("{HOME}/knowledge-base/cards/*");
    assert!(!all_commands_target_only_codex_home(HOME, &[cmd(&["rm", "-rf", &kb_path, "/etc/passwd"], false)]));
}

#[test]
fn other_commands_need_to_be_safe_or_stay_home() {
    assert!(!all_commands_target_only_codex_home(HOME, &[cmd(&["rm", "-rf"], false)]));
    assert!(all_commands_target_only_codex_home(HOME, &[cmd(&["ls"], true), cmd(&["/bin/rm", "/home/u/.ata/x"], false)]));
    assert!(!all_commands_target_only_codex_home(HOME, &[cmd(&["python", "script.py"], false)]));
    assert!(all_commands_target_only_codex_home(HOME, &[cmd(&["cp", "/home/u/.ata/a", "/home/u/.ata/b"], false)]));
    assert!(!all_commands_target_only_codex_home(HOME, &[cmd(&["cp", "/home/u/.ata/a", "/tmp/b"], false)]));
    assert!(all_commands_target_only_codex_home(HOME, &[cmd(&[], false)]));
}

#[test]
fn mutating_unless_safe_or_home_only() {
    let handler = UnifiedExecHandler;
    assert!(handler.is_mutating(None, HOME, &[]));
    assert!(!handler.is_mutating(Some(true), HOME, &[cmd(&["rm", "-rf", "/etc"], false)]));
    assert!(!handler.is_mutating(Some(false), HOME, &[cmd(&["rm", "/home/u/.ata/x"], false)]));
    assert!(handler.is_mutating(Some(false), HOME, &[cmd(&["rm", "/etc/x"], false)]));
}

#[test]
fn file_names_follow_std() {
    for p in ["ata", "/usr/bin/ata", "a/b/", "a/./b/.", "/", "", ".", "..", "a/..", "./", "x//y"] {
        let expected = std::path::Path::new(p).file_name().map(|n| n.to_string_lossy().to_string());
        assert_eq!(path_file_name(p), expected, "{p}");
    }
}

#[test]
fn ata_programs() {
    assert!(is_ata_program("ata"));
    assert!(is_ata_program("/opt/bin/ATA"));
    assert!(is_ata_program("ata.exe"));
    assert!(!is_ata_program("data"));
    assert!(is_ata_program("ata/"));
    assert!(!is_ata_program("ata/.."));
    assert_eq!(
        ata_shell_wrapper_script("/opt/it's/ata", "ata run"),
        "ata() { '/opt/it'\"'\"'s/ata' \"$@\"; }\n\nata run"
    );
}

#[test]
fn exec_reports() {
    let report = ExecReport {
        chunk_id: "c1".to_string(),
        wall_time_text: "0.5000".to_string(),
        exit_code: Some(-1),
        process_id: None,
        original_token_count: Some(42),
        output: "done".to_string(),
    };
    assert_eq!(
        format_response(&report),
        "Chunk ID: c1\nWall time: 0.5000 seconds\nProcess exited with code -1\nOriginal token count: 42\nOutput:\ndone"
    );
    let running = ExecReport {
        chunk_id: String::new(),
        wall_time_text: "1.0000".to_string(),
        exit_code: None,
        process_id: Some("7".to_string()),
        original_token_count: None,
        output: String::new(),
    };
    assert_eq!(format_response(&running), "Wall time: 1.0000 seconds\nProcess running with session ID 7\nOutput:\n");
    assert_eq!(
        escalation_rejected_message("Never"),
        "approval policy is Never; reject command — you cannot ask for escalated permissions if the approval policy is Never"
    );
}

#[test]
fn ata_commands_run_the_current_executable() {
    let exe = Some("/opt/ata/bin/ata");
    let (cmd, rewritten) = resolve_agent_ata_command(&words(&["ata", "kb", "status"]), exe, None, None, None);
    assert_eq!((cmd, rewritten), (words(&["/opt/ata/bin/ata", "kb", "status"]), true));
    let plain = vec![words(&["ata", "exec", "x"])];
    let shell = words(&["bash", "-lc", "ata exec x"]);
    let (cmd, rewritten) = resolve_agent_ata_command(&shell, exe, Some(&plain), None, Some("ata exec x"));
    assert_eq!((cmd, rewritten), (words(&["/opt/ata/bin/ata", "exec", "x"]), true));
    let compound = words(&["bash", "-lc", "cd /tmp; ata exec x"]);
    let names = words(&["cd", "ata"]);
    let (cmd, rewritten) =
        resolve_agent_ata_command(&compound, exe, None, Some(&names), Some("cd /tmp; ata exec x"));
    assert!(rewritten);
    assert_eq!(cmd[2], "ata() { '/opt/ata/bin/ata' \"$@\"; }\n\ncd /tmp; ata exec x");
    let (cmd, rewritten) = resolve_agent_ata_command(&words(&["ls", "-l"]), exe, None, None, None);
    assert_eq!((cmd, rewritten), (words(&["ls", "-l"]), false));
    let (cmd, rewritten) = resolve_agent_ata_command(&words(&["ata"]), None, None, None, None);
    assert_eq!((cmd, rewritten), (words(&["ata"]), false));
}

#[test]
fn escalated_commands_drop_proxy_variables() {
    let env = vec![
        ("HTTP_PROXY".to_string(), "http://127.0.0.1:1".to_string()),
        ("PATH".to_string(), "/bin".to_string()),
        ("CODEX_PROXY_ACTIVE".to_string(), "1".to_string()),
    ];
    let keys = words(&["HTTP_PROXY", "HTTPS_PROXY"]);
    let out = exec_env_for_sandbox_permissions(&env, true, &keys, "CODEX_PROXY_ACTIVE");
    assert_eq!(
        out,
        vec![("PATH".to_string(), "/bin".to_string()), ("CODEX_PROXY_ACTIVE".to_string(), "1".to_string())]
    );
    assert_eq!(exec_env_for_sandbox_permissions(&env, false, &keys, "CODEX_PROXY_ACTIVE"), env);
    assert_eq!(exec_env_for_sandbox_permissions(&env, true, &keys, "OTHER_KEY"), env);
}

#[test]
fn sandbox_command_splits_program_and_arguments() {
    assert_eq!(
        split_sandbox_command(&words(&["ls", "-la", "/tmp"])),
        Ok(("ls".to_string(), words(&["-la", "/tmp"])))
    );
    assert_eq!(split_sandbox_command(&words(&["pwd"])), Ok(("pwd".to_string(), vec![])));
    assert_eq!(split_sandbox_command(&[]), Err("command args are empty".to_string()));
}

#[test]
fn kb_root_is_added_unless_already_writable() {
    let root = "/home/u/.ata/ws/knowledge-base";
    let read_only = PermissionEntry { path: Some(root.to_string()), write: false };
    let writable = PermissionEntry { path: Some(root.to_string()), write: true };
    let other = PermissionEntry { path: Some("/tmp".to_string()), write: true };
    let glob = PermissionEntry { path: None, write: true };
    assert!(kb_root_needs_entry(&[], root));
    assert!(kb_root_needs_entry(&[read_only.clone(), other.clone(), glob.clone()], root));
    assert!(!kb_root_needs_entry(&[other, writable], root));
}

#[test]
fn paths_that_climb_out_of_codex_home_are_blocked() {
    let escape = format!("{HOME}/../../etc");
    assert!(!all_commands_target_only_codex_home(HOME, &[cmd(&["rm", "-rf", &escape], false)]));
    let sibling = format!("{HOME}X/data");
    assert!(!all_commands_target_only_codex_home(HOME, &[cmd(&["rm", "-rf", &sibling], false)]));
    let inside = format!("{HOME}/knowledge-base/./cards/../notes");
    assert!(all_commands_target_only_codex_home(HOME, &[cmd(&["rm", "-rf", &inside], false)]));
    let doubled = format!("{HOME}//skills/");
    assert!(all_commands_target_only_codex_home(HOME, &[cmd(&["cp", &doubled, &inside], false)]));
    assert!(!all_commands_target_only_codex_home(HOME, &[cmd(&["cp", &escape, &inside], false)]));
}

#[test]
fn unified_exec_calls_and_checks() {
    assert_eq!(unified_exec_call("exec_command"), Ok(UnifiedExecCall::ExecCommand));
    assert_eq!(unified_exec_call("write_stdin"), Ok(UnifiedExecCall::WriteStdin));
    assert_eq!(unified_exec_call("kill"), Err("unsupported unified exec function kill".to_string()));
    assert_eq!(check_escalation(false, false, "Never"), Ok(()));
    assert_eq!(check_escalation(true, true, "OnRequest"), Ok(()));
    assert_eq!(
        check_escalation(true, false, "Never"),
        Err("approval policy is Never; reject command — you cannot ask for escalated permissions if the approval policy is Never".to_string())
    );
    assert_eq!(requested_workdir(Some("")), None);
    assert_eq!(requested_workdir(None), None);
    assert_eq!(requested_workdir(Some("/w")), Some("/w".to_string()));
}
