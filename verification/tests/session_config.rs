use codex_core::session_config::{
    usage_hint_text, code_intel_enabled, effective_multi_agent_mode, lsp_server_choice, treesitter_config_map, LspServerChoice,
    LspSetting, MultiAgentMode, SessionSourceKind, TreeSitterConfig, TreeSitterConfigMap,
};

#[test]
fn treesitter_settings_follow_the_config() {
    assert!(treesitter_config_map(Some(TreeSitterConfig::Enabled(false))).is_none());
    let defaults = treesitter_config_map(None).expect("defaults");
    assert!(defaults.persist_annotations);
    assert!(defaults.max_file_size.is_none());
    let on = treesitter_config_map(Some(TreeSitterConfig::Enabled(true))).expect("defaults");
    assert!(on.ignore_patterns.is_empty() && on.persist_annotations);
    let mut custom = TreeSitterConfigMap::default();
    custom.max_file_size = Some(1024);
    custom.persist_annotations = false;
    let got = treesitter_config_map(Some(TreeSitterConfig::Config(custom))).expect("custom");
    assert_eq!(got.max_file_size, Some(1024));
    assert!(!got.persist_annotations);
}

#[test]
fn lsp_setting_picks_servers() {
    assert_eq!(lsp_server_choice(Some(LspSetting::Enabled(false))), LspServerChoice::NoServers);
    assert_eq!(lsp_server_choice(Some(LspSetting::Enabled(true))), LspServerChoice::Builtins);
    assert_eq!(lsp_server_choice(None), LspServerChoice::Builtins);
    assert_eq!(lsp_server_choice(Some(LspSetting::Servers)), LspServerChoice::BuiltinsWithOverrides);
}

#[test]
fn code_intel_starts_with_servers_or_index() {
    assert!(!code_intel_enabled(None, false));
    assert!(!code_intel_enabled(Some(0), false));
    assert!(code_intel_enabled(Some(2), false));
    assert!(code_intel_enabled(None, true));
}

#[test]
fn multi_agent_mode_by_feature_effort_and_source() {
    assert_eq!(effective_multi_agent_mode(false, true, SessionSourceKind::Cli), None);
    assert_eq!(effective_multi_agent_mode(true, true, SessionSourceKind::Cli), Some(MultiAgentMode::Proactive));
    assert_eq!(
        effective_multi_agent_mode(true, false, SessionSourceKind::ThreadSpawnSubAgent),
        Some(MultiAgentMode::ExplicitRequestOnly)
    );
    assert_eq!(effective_multi_agent_mode(true, true, SessionSourceKind::Internal), None);
    assert_eq!(effective_multi_agent_mode(true, true, SessionSourceKind::OtherSubAgent), None);
}

#[test]
fn usage_hints_by_source() {
    assert_eq!(usage_hint_text(false, SessionSourceKind::Cli, Some("sub"), Some("root")), None);
    assert_eq!(usage_hint_text(true, SessionSourceKind::Cli, Some("sub"), Some("root")), Some("root"));
    assert_eq!(usage_hint_text(true, SessionSourceKind::ThreadSpawnSubAgent, Some("sub"), Some("root")), Some("sub"));
    assert_eq!(usage_hint_text(true, SessionSourceKind::Internal, Some("sub"), Some("root")), None);
}
