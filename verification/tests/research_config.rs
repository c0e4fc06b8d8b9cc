use codex_core::research_config::apply_data_secret_overrides;
use codex_core::research_config::apply_secret_overrides;
use codex_core::research_config::apply_toml_research_overrides;
use codex_core::research_config::build_data_config;
use codex_core::research_config::build_research_config;
use codex_core::research_config::build_research_tool_config;
use codex_core::research_config::DataConfig;
use codex_core::research_config::DataToolsToml;
use codex_core::research_config::ResearchConfig;
use codex_core::research_config::ResearchToolsToml;

fn empty_research_config() -> ResearchConfig {
    ResearchConfig {
        semantic_scholar_api_key: None,
        zotero_api_key: None,
        github_token: None,
        zotero_user_id: None,
        openalex_email: None,
        zotero_library_type: None,
        zotero_group_id: None,
        zotero_storage_dir: None,
        zotero_base_url: "https://api.zotero.org".to_string(),
    }
}

#[test]
fn apply_secret_overrides_fills_missing_keys_only() {
    let mut config = ResearchConfig {
        semantic_scholar_api_key: Some("env-s2".to_string()),
        ..empty_research_config()
    };

    apply_secret_overrides(&mut config, |name| match name {
        "SEMANTIC_SCHOLAR_API_KEY" => Some("secret-s2".to_string()),
        "ZOTERO_API_KEY" => Some("secret-zotero".to_string()),
        "GITHUB_TOKEN" => Some("secret-gh".to_string()),
        _ => None,
    });

    assert_eq!(config.semantic_scholar_api_key, Some("env-s2".to_string()));
    assert_eq!(config.zotero_api_key, Some("secret-zotero".to_string()));
    assert_eq!(config.github_token, Some("secret-gh".to_string()));
}

#[test]
fn toml_overrides_trim_and_blank_values_clear() {
    let mut config = ResearchConfig {
        zotero_api_key: Some("env-key".to_string()),
        zotero_user_id: Some("env-user".to_string()),
        github_token: Some("gh".to_string()),
        ..empty_research_config()
    };
    let toml = ResearchToolsToml {
        zotero_api_key: Some("  toml-key  ".to_string()),
        zotero_user_id: Some("   ".to_string()),
        openalex_email: Some("me@example.com".to_string()),
        zotero_base_url: Some("  ".to_string()),
        ..ResearchToolsToml::default()
    };
    apply_toml_research_overrides(&mut config, &toml);
    assert_eq!(config.zotero_api_key, Some("toml-key".to_string()));
    assert_eq!(config.zotero_user_id, None);
    assert_eq!(config.openalex_email, Some("me@example.com".to_string()));
    assert_eq!(config.zotero_group_id, None);
    assert_eq!(config.zotero_base_url, "https://api.zotero.org");
    assert_eq!(config.github_token, Some("gh".to_string()));

    let toml = ResearchToolsToml {
        zotero_base_url: Some(" https://zotero.example/api ".to_string()),
        ..ResearchToolsToml::default()
    };
    apply_toml_research_overrides(&mut config, &toml);
    assert_eq!(config.zotero_base_url, "https://zotero.example/api");
}

#[test]
fn build_research_config_without_toml_keeps_environment() {
    let env = ResearchConfig {
        zotero_user_id: Some("u".to_string()),
        ..empty_research_config()
    };
    assert_eq!(build_research_config(None, env.clone()), env);
    let toml = ResearchToolsToml {
        zotero_user_id: Some("t".to_string()),
        ..ResearchToolsToml::default()
    };
    assert_eq!(
        build_research_config(Some(&toml), env).zotero_user_id,
        Some("t".to_string())
    );
}

#[test]
fn research_tool_config_fills_only_missing_values() {
    let env = ResearchConfig {
        zotero_user_id: Some("env-user".to_string()),
        github_token: Some("env-gh".to_string()),
        ..empty_research_config()
    };
    let toml = ResearchToolsToml {
        zotero_user_id: Some("toml-user".to_string()),
        openalex_email: Some("toml@example.com".to_string()),
        ..ResearchToolsToml::default()
    };
    let config = build_research_tool_config(Some(&toml), env, |name| match name {
        "ZOTERO_API_KEY" => Some("secret-zotero".to_string()),
        "GITHUB_TOKEN" => Some("secret-gh".to_string()),
        _ => None,
    });
    assert_eq!(config.zotero_user_id, Some("env-user".to_string()));
    assert_eq!(config.openalex_email, Some("toml@example.com".to_string()));
    assert_eq!(config.zotero_api_key, Some("secret-zotero".to_string()));
    assert_eq!(config.github_token, Some("env-gh".to_string()));
    assert_eq!(config.semantic_scholar_api_key, None);
}

#[test]
fn data_secrets_prefer_hf_token_then_hub_token() {
    let mut config = DataConfig::default();
    apply_data_secret_overrides(&mut config, |name| match name {
        "HUGGING_FACE_HUB_TOKEN" => Some("hub".to_string()),
        "KAGGLE_KEY" => Some("kk".to_string()),
        "NVIDIA_API_KEY" => Some("nv".to_string()),
        _ => None,
    });
    assert_eq!(config.huggingface_token, Some("hub".to_string()));
    assert_eq!(config.kaggle_key, Some("kk".to_string()));
    assert_eq!(config.cosmos_api_key, Some("nv".to_string()));
    assert_eq!(config.kaggle_username, None);

    let mut config = DataConfig::default();
    apply_data_secret_overrides(&mut config, |name| match name {
        "HF_TOKEN" => Some("hf".to_string()),
        "HUGGING_FACE_HUB_TOKEN" => Some("hub".to_string()),
        _ => None,
    });
    assert_eq!(config.huggingface_token, Some("hf".to_string()));
}

#[test]
fn data_config_takes_toml_after_secrets() {
    let env = DataConfig {
        kaggle_username: Some("env-user".to_string()),
        ..DataConfig::default()
    };
    let toml = DataToolsToml {
        huggingface_token: Some("toml-hf".to_string()),
        kaggle_username: Some("toml-user".to_string()),
        kaggle_key: Some("toml-key".to_string()),
    };
    let config = build_data_config(Some(&toml), env, |name| match name {
        "KAGGLE_KEY" => Some("secret-key".to_string()),
        _ => None,
    });
    assert_eq!(config.huggingface_token, Some("toml-hf".to_string()));
    assert_eq!(config.kaggle_username, Some("env-user".to_string()));
    assert_eq!(config.kaggle_key, Some("secret-key".to_string()));
    assert_eq!(config.kaggle_api_token, None);
}
