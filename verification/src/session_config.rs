//! Session settings read from the configuration: the syntax index's
//! settings, which language-server settings apply, whether code
//! intelligence starts at all, and the multi-agent mode of a turn.
use vstd::prelude::*;

verus! {

/// The syntax index's settings as the configuration gives them.
#[derive(Debug, Clone)]
pub struct TreeSitterConfigMap {
    pub max_file_size: Option<u64>,
    pub ignore_patterns: Vec<String>,
    pub ignore_extensions: Vec<String>,
    pub disabled_languages: Vec<String>,
    pub annotation_store_path: Option<String>,
    pub persist_annotations: bool,
}

/// Annotations persist unless the configuration says otherwise.
pub fn default_true() -> (r: bool)
    ensures
        r,
{
    true
}

impl Default for TreeSitterConfigMap {
    /// No limits or exclusions; annotations persist.
    fn default() -> (r: Self)
        ensures
            r.max_file_size is None,
            r.ignore_patterns@.len() == 0,
            r.ignore_extensions@.len() == 0,
            r.disabled_languages@.len() == 0,
            r.annotation_store_path is None,
            r.persist_annotations,
    {
        TreeSitterConfigMap {
            max_file_size: None,
            ignore_patterns: Vec::new(),
            ignore_extensions: Vec::new(),
            disabled_languages: Vec::new(),
            annotation_store_path: None,
            persist_annotations: default_true(),
        }
    }
}

/// The `treesitter` setting: on or off, or its settings.
#[derive(Debug)]
pub enum TreeSitterConfig {
    Enabled(bool),
    Config(TreeSitterConfigMap),
}

/// The syntax index's settings: none when it is switched off; the given
/// settings; the defaults when it is switched on, absent or unreadable
/// (`None`).
pub fn treesitter_config_map(config: Option<TreeSitterConfig>) -> (r: Option<TreeSitterConfigMap>)
    ensures
        config matches Some(TreeSitterConfig::Enabled(false)) ==> r is None,
        config matches Some(TreeSitterConfig::Config(m)) ==> r == Some(m),
        (config is None || config matches Some(TreeSitterConfig::Enabled(true))) ==> (r matches Some(m) && m.max_file_size
            is None && m.ignore_patterns@.len() == 0 && m.ignore_extensions@.len() == 0 && m.disabled_languages@.len() == 0
            && m.annotation_store_path is None && m.persist_annotations),
{
    match config {
        Some(TreeSitterConfig::Enabled(false)) => None,
        Some(TreeSitterConfig::Config(map)) => Some(map),
        _ => Some(TreeSitterConfigMap::default()),
    }
}

/// How the `lsp` setting shapes the language servers.
#[derive(Debug, Clone, Copy, PartialEq, Eq, Structural)]
pub enum LspServerChoice {
    /// No language servers at all.
    NoServers,
    /// The built-in servers as they are.
    Builtins,
    /// The built-in servers with the configured overrides merged in.
    BuiltinsWithOverrides,
}

/// The shape of the `lsp` setting.
#[derive(Debug, Clone, Copy, PartialEq, Eq, Structural)]
pub enum LspSetting {
    Enabled(bool),
    Servers,
}

/// Which language servers a session gets: `lsp = false` switches them off,
/// a table of servers overrides the built-ins, and anything else (`lsp =
/// true`, no setting, an unreadable one) keeps the built-ins.
pub fn lsp_server_choice(setting: Option<LspSetting>) -> (r: LspServerChoice)
    ensures
        r == match setting {
            Some(LspSetting::Enabled(false)) => LspServerChoice::NoServers,
            Some(LspSetting::Servers) => LspServerChoice::BuiltinsWithOverrides,
            _ => LspServerChoice::Builtins,
        },
{
    match setting {
        Some(LspSetting::Enabled(false)) => LspServerChoice::NoServers,
        Some(LspSetting::Servers) => LspServerChoice::BuiltinsWithOverrides,
        _ => LspServerChoice::Builtins,
    }
}

/// Whether code intelligence starts for a session: when some language
/// server is configured or the syntax index has settings.
pub fn code_intel_enabled(lsp_servers: Option<usize>, treesitter_configured: bool) -> (r: bool)
    ensures
        r == ((lsp_servers matches Some(n) && n > 0) || treesitter_configured),
{
    let lsp_enabled = match lsp_servers {
        Some(n) => n > 0,
        None => false,
    };
    lsp_enabled || treesitter_configured
}

/// How eagerly a turn hands work to other agents.
#[derive(Debug, Clone, Copy, PartialEq, Eq, Structural)]
pub enum MultiAgentMode {
    Proactive,
    ExplicitRequestOnly,
}

/// Where a session comes from.
#[derive(Debug, Clone, Copy, PartialEq, Eq, Structural)]
pub enum SessionSourceKind {
    Cli,
    VSCode,
    Exec,
    Mcp,
    Custom,
    Unknown,
    Internal,
    /// A sub-agent spawned as a thread.
    ThreadSpawnSubAgent,
    /// Any other sub-agent.
    OtherSubAgent,
}

/// The multi-agent mode of a turn: none unless the feature is on; proactive
/// at the highest reasoning effort, else only on request; and none for
/// internal sessions and sub-agents other than spawned threads.
pub fn effective_multi_agent_mode(feature_enabled: bool, ultra_effort: bool, source: SessionSourceKind) -> (r: Option<
    MultiAgentMode,
>)
    ensures
        !feature_enabled ==> r is None,
        feature_enabled && (source == SessionSourceKind::Internal || source == SessionSourceKind::OtherSubAgent) ==> r is None,
        feature_enabled && !(source == SessionSourceKind::Internal || source == SessionSourceKind::OtherSubAgent) ==> r
            == Some(
            if ultra_effort {
                MultiAgentMode::Proactive
            } else {
                MultiAgentMode::ExplicitRequestOnly
            },
        ),
{
    if !feature_enabled {
        return None;
    }
    let mode = if ultra_effort {
        MultiAgentMode::Proactive
    } else {
        MultiAgentMode::ExplicitRequestOnly
    };
    match source {
        SessionSourceKind::Internal | SessionSourceKind::OtherSubAgent => None,
        _ => Some(mode),
    }
}

/// The usage hint a turn's model gets about other agents: none unless the
/// feature is on; the sub-agent hint for a spawned thread, the root-agent
/// hint for sessions a user starts, and none for internal sessions and other
/// sub-agents.
pub fn usage_hint_text<'a>(
    feature_enabled: bool,
    source: SessionSourceKind,
    subagent_hint: Option<&'a str>,
    root_agent_hint: Option<&'a str>,
) -> (r: Option<&'a str>)
    ensures
        r == if !feature_enabled {
            None
        } else {
            match source {
                SessionSourceKind::ThreadSpawnSubAgent => subagent_hint,
                SessionSourceKind::Internal | SessionSourceKind::OtherSubAgent => None,
                _ => root_agent_hint,
            }
        },
{
    if !feature_enabled {
        return None;
    }
    match source {
        SessionSourceKind::ThreadSpawnSubAgent => subagent_hint,
        SessionSourceKind::Internal | SessionSourceKind::OtherSubAgent => None,
        _ => root_agent_hint,
    }
}

} // verus!
