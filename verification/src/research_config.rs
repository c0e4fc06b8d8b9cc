//! The credentials and settings the research and data toolkits start with:
//! what the environment gave, filled from the secret store where a value is
//! missing, then from the `[research]` / `[data]` tables of `config.toml`.
use vstd::prelude::*;

use crate::document::opt_view;
use crate::text::{chars_of, string_of, trim, trim_chars};

verus! {

/// The settings of the research toolkit that this crate reads or fills.
#[derive(Debug, Clone, PartialEq, Eq)]
pub struct ResearchConfig {
    pub semantic_scholar_api_key: Option<String>,
    pub zotero_api_key: Option<String>,
    pub github_token: Option<String>,
    pub zotero_user_id: Option<String>,
    pub openalex_email: Option<String>,
    pub zotero_library_type: Option<String>,
    pub zotero_group_id: Option<String>,
    pub zotero_storage_dir: Option<String>,
    pub zotero_base_url: String,
}

/// The `[research]` table of `config.toml`.
#[derive(Debug, Clone, PartialEq, Eq, Default)]
pub struct ResearchToolsToml {
    pub zotero_api_key: Option<String>,
    pub zotero_user_id: Option<String>,
    pub openalex_email: Option<String>,
    pub zotero_library_type: Option<String>,
    pub zotero_group_id: Option<String>,
    pub zotero_storage_dir: Option<String>,
    pub zotero_base_url: Option<String>,
}

/// A setting from `config.toml`, trimmed: absent stays absent (`None`), a
/// blank value clears the setting (`Some(None)`), any other value sets it.
pub open spec fn normalized(value: Option<Seq<char>>) -> Option<Option<Seq<char>>> {
    match value {
        Some(raw) => if trim(raw).len() == 0 {
            Some(None)
        } else {
            Some(Some(trim(raw)))
        },
        None => None,
    }
}

/// An optional setting after a `config.toml` value is laid over it.
pub open spec fn overridden(target: Option<Seq<char>>, value: Option<Seq<char>>) -> Option<Seq<char>> {
    match normalized(value) {
        Some(v) => v,
        None => target,
    }
}

/// A required setting after a `config.toml` value is laid over it: only a
/// value that is not blank replaces it.
pub open spec fn overridden_required(target: Seq<char>, value: Option<Seq<char>>) -> Seq<char> {
    match normalized(value) {
        Some(Some(v)) => v,
        _ => target,
    }
}

fn normalize(value: &Option<String>) -> (r: Option<Option<String>>)
    ensures
        match r {
            Some(inner) => normalized(opt_view(*value)) == Some(opt_view(inner)),
            None => normalized(opt_view(*value)) is None,
        },
{
    match value {
        Some(raw) => {
            let t = trim_chars(chars_of(raw.as_str()).as_slice());
            if t.len() == 0 {
                Some(None)
            } else {
                Some(Some(string_of(t.as_slice())))
            }
        },
        None => None,
    }
}

fn apply_option(target: &mut Option<String>, value: &Option<String>)
    ensures
        opt_view(*final(target)) == overridden(opt_view(*old(target)), opt_view(*value)),
{
    if let Some(v) = normalize(value) {
        *target = v;
    }
}

fn apply_string(target: &mut String, value: &Option<String>)
    ensures
        final(target)@ == overridden_required(old(target)@, opt_view(*value)),
{
    if let Some(Some(v)) = normalize(value) {
        *target = v;
    }
}

/// Lays the `[research]` table over the settings: each value present
/// (trimmed) replaces the setting, a blank one clears an optional setting
/// and leaves the base URL as it was; the API keys of other services are
/// untouched.
pub fn apply_toml_research_overrides(config: &mut ResearchConfig, toml: &ResearchToolsToml)
    ensures
        opt_view(final(config).zotero_api_key) == overridden(opt_view(old(config).zotero_api_key), opt_view(toml.zotero_api_key)),
        opt_view(final(config).zotero_user_id) == overridden(opt_view(old(config).zotero_user_id), opt_view(toml.zotero_user_id)),
        opt_view(final(config).openalex_email) == overridden(opt_view(old(config).openalex_email), opt_view(toml.openalex_email)),
        opt_view(final(config).zotero_library_type) == overridden(opt_view(old(config).zotero_library_type), opt_view(toml.zotero_library_type)),
        opt_view(final(config).zotero_group_id) == overridden(opt_view(old(config).zotero_group_id), opt_view(toml.zotero_group_id)),
        opt_view(final(config).zotero_storage_dir) == overridden(opt_view(old(config).zotero_storage_dir), opt_view(toml.zotero_storage_dir)),
        final(config).zotero_base_url@ == overridden_required(old(config).zotero_base_url@, opt_view(toml.zotero_base_url)),
        final(config).semantic_scholar_api_key == old(config).semantic_scholar_api_key,
        final(config).github_token == old(config).github_token,
{
    apply_option(&mut config.zotero_api_key, &toml.zotero_api_key);
    apply_option(&mut config.zotero_user_id, &toml.zotero_user_id);
    apply_option(&mut config.openalex_email, &toml.openalex_email);
    apply_option(&mut config.zotero_library_type, &toml.zotero_library_type);
    apply_option(&mut config.zotero_group_id, &toml.zotero_group_id);
    apply_option(&mut config.zotero_storage_dir, &toml.zotero_storage_dir);
    apply_string(&mut config.zotero_base_url, &toml.zotero_base_url);
}

/// Fills each missing API key of the research toolkit with what the secret
/// store holds under its name; a key the environment already gave stays.
pub fn apply_secret_overrides<F: Fn(&str) -> Option<String>>(config: &mut ResearchConfig, resolve_secret: F)
    requires
        forall|name: &str| resolve_secret.requires((name,)),
    ensures
        old(config).semantic_scholar_api_key is Some ==> final(config).semantic_scholar_api_key == old(config).semantic_scholar_api_key,
        old(config).semantic_scholar_api_key is None ==> resolve_secret.ensures(("SEMANTIC_SCHOLAR_API_KEY",), final(config).semantic_scholar_api_key),
        old(config).zotero_api_key is Some ==> final(config).zotero_api_key == old(config).zotero_api_key,
        old(config).zotero_api_key is None ==> resolve_secret.ensures(("ZOTERO_API_KEY",), final(config).zotero_api_key),
        old(config).github_token is Some ==> final(config).github_token == old(config).github_token,
        old(config).github_token is None ==> resolve_secret.ensures(("GITHUB_TOKEN",), final(config).github_token),
        final(config).zotero_user_id == old(config).zotero_user_id,
        final(config).openalex_email == old(config).openalex_email,
        final(config).zotero_library_type == old(config).zotero_library_type,
        final(config).zotero_group_id == old(config).zotero_group_id,
        final(config).zotero_storage_dir == old(config).zotero_storage_dir,
        final(config).zotero_base_url == old(config).zotero_base_url,
{
    if config.semantic_scholar_api_key.is_none() {
        config.semantic_scholar_api_key = resolve_secret("SEMANTIC_SCHOLAR_API_KEY");
    }
    if config.zotero_api_key.is_none() {
        config.zotero_api_key = resolve_secret("ZOTERO_API_KEY");
    }
    if config.github_token.is_none() {
        config.github_token = resolve_secret("GITHUB_TOKEN");
    }
}

/// The research settings: what the environment gave (`from_env`), with the
/// `[research]` table of `config.toml` laid over it when there is one.
pub fn build_research_config(toml: Option<&ResearchToolsToml>, from_env: ResearchConfig) -> (r: ResearchConfig)
    ensures
        toml is None ==> r == from_env,
        toml is Some ==> {
            let t = toml->0;
            &&& opt_view(r.zotero_api_key) == overridden(opt_view(from_env.zotero_api_key), opt_view(t.zotero_api_key))
            &&& opt_view(r.zotero_user_id) == overridden(opt_view(from_env.zotero_user_id), opt_view(t.zotero_user_id))
            &&& opt_view(r.openalex_email) == overridden(opt_view(from_env.openalex_email), opt_view(t.openalex_email))
            &&& opt_view(r.zotero_library_type) == overridden(opt_view(from_env.zotero_library_type), opt_view(t.zotero_library_type))
            &&& opt_view(r.zotero_group_id) == overridden(opt_view(from_env.zotero_group_id), opt_view(t.zotero_group_id))
            &&& opt_view(r.zotero_storage_dir) == overridden(opt_view(from_env.zotero_storage_dir), opt_view(t.zotero_storage_dir))
            &&& r.zotero_base_url@ == overridden_required(from_env.zotero_base_url@, opt_view(t.zotero_base_url))
            &&& r.semantic_scholar_api_key == from_env.semantic_scholar_api_key
            &&& r.github_token == from_env.github_token
        },
{
    let mut config = from_env;
    if let Some(t) = toml {
        apply_toml_research_overrides(&mut config, t);
    }
    config
}

/// `current` unless it is missing, then `fallback`.
pub open spec fn or_fallback(current: Option<String>, fallback: Option<String>) -> Option<String> {
    if current is Some {
        current
    } else {
        fallback
    }
}

fn fill_missing(target: &mut Option<String>, value: &Option<String>)
    ensures
        *final(target) == or_fallback(*old(target), *value),
{
    if target.is_none() {
        *target = value.clone();
    }
}

/// The settings the research tools run with: what the environment gave,
/// each missing API key filled from the secret store, then each missing
/// Zotero / OpenAlex setting taken from the `[research]` table.
pub fn build_research_tool_config<F: Fn(&str) -> Option<String>>(
    toml: Option<&ResearchToolsToml>,
    from_env: ResearchConfig,
    resolve_secret: F,
) -> (r: ResearchConfig)
    requires
        forall|name: &str| resolve_secret.requires((name,)),
    ensures
        from_env.semantic_scholar_api_key is Some ==> r.semantic_scholar_api_key == from_env.semantic_scholar_api_key,
        from_env.semantic_scholar_api_key is None ==> resolve_secret.ensures(("SEMANTIC_SCHOLAR_API_KEY",), r.semantic_scholar_api_key),
        from_env.zotero_api_key is Some ==> r.zotero_api_key == from_env.zotero_api_key,
        from_env.zotero_api_key is None ==> resolve_secret.ensures(("ZOTERO_API_KEY",), r.zotero_api_key),
        from_env.github_token is Some ==> r.github_token == from_env.github_token,
        from_env.github_token is None ==> resolve_secret.ensures(("GITHUB_TOKEN",), r.github_token),
        toml is None ==> {
            &&& r.zotero_user_id == from_env.zotero_user_id
            &&& r.openalex_email == from_env.openalex_email
            &&& r.zotero_library_type == from_env.zotero_library_type
            &&& r.zotero_group_id == from_env.zotero_group_id
        },
        toml is Some ==> {
            let t = toml->0;
            &&& r.zotero_user_id == or_fallback(from_env.zotero_user_id, t.zotero_user_id)
            &&& r.openalex_email == or_fallback(from_env.openalex_email, t.openalex_email)
            &&& r.zotero_library_type == or_fallback(from_env.zotero_library_type, t.zotero_library_type)
            &&& r.zotero_group_id == or_fallback(from_env.zotero_group_id, t.zotero_group_id)
        },
        r.zotero_storage_dir == from_env.zotero_storage_dir,
        r.zotero_base_url == from_env.zotero_base_url,
{
    let mut config = from_env;
    apply_secret_overrides(&mut config, resolve_secret);
    if let Some(t) = toml {
        fill_missing(&mut config.zotero_user_id, &t.zotero_user_id);
        fill_missing(&mut config.openalex_email, &t.openalex_email);
        fill_missing(&mut config.zotero_library_type, &t.zotero_library_type);
        fill_missing(&mut config.zotero_group_id, &t.zotero_group_id);
    }
    config
}

/// The credentials of the dataset toolkit that this crate reads or fills.
#[derive(Debug, Clone, PartialEq, Eq, Default)]
pub struct DataConfig {
    pub huggingface_token: Option<String>,
    pub kaggle_username: Option<String>,
    pub kaggle_key: Option<String>,
    pub kaggle_api_token: Option<String>,
    pub cosmos_api_key: Option<String>,
}

/// The `[data]` table of `config.toml`.
#[derive(Debug, Clone, PartialEq, Eq, Default)]
pub struct DataToolsToml {
    pub huggingface_token: Option<String>,
    pub kaggle_username: Option<String>,
    pub kaggle_key: Option<String>,
}

/// Fills each missing credential of the dataset toolkit from the secret
/// store: the Hugging Face token under `HF_TOKEN`, else under
/// `HUGGING_FACE_HUB_TOKEN`; the others under one name each. A credential
/// the environment already gave stays.
pub fn apply_data_secret_overrides<F: Fn(&str) -> Option<String>>(config: &mut DataConfig, resolve_secret: F)
    requires
        forall|name: &str| resolve_secret.requires((name,)),
    ensures
        data_secrets_filled(*old(config), *final(config), resolve_secret),
{
    if config.huggingface_token.is_none() {
        let first = resolve_secret("HF_TOKEN");
        if first.is_some() {
            config.huggingface_token = first;
        } else {
            config.huggingface_token = resolve_secret("HUGGING_FACE_HUB_TOKEN");
        }
    }
    if config.kaggle_username.is_none() {
        config.kaggle_username = resolve_secret("KAGGLE_USERNAME");
    }
    if config.kaggle_key.is_none() {
        config.kaggle_key = resolve_secret("KAGGLE_KEY");
    }
    if config.kaggle_api_token.is_none() {
        config.kaggle_api_token = resolve_secret("KAGGLE_API_TOKEN");
    }
    if config.cosmos_api_key.is_none() {
        config.cosmos_api_key = resolve_secret("NVIDIA_API_KEY");
    }
}

/// The credentials the dataset tools run with: what the environment gave,
/// each missing one filled from the secret store, then each still missing
/// Hugging Face / Kaggle value taken from the `[data]` table.
pub fn build_data_config<F: Fn(&str) -> Option<String>>(
    toml: Option<&DataToolsToml>,
    from_env: DataConfig,
    resolve_secret: F,
) -> (r: DataConfig)
    requires
        forall|name: &str| resolve_secret.requires((name,)),
    ensures
        exists|filled: DataConfig| {
            &&& data_secrets_filled(from_env, filled, resolve_secret)
            &&& (toml is None ==> r == filled)
            &&& (toml is Some ==> {
                &&& r.huggingface_token == or_fallback(filled.huggingface_token, toml->0.huggingface_token)
                &&& r.kaggle_username == or_fallback(filled.kaggle_username, toml->0.kaggle_username)
                &&& r.kaggle_key == or_fallback(filled.kaggle_key, toml->0.kaggle_key)
                &&& r.kaggle_api_token == filled.kaggle_api_token
                &&& r.cosmos_api_key == filled.cosmos_api_key
            })
        },
{
    let mut config = from_env;
    apply_data_secret_overrides(&mut config, resolve_secret);
    let ghost filled = config;
    if let Some(t) = toml {
        fill_missing(&mut config.huggingface_token, &t.huggingface_token);
        fill_missing(&mut config.kaggle_username, &t.kaggle_username);
        fill_missing(&mut config.kaggle_key, &t.kaggle_key);
    }
    config
}

/// `after` is `before` with its missing credentials filled from the secret
/// store, as `apply_data_secret_overrides` fills them.
pub open spec fn data_secrets_filled<F: Fn(&str) -> Option<String>>(before: DataConfig, after: DataConfig, resolve_secret: F) -> bool {
    &&& (before.huggingface_token is Some ==> after.huggingface_token == before.huggingface_token)
    &&& (before.huggingface_token is None ==> exists|first: Option<String>| {
        &&& resolve_secret.ensures(("HF_TOKEN",), first)
        &&& (first is Some ==> after.huggingface_token == first)
        &&& (first is None ==> resolve_secret.ensures(("HUGGING_FACE_HUB_TOKEN",), after.huggingface_token))
    })
    &&& (before.kaggle_username is Some ==> after.kaggle_username == before.kaggle_username)
    &&& (before.kaggle_username is None ==> resolve_secret.ensures(("KAGGLE_USERNAME",), after.kaggle_username))
    &&& (before.kaggle_key is Some ==> after.kaggle_key == before.kaggle_key)
    &&& (before.kaggle_key is None ==> resolve_secret.ensures(("KAGGLE_KEY",), after.kaggle_key))
    &&& (before.kaggle_api_token is Some ==> after.kaggle_api_token == before.kaggle_api_token)
    &&& (before.kaggle_api_token is None ==> resolve_secret.ensures(("KAGGLE_API_TOKEN",), after.kaggle_api_token))
    &&& (before.cosmos_api_key is Some ==> after.cosmos_api_key == before.cosmos_api_key)
    &&& (before.cosmos_api_key is None ==> resolve_secret.ensures(("NVIDIA_API_KEY",), after.cosmos_api_key))
}

} // verus!
