//! The function-tool declarations of the research, dataset and JavaScript
//! tools: each tool's name, description and parameters.
use vstd::prelude::*;

use crate::text::string_views;
use crate::tool_specs::{param_views, FunctionToolSpec, ParamKind, ParamView, ToolParam};

verus! {

/// A function tool's declaration together with its description.
#[derive(Clone, Debug)]
pub struct DescribedTool {
    pub spec: FunctionToolSpec,
    pub description: String,
}

pub(crate) fn param(name: &str, kind: ParamKind, description: &str) -> (p: ToolParam)
    ensures
        crate::tool_specs::param_view(p) == (name@, kind, Some(description@)),
{
    ToolParam { name: String::from_str(name), kind, description: Some(String::from_str(description)) }
}

pub(crate) fn strings(items: &[&str]) -> (r: Vec<String>)
    ensures
        string_views(r@) == items@.map_values(|s: &str| s@),
{
    let mut r: Vec<String> = Vec::new();
    let mut k: usize = 0;
    while k < items.len()
        invariant
            k <= items@.len(),
            string_views(r@) == items@.take(k as int).map_values(|s: &str| s@),
        decreases items@.len() - k,
    {
        let ghost prev = r@;
        r.push(String::from_str(items[k]));
        assert(items@.take(k + 1) =~= items@.take(k as int).push(items@[k as int]));
        assert(string_views(r@) =~= string_views(prev).push(items@[k as int]@));
        assert(items@.take(k + 1).map_values(|s: &str| s@) =~= items@.take(k as int).map_values(|s: &str| s@).push(items@[k as int]@));
        k = k + 1;
    }
    assert(items@.take(items@.len() as int) =~= items@);
    r
}

/// The description of the `paper_search` tool.
pub const PAPER_SEARCH_DESCRIPTION: &'static str = "Search academic literature (Semantic Scholar, arXiv, OpenAlex) for papers matching a query. Returns matches with title, authors, year, venue, citation count, ids (DOI, arXiv, S2), and optionally abstract. No PDFs are downloaded.";

/// The parameters of the `paper_search` tool, in key order.
pub open spec fn paper_search_params_spec() -> Seq<ParamView> {
    seq![
        ("include_abstract"@, ParamKind::Boolean, Some("Optional. Include abstracts when true."@)),
        ("limit"@, ParamKind::Integer, Some("Optional. Max results. Defaults to a small list."@)),
        ("query"@, ParamKind::String, Some("Required. Free-text search query for academic papers."@)),
        ("year_from"@, ParamKind::Integer, Some("Optional. Earliest publication year (inclusive)."@)),
        ("year_to"@, ParamKind::Integer, Some("Optional. Latest publication year (inclusive)."@)),
    ]
}

/// The `paper_search` tool's declaration: its description, its parameters in key
/// order, the required ones, and whether other keys are accepted.
pub fn create_paper_search_tool() -> (t: DescribedTool)
    ensures
        t.spec.name@ == "paper_search"@,
        t.description@ == PAPER_SEARCH_DESCRIPTION@,
        param_views(t.spec.params@) == paper_search_params_spec(),
        string_views(t.spec.required@) == seq!["query"@],
        t.spec.additional_properties,
        !t.spec.strict,
{
    let mut params: Vec<ToolParam> = Vec::new();
    params.push(param("include_abstract", ParamKind::Boolean, "Optional. Include abstracts when true."));
    params.push(param("limit", ParamKind::Integer, "Optional. Max results. Defaults to a small list."));
    params.push(param("query", ParamKind::String, "Required. Free-text search query for academic papers."));
    params.push(param("year_from", ParamKind::Integer, "Optional. Earliest publication year (inclusive)."));
    params.push(param("year_to", ParamKind::Integer, "Optional. Latest publication year (inclusive)."));
    assert(param_views(params@) =~= paper_search_params_spec());
    let required = strings(&["query"]);
    assert(string_views(required@) =~= seq!["query"@]);
    DescribedTool {
        spec: FunctionToolSpec {
            name: String::from_str("paper_search"),
            params,
            required,
            additional_properties: true,
            strict: false,
        },
        description: String::from_str(PAPER_SEARCH_DESCRIPTION),
    }
}

/// The description of the `paper_get` tool.
pub const PAPER_GET_DESCRIPTION: &'static str = "Get detailed paper information by DOI, arXiv ID, or Semantic Scholar ID. Use after paper_search to fetch full metadata + abstract.";

/// The parameters of the `paper_get` tool, in key order.
pub open spec fn paper_get_params_spec() -> Seq<ParamView> {
    seq![
        ("paper_id"@, ParamKind::String, Some("DOI, arXiv id, or Semantic Scholar id."@)),
    ]
}

/// The `paper_get` tool's declaration: its description, its parameters in key
/// order, the required ones, and whether other keys are accepted.
pub fn create_paper_get_tool() -> (t: DescribedTool)
    ensures
        t.spec.name@ == "paper_get"@,
        t.description@ == PAPER_GET_DESCRIPTION@,
        param_views(t.spec.params@) == paper_get_params_spec(),
        string_views(t.spec.required@) == seq!["paper_id"@],
        t.spec.additional_properties,
        !t.spec.strict,
{
    let mut params: Vec<ToolParam> = Vec::new();
    params.push(param("paper_id", ParamKind::String, "DOI, arXiv id, or Semantic Scholar id."));
    assert(param_views(params@) =~= paper_get_params_spec());
    let required = strings(&["paper_id"]);
    assert(string_views(required@) =~= seq!["paper_id"@]);
    DescribedTool {
        spec: FunctionToolSpec {
            name: String::from_str("paper_get"),
            params,
            required,
            additional_properties: true,
            strict: false,
        },
        description: String::from_str(PAPER_GET_DESCRIPTION),
    }
}

/// The description of the `paper_citations` tool.
pub const PAPER_CITATIONS_DESCRIPTION: &'static str = "List papers that cite a given paper. Paginated; pass offset+limit to walk the list.";

/// The parameters of the `paper_citations` tool, in key order.
pub open spec fn paper_citations_params_spec() -> Seq<ParamView> {
    seq![
        ("fields"@, ParamKind::StringArray, Some("Optional. Subset of fields to return."@)),
        ("limit"@, ParamKind::Integer, Some("Optional. Page size."@)),
        ("offset"@, ParamKind::Integer, Some("Optional. Pagination offset."@)),
        ("paper_id"@, ParamKind::String, Some("DOI, arXiv id, or Semantic Scholar id."@)),
    ]
}

/// The `paper_citations` tool's declaration: its description, its parameters in key
/// order, the required ones, and whether other keys are accepted.
pub fn create_paper_citations_tool() -> (t: DescribedTool)
    ensures
        t.spec.name@ == "paper_citations"@,
        t.description@ == PAPER_CITATIONS_DESCRIPTION@,
        param_views(t.spec.params@) == paper_citations_params_spec(),
        string_views(t.spec.required@) == seq!["paper_id"@],
        t.spec.additional_properties,
        !t.spec.strict,
{
    let mut params: Vec<ToolParam> = Vec::new();
    params.push(param("fields", ParamKind::StringArray, "Optional. Subset of fields to return."));
    params.push(param("limit", ParamKind::Integer, "Optional. Page size."));
    params.push(param("offset", ParamKind::Integer, "Optional. Pagination offset."));
    params.push(param("paper_id", ParamKind::String, "DOI, arXiv id, or Semantic Scholar id."));
    assert(param_views(params@) =~= paper_citations_params_spec());
    let required = strings(&["paper_id"]);
    assert(string_views(required@) =~= seq!["paper_id"@]);
    DescribedTool {
        spec: FunctionToolSpec {
            name: String::from_str("paper_citations"),
            params,
            required,
            additional_properties: true,
            strict: false,
        },
        description: String::from_str(PAPER_CITATIONS_DESCRIPTION),
    }
}

/// The description of the `paper_references` tool.
pub const PAPER_REFERENCES_DESCRIPTION: &'static str = "List papers cited BY a given paper (its bibliography). Paginated.";

/// The parameters of the `paper_references` tool, in key order.
pub open spec fn paper_references_params_spec() -> Seq<ParamView> {
    seq![
        ("fields"@, ParamKind::StringArray, Some("Optional. Subset of fields to return."@)),
        ("limit"@, ParamKind::Integer, Some("Optional. Page size."@)),
        ("offset"@, ParamKind::Integer, Some("Optional. Pagination offset."@)),
        ("paper_id"@, ParamKind::String, Some("DOI, arXiv id, or Semantic Scholar id."@)),
    ]
}

/// The `paper_references` tool's declaration: its description, its parameters in key
/// order, the required ones, and whether other keys are accepted.
pub fn create_paper_references_tool() -> (t: DescribedTool)
    ensures
        t.spec.name@ == "paper_references"@,
        t.description@ == PAPER_REFERENCES_DESCRIPTION@,
        param_views(t.spec.params@) == paper_references_params_spec(),
        string_views(t.spec.required@) == seq!["paper_id"@],
        t.spec.additional_properties,
        !t.spec.strict,
{
    let mut params: Vec<ToolParam> = Vec::new();
    params.push(param("fields", ParamKind::StringArray, "Optional. Subset of fields to return."));
    params.push(param("limit", ParamKind::Integer, "Optional. Page size."));
    params.push(param("offset", ParamKind::Integer, "Optional. Pagination offset."));
    params.push(param("paper_id", ParamKind::String, "DOI, arXiv id, or Semantic Scholar id."));
    assert(param_views(params@) =~= paper_references_params_spec());
    let required = strings(&["paper_id"]);
    assert(string_views(required@) =~= seq!["paper_id"@]);
    DescribedTool {
        spec: FunctionToolSpec {
            name: String::from_str("paper_references"),
            params,
            required,
            additional_properties: true,
            strict: false,
        },
        description: String::from_str(PAPER_REFERENCES_DESCRIPTION),
    }
}

/// The description of the `paper_recommendations` tool.
pub const PAPER_RECOMMENDATIONS_DESCRIPTION: &'static str = "Recommend papers similar to a positive set (and optionally dissimilar to a negative set). Backed by Semantic Scholar's recommendations API.";

/// The parameters of the `paper_recommendations` tool, in key order.
pub open spec fn paper_recommendations_params_spec() -> Seq<ParamView> {
    seq![
        ("limit"@, ParamKind::Integer, Some("Optional. Max recommendations."@)),
        ("negative_paper_ids"@, ParamKind::StringArray, Some("Optional. Paper ids to push the recs away from."@)),
        ("positive_paper_ids"@, ParamKind::StringArray, Some("Required. Paper ids to seed the recommendation."@)),
    ]
}

/// The `paper_recommendations` tool's declaration: its description, its parameters in key
/// order, the required ones, and whether other keys are accepted.
pub fn create_paper_recommendations_tool() -> (t: DescribedTool)
    ensures
        t.spec.name@ == "paper_recommendations"@,
        t.description@ == PAPER_RECOMMENDATIONS_DESCRIPTION@,
        param_views(t.spec.params@) == paper_recommendations_params_spec(),
        string_views(t.spec.required@) == seq!["positive_paper_ids"@],
        t.spec.additional_properties,
        !t.spec.strict,
{
    let mut params: Vec<ToolParam> = Vec::new();
    params.push(param("limit", ParamKind::Integer, "Optional. Max recommendations."));
    params.push(param("negative_paper_ids", ParamKind::StringArray, "Optional. Paper ids to push the recs away from."));
    params.push(param("positive_paper_ids", ParamKind::StringArray, "Required. Paper ids to seed the recommendation."));
    assert(param_views(params@) =~= paper_recommendations_params_spec());
    let required = strings(&["positive_paper_ids"]);
    assert(string_views(required@) =~= seq!["positive_paper_ids"@]);
    DescribedTool {
        spec: FunctionToolSpec {
            name: String::from_str("paper_recommendations"),
            params,
            required,
            additional_properties: true,
            strict: false,
        },
        description: String::from_str(PAPER_RECOMMENDATIONS_DESCRIPTION),
    }
}

/// The description of the `hn_search` tool.
pub const HN_SEARCH_DESCRIPTION: &'static str = "Search Hacker News stories and comments via the Algolia HN API. Returns hits with title, url, author, points, num_comments, created_at, and story_id.";

/// The parameters of the `hn_search` tool, in key order.
pub open spec fn hn_search_params_spec() -> Seq<ParamView> {
    seq![
        ("limit"@, ParamKind::Integer, Some("Optional. Max hits."@)),
        ("query"@, ParamKind::String, Some("Free-text search query."@)),
        ("tags"@, ParamKind::String, Some("Optional. Algolia HN tag filter, e.g. `story`, `comment`, `(story,front_page)`."@)),
    ]
}

/// The `hn_search` tool's declaration: its description, its parameters in key
/// order, the required ones, and whether other keys are accepted.
pub fn create_hn_search_tool() -> (t: DescribedTool)
    ensures
        t.spec.name@ == "hn_search"@,
        t.description@ == HN_SEARCH_DESCRIPTION@,
        param_views(t.spec.params@) == hn_search_params_spec(),
        string_views(t.spec.required@) == seq!["query"@],
        t.spec.additional_properties,
        !t.spec.strict,
{
    let mut params: Vec<ToolParam> = Vec::new();
    params.push(param("limit", ParamKind::Integer, "Optional. Max hits."));
    params.push(param("query", ParamKind::String, "Free-text search query."));
    params.push(param("tags", ParamKind::String, "Optional. Algolia HN tag filter, e.g. `story`, `comment`, `(story,front_page)`."));
    assert(param_views(params@) =~= hn_search_params_spec());
    let required = strings(&["query"]);
    assert(string_views(required@) =~= seq!["query"@]);
    DescribedTool {
        spec: FunctionToolSpec {
            name: String::from_str("hn_search"),
            params,
            required,
            additional_properties: true,
            strict: false,
        },
        description: String::from_str(HN_SEARCH_DESCRIPTION),
    }
}

/// The description of the `hn_get_thread` tool.
pub const HN_GET_THREAD_DESCRIPTION: &'static str = "Fetch a full Hacker News discussion thread (story + its descendant comments) by story id, returned as nested JSON.";

/// The parameters of the `hn_get_thread` tool, in key order.
pub open spec fn hn_get_thread_params_spec() -> Seq<ParamView> {
    seq![
        ("max_depth"@, ParamKind::Integer, Some("Optional. Limit comment-tree depth."@)),
        ("story_id"@, ParamKind::String, Some("HN story id (the numeric id from `hn_search` results)."@)),
    ]
}

/// The `hn_get_thread` tool's declaration: its description, its parameters in key
/// order, the required ones, and whether other keys are accepted.
pub fn create_hn_get_thread_tool() -> (t: DescribedTool)
    ensures
        t.spec.name@ == "hn_get_thread"@,
        t.description@ == HN_GET_THREAD_DESCRIPTION@,
        param_views(t.spec.params@) == hn_get_thread_params_spec(),
        string_views(t.spec.required@) == seq!["story_id"@],
        t.spec.additional_properties,
        !t.spec.strict,
{
    let mut params: Vec<ToolParam> = Vec::new();
    params.push(param("max_depth", ParamKind::Integer, "Optional. Limit comment-tree depth."));
    params.push(param("story_id", ParamKind::String, "HN story id (the numeric id from `hn_search` results)."));
    assert(param_views(params@) =~= hn_get_thread_params_spec());
    let required = strings(&["story_id"]);
    assert(string_views(required@) =~= seq!["story_id"@]);
    DescribedTool {
        spec: FunctionToolSpec {
            name: String::from_str("hn_get_thread"),
            params,
            required,
            additional_properties: true,
            strict: false,
        },
        description: String::from_str(HN_GET_THREAD_DESCRIPTION),
    }
}

/// The description of the `patent_search` tool.
pub const PATENT_SEARCH_DESCRIPTION: &'static str = "Search worldwide patents via the EPO Open Patent Services API. Requires EPO_CONSUMER_KEY + EPO_CONSUMER_SECRET (or the [research] toml equivalents). Returns publication ids, titles, dates, applicants.";

/// The parameters of the `patent_search` tool, in key order.
pub open spec fn patent_search_params_spec() -> Seq<ParamView> {
    seq![
        ("limit"@, ParamKind::Integer, Some("Optional. Max results."@)),
        ("offset"@, ParamKind::Integer, Some("Optional. Pagination offset."@)),
        ("query"@, ParamKind::String, Some("Free-text search query."@)),
    ]
}

/// The `patent_search` tool's declaration: its description, its parameters in key
/// order, the required ones, and whether other keys are accepted.
pub fn create_patent_search_tool() -> (t: DescribedTool)
    ensures
        t.spec.name@ == "patent_search"@,
        t.description@ == PATENT_SEARCH_DESCRIPTION@,
        param_views(t.spec.params@) == patent_search_params_spec(),
        string_views(t.spec.required@) == seq!["query"@],
        t.spec.additional_properties,
        !t.spec.strict,
{
    let mut params: Vec<ToolParam> = Vec::new();
    params.push(param("limit", ParamKind::Integer, "Optional. Max results."));
    params.push(param("offset", ParamKind::Integer, "Optional. Pagination offset."));
    params.push(param("query", ParamKind::String, "Free-text search query."));
    assert(param_views(params@) =~= patent_search_params_spec());
    let required = strings(&["query"]);
    assert(string_views(required@) =~= seq!["query"@]);
    DescribedTool {
        spec: FunctionToolSpec {
            name: String::from_str("patent_search"),
            params,
            required,
            additional_properties: true,
            strict: false,
        },
        description: String::from_str(PATENT_SEARCH_DESCRIPTION),
    }
}

/// The description of the `patent_get` tool.
pub const PATENT_GET_DESCRIPTION: &'static str = "Fetch a single patent's full bibliographic + abstract record by publication id. EPO credentials required.";

/// The parameters of the `patent_get` tool, in key order.
pub open spec fn patent_get_params_spec() -> Seq<ParamView> {
    seq![
        ("publication_id"@, ParamKind::String, Some("EPO publication id (e.g. `EP1234567`)."@)),
    ]
}

/// The `patent_get` tool's declaration: its description, its parameters in key
/// order, the required ones, and whether other keys are accepted.
pub fn create_patent_get_tool() -> (t: DescribedTool)
    ensures
        t.spec.name@ == "patent_get"@,
        t.description@ == PATENT_GET_DESCRIPTION@,
        param_views(t.spec.params@) == patent_get_params_spec(),
        string_views(t.spec.required@) == seq!["publication_id"@],
        t.spec.additional_properties,
        !t.spec.strict,
{
    let mut params: Vec<ToolParam> = Vec::new();
    params.push(param("publication_id", ParamKind::String, "EPO publication id (e.g. `EP1234567`)."));
    assert(param_views(params@) =~= patent_get_params_spec());
    let required = strings(&["publication_id"]);
    assert(string_views(required@) =~= seq!["publication_id"@]);
    DescribedTool {
        spec: FunctionToolSpec {
            name: String::from_str("patent_get"),
            params,
            required,
            additional_properties: true,
            strict: false,
        },
        description: String::from_str(PATENT_GET_DESCRIPTION),
    }
}

/// The description of the `zotero_search` tool.
pub const ZOTERO_SEARCH_DESCRIPTION: &'static str = "Search the user's Zotero library by free-text query. Requires ZOTERO_API_KEY + ZOTERO_USER_ID (or [research] toml).";

/// The parameters of the `zotero_search` tool, in key order.
pub open spec fn zotero_search_params_spec() -> Seq<ParamView> {
    seq![
        ("limit"@, ParamKind::Integer, Some("Optional. Max hits."@)),
        ("query"@, ParamKind::String, Some("Free-text search query."@)),
    ]
}

/// The `zotero_search` tool's declaration: its description, its parameters in key
/// order, the required ones, and whether other keys are accepted.
pub fn create_zotero_search_tool() -> (t: DescribedTool)
    ensures
        t.spec.name@ == "zotero_search"@,
        t.description@ == ZOTERO_SEARCH_DESCRIPTION@,
        param_views(t.spec.params@) == zotero_search_params_spec(),
        string_views(t.spec.required@) == seq!["query"@],
        t.spec.additional_properties,
        !t.spec.strict,
{
    let mut params: Vec<ToolParam> = Vec::new();
    params.push(param("limit", ParamKind::Integer, "Optional. Max hits."));
    params.push(param("query", ParamKind::String, "Free-text search query."));
    assert(param_views(params@) =~= zotero_search_params_spec());
    let required = strings(&["query"]);
    assert(string_views(required@) =~= seq!["query"@]);
    DescribedTool {
        spec: FunctionToolSpec {
            name: String::from_str("zotero_search"),
            params,
            required,
            additional_properties: true,
            strict: false,
        },
        description: String::from_str(ZOTERO_SEARCH_DESCRIPTION),
    }
}

/// The description of the `zotero_get_tags` tool.
pub const ZOTERO_GET_TAGS_DESCRIPTION: &'static str = "List tags across the user's Zotero library.";

/// The parameters of the `zotero_get_tags` tool, in key order.
pub open spec fn zotero_get_tags_params_spec() -> Seq<ParamView> {
    seq![
        ("limit"@, ParamKind::Integer, Some("Optional. Max tags."@)),
    ]
}

/// The `zotero_get_tags` tool's declaration: its description, its parameters in key
/// order, the required ones, and whether other keys are accepted.
pub fn create_zotero_get_tags_tool() -> (t: DescribedTool)
    ensures
        t.spec.name@ == "zotero_get_tags"@,
        t.description@ == ZOTERO_GET_TAGS_DESCRIPTION@,
        param_views(t.spec.params@) == zotero_get_tags_params_spec(),
        string_views(t.spec.required@) == Seq::<Seq<char>>::empty(),
        t.spec.additional_properties,
        !t.spec.strict,
{
    let mut params: Vec<ToolParam> = Vec::new();
    params.push(param("limit", ParamKind::Integer, "Optional. Max tags."));
    assert(param_views(params@) =~= zotero_get_tags_params_spec());
    let required = strings(&[]);
    assert(string_views(required@) =~= Seq::<Seq<char>>::empty());
    DescribedTool {
        spec: FunctionToolSpec {
            name: String::from_str("zotero_get_tags"),
            params,
            required,
            additional_properties: true,
            strict: false,
        },
        description: String::from_str(ZOTERO_GET_TAGS_DESCRIPTION),
    }
}

/// The description of the `zotero_get_recent` tool.
pub const ZOTERO_GET_RECENT_DESCRIPTION: &'static str = "List the user's recently added Zotero items, newest first.";

/// The parameters of the `zotero_get_recent` tool, in key order.
pub open spec fn zotero_get_recent_params_spec() -> Seq<ParamView> {
    seq![
        ("limit"@, ParamKind::Integer, Some("Optional. Max items."@)),
    ]
}

/// The `zotero_get_recent` tool's declaration: its description, its parameters in key
/// order, the required ones, and whether other keys are accepted.
pub fn create_zotero_get_recent_tool() -> (t: DescribedTool)
    ensures
        t.spec.name@ == "zotero_get_recent"@,
        t.description@ == ZOTERO_GET_RECENT_DESCRIPTION@,
        param_views(t.spec.params@) == zotero_get_recent_params_spec(),
        string_views(t.spec.required@) == Seq::<Seq<char>>::empty(),
        t.spec.additional_properties,
        !t.spec.strict,
{
    let mut params: Vec<ToolParam> = Vec::new();
    params.push(param("limit", ParamKind::Integer, "Optional. Max items."));
    assert(param_views(params@) =~= zotero_get_recent_params_spec());
    let required = strings(&[]);
    assert(string_views(required@) =~= Seq::<Seq<char>>::empty());
    DescribedTool {
        spec: FunctionToolSpec {
            name: String::from_str("zotero_get_recent"),
            params,
            required,
            additional_properties: true,
            strict: false,
        },
        description: String::from_str(ZOTERO_GET_RECENT_DESCRIPTION),
    }
}

/// The description of the `zotero_advanced_search` tool.
pub const ZOTERO_ADVANCED_SEARCH_DESCRIPTION: &'static str = "Advanced Zotero search with structured filters (year range, item type, tags, authors).";

/// The parameters of the `zotero_advanced_search` tool, in key order.
pub open spec fn zotero_advanced_search_params_spec() -> Seq<ParamView> {
    seq![
        ("item_type"@, ParamKind::String, Some("Optional. e.g. `journalArticle`, `book`."@)),
        ("limit"@, ParamKind::Integer, Some("Optional."@)),
        ("query"@, ParamKind::String, Some("Optional. Free-text query."@)),
        ("tags"@, ParamKind::StringArray, Some("Optional. Filter by tags."@)),
        ("year_from"@, ParamKind::Integer, Some("Optional."@)),
        ("year_to"@, ParamKind::Integer, Some("Optional."@)),
    ]
}

/// The `zotero_advanced_search` tool's declaration: its description, its parameters in key
/// order, the required ones, and whether other keys are accepted.
pub fn create_zotero_advanced_search_tool() -> (t: DescribedTool)
    ensures
        t.spec.name@ == "zotero_advanced_search"@,
        t.description@ == ZOTERO_ADVANCED_SEARCH_DESCRIPTION@,
        param_views(t.spec.params@) == zotero_advanced_search_params_spec(),
        string_views(t.spec.required@) == Seq::<Seq<char>>::empty(),
        t.spec.additional_properties,
        !t.spec.strict,
{
    let mut params: Vec<ToolParam> = Vec::new();
    params.push(param("item_type", ParamKind::String, "Optional. e.g. `journalArticle`, `book`."));
    params.push(param("limit", ParamKind::Integer, "Optional."));
    params.push(param("query", ParamKind::String, "Optional. Free-text query."));
    params.push(param("tags", ParamKind::StringArray, "Optional. Filter by tags."));
    params.push(param("year_from", ParamKind::Integer, "Optional."));
    params.push(param("year_to", ParamKind::Integer, "Optional."));
    assert(param_views(params@) =~= zotero_advanced_search_params_spec());
    let required = strings(&[]);
    assert(string_views(required@) =~= Seq::<Seq<char>>::empty());
    DescribedTool {
        spec: FunctionToolSpec {
            name: String::from_str("zotero_advanced_search"),
            params,
            required,
            additional_properties: true,
            strict: false,
        },
        description: String::from_str(ZOTERO_ADVANCED_SEARCH_DESCRIPTION),
    }
}

/// The description of the `zotero_grep_text` tool.
pub const ZOTERO_GREP_TEXT_DESCRIPTION: &'static str = "Grep across the full-text content of the user's Zotero attachments. Use when you need to find a phrase across multiple PDFs.";

/// The parameters of the `zotero_grep_text` tool, in key order.
pub open spec fn zotero_grep_text_params_spec() -> Seq<ParamView> {
    seq![
        ("limit"@, ParamKind::Integer, Some("Optional. Max matches."@)),
        ("pattern"@, ParamKind::String, Some("Required. Regex or literal phrase."@)),
    ]
}

/// The `zotero_grep_text` tool's declaration: its description, its parameters in key
/// order, the required ones, and whether other keys are accepted.
pub fn create_zotero_grep_text_tool() -> (t: DescribedTool)
    ensures
        t.spec.name@ == "zotero_grep_text"@,
        t.description@ == ZOTERO_GREP_TEXT_DESCRIPTION@,
        param_views(t.spec.params@) == zotero_grep_text_params_spec(),
        string_views(t.spec.required@) == seq!["pattern"@],
        t.spec.additional_properties,
        !t.spec.strict,
{
    let mut params: Vec<ToolParam> = Vec::new();
    params.push(param("limit", ParamKind::Integer, "Optional. Max matches."));
    params.push(param("pattern", ParamKind::String, "Required. Regex or literal phrase."));
    assert(param_views(params@) =~= zotero_grep_text_params_spec());
    let required = strings(&["pattern"]);
    assert(string_views(required@) =~= seq!["pattern"@]);
    DescribedTool {
        spec: FunctionToolSpec {
            name: String::from_str("zotero_grep_text"),
            params,
            required,
            additional_properties: true,
            strict: false,
        },
        description: String::from_str(ZOTERO_GREP_TEXT_DESCRIPTION),
    }
}

/// The description of the `zotero_search_notes` tool.
pub const ZOTERO_SEARCH_NOTES_DESCRIPTION: &'static str = "Search Zotero notes (free-form text notes attached to items) by query.";

/// The parameters of the `zotero_search_notes` tool, in key order.
pub open spec fn zotero_search_notes_params_spec() -> Seq<ParamView> {
    seq![
        ("limit"@, ParamKind::Integer, Some("Optional."@)),
        ("query"@, ParamKind::String, Some("Required. Free-text query."@)),
    ]
}

/// The `zotero_search_notes` tool's declaration: its description, its parameters in key
/// order, the required ones, and whether other keys are accepted.
pub fn create_zotero_search_notes_tool() -> (t: DescribedTool)
    ensures
        t.spec.name@ == "zotero_search_notes"@,
        t.description@ == ZOTERO_SEARCH_NOTES_DESCRIPTION@,
        param_views(t.spec.params@) == zotero_search_notes_params_spec(),
        string_views(t.spec.required@) == seq!["query"@],
        t.spec.additional_properties,
        !t.spec.strict,
{
    let mut params: Vec<ToolParam> = Vec::new();
    params.push(param("limit", ParamKind::Integer, "Optional."));
    params.push(param("query", ParamKind::String, "Required. Free-text query."));
    assert(param_views(params@) =~= zotero_search_notes_params_spec());
    let required = strings(&["query"]);
    assert(string_views(required@) =~= seq!["query"@]);
    DescribedTool {
        spec: FunctionToolSpec {
            name: String::from_str("zotero_search_notes"),
            params,
            required,
            additional_properties: true,
            strict: false,
        },
        description: String::from_str(ZOTERO_SEARCH_NOTES_DESCRIPTION),
    }
}

/// The description of the `zotero_get_item` tool.
pub const ZOTERO_GET_ITEM_DESCRIPTION: &'static str = "Fetch a single Zotero item's full metadata by item key.";

/// The parameters of the `zotero_get_item` tool, in key order.
pub open spec fn zotero_get_item_params_spec() -> Seq<ParamView> {
    seq![
        ("item_key"@, ParamKind::String, Some("Required. Zotero item key (8-char identifier)."@)),
    ]
}

/// The `zotero_get_item` tool's declaration: its description, its parameters in key
/// order, the required ones, and whether other keys are accepted.
pub fn create_zotero_get_item_tool() -> (t: DescribedTool)
    ensures
        t.spec.name@ == "zotero_get_item"@,
        t.description@ == ZOTERO_GET_ITEM_DESCRIPTION@,
        param_views(t.spec.params@) == zotero_get_item_params_spec(),
        string_views(t.spec.required@) == seq!["item_key"@],
        t.spec.additional_properties,
        !t.spec.strict,
{
    let mut params: Vec<ToolParam> = Vec::new();
    params.push(param("item_key", ParamKind::String, "Required. Zotero item key (8-char identifier)."));
    assert(param_views(params@) =~= zotero_get_item_params_spec());
    let required = strings(&["item_key"]);
    assert(string_views(required@) =~= seq!["item_key"@]);
    DescribedTool {
        spec: FunctionToolSpec {
            name: String::from_str("zotero_get_item"),
            params,
            required,
            additional_properties: true,
            strict: false,
        },
        description: String::from_str(ZOTERO_GET_ITEM_DESCRIPTION),
    }
}

/// The description of the `zotero_get_item_citation` tool.
pub const ZOTERO_GET_ITEM_CITATION_DESCRIPTION: &'static str = "Render a Zotero item as a formatted citation in a given style (e.g. APA, MLA).";

/// The parameters of the `zotero_get_item_citation` tool, in key order.
pub open spec fn zotero_get_item_citation_params_spec() -> Seq<ParamView> {
    seq![
        ("item_key"@, ParamKind::String, Some("Required. Zotero item key."@)),
        ("style"@, ParamKind::String, Some("Optional. Citation style (default: `chicago-author-date`)."@)),
    ]
}

/// The `zotero_get_item_citation` tool's declaration: its description, its parameters in key
/// order, the required ones, and whether other keys are accepted.
pub fn create_zotero_get_item_citation_tool() -> (t: DescribedTool)
    ensures
        t.spec.name@ == "zotero_get_item_citation"@,
        t.description@ == ZOTERO_GET_ITEM_CITATION_DESCRIPTION@,
        param_views(t.spec.params@) == zotero_get_item_citation_params_spec(),
        string_views(t.spec.required@) == seq!["item_key"@],
        t.spec.additional_properties,
        !t.spec.strict,
{
    let mut params: Vec<ToolParam> = Vec::new();
    params.push(param("item_key", ParamKind::String, "Required. Zotero item key."));
    params.push(param("style", ParamKind::String, "Optional. Citation style (default: `chicago-author-date`)."));
    assert(param_views(params@) =~= zotero_get_item_citation_params_spec());
    let required = strings(&["item_key"]);
    assert(string_views(required@) =~= seq!["item_key"@]);
    DescribedTool {
        spec: FunctionToolSpec {
            name: String::from_str("zotero_get_item_citation"),
            params,
            required,
            additional_properties: true,
            strict: false,
        },
        description: String::from_str(ZOTERO_GET_ITEM_CITATION_DESCRIPTION),
    }
}

/// The description of the `zotero_get_fulltext` tool.
pub const ZOTERO_GET_FULLTEXT_DESCRIPTION: &'static str = "Fetch the extracted full text of a Zotero item's attachment (PDF text body).";

/// The parameters of the `zotero_get_fulltext` tool, in key order.
pub open spec fn zotero_get_fulltext_params_spec() -> Seq<ParamView> {
    seq![
        ("item_key"@, ParamKind::String, Some("Required. Zotero item key."@)),
    ]
}

/// The `zotero_get_fulltext` tool's declaration: its description, its parameters in key
/// order, the required ones, and whether other keys are accepted.
pub fn create_zotero_get_fulltext_tool() -> (t: DescribedTool)
    ensures
        t.spec.name@ == "zotero_get_fulltext"@,
        t.description@ == ZOTERO_GET_FULLTEXT_DESCRIPTION@,
        param_views(t.spec.params@) == zotero_get_fulltext_params_spec(),
        string_views(t.spec.required@) == seq!["item_key"@],
        t.spec.additional_properties,
        !t.spec.strict,
{
    let mut params: Vec<ToolParam> = Vec::new();
    params.push(param("item_key", ParamKind::String, "Required. Zotero item key."));
    assert(param_views(params@) =~= zotero_get_fulltext_params_spec());
    let required = strings(&["item_key"]);
    assert(string_views(required@) =~= seq!["item_key"@]);
    DescribedTool {
        spec: FunctionToolSpec {
            name: String::from_str("zotero_get_fulltext"),
            params,
            required,
            additional_properties: true,
            strict: false,
        },
        description: String::from_str(ZOTERO_GET_FULLTEXT_DESCRIPTION),
    }
}

/// The description of the `zotero_get_notes` tool.
pub const ZOTERO_GET_NOTES_DESCRIPTION: &'static str = "Fetch the notes attached to a single Zotero item.";

/// The parameters of the `zotero_get_notes` tool, in key order.
pub open spec fn zotero_get_notes_params_spec() -> Seq<ParamView> {
    seq![
        ("item_key"@, ParamKind::String, Some("Required. Zotero item key."@)),
    ]
}

/// The `zotero_get_notes` tool's declaration: its description, its parameters in key
/// order, the required ones, and whether other keys are accepted.
pub fn create_zotero_get_notes_tool() -> (t: DescribedTool)
    ensures
        t.spec.name@ == "zotero_get_notes"@,
        t.description@ == ZOTERO_GET_NOTES_DESCRIPTION@,
        param_views(t.spec.params@) == zotero_get_notes_params_spec(),
        string_views(t.spec.required@) == seq!["item_key"@],
        t.spec.additional_properties,
        !t.spec.strict,
{
    let mut params: Vec<ToolParam> = Vec::new();
    params.push(param("item_key", ParamKind::String, "Required. Zotero item key."));
    assert(param_views(params@) =~= zotero_get_notes_params_spec());
    let required = strings(&["item_key"]);
    assert(string_views(required@) =~= seq!["item_key"@]);
    DescribedTool {
        spec: FunctionToolSpec {
            name: String::from_str("zotero_get_notes"),
            params,
            required,
            additional_properties: true,
            strict: false,
        },
        description: String::from_str(ZOTERO_GET_NOTES_DESCRIPTION),
    }
}

/// The description of the `zotero_get_annotations` tool.
pub const ZOTERO_GET_ANNOTATIONS_DESCRIPTION: &'static str = "Fetch reader annotations (highlights, sticky notes) attached to a Zotero item.";

/// The parameters of the `zotero_get_annotations` tool, in key order.
pub open spec fn zotero_get_annotations_params_spec() -> Seq<ParamView> {
    seq![
        ("item_key"@, ParamKind::String, Some("Required. Zotero item key."@)),
        ("limit"@, ParamKind::Integer, Some("Optional."@)),
    ]
}

/// The `zotero_get_annotations` tool's declaration: its description, its parameters in key
/// order, the required ones, and whether other keys are accepted.
pub fn create_zotero_get_annotations_tool() -> (t: DescribedTool)
    ensures
        t.spec.name@ == "zotero_get_annotations"@,
        t.description@ == ZOTERO_GET_ANNOTATIONS_DESCRIPTION@,
        param_views(t.spec.params@) == zotero_get_annotations_params_spec(),
        string_views(t.spec.required@) == seq!["item_key"@],
        t.spec.additional_properties,
        !t.spec.strict,
{
    let mut params: Vec<ToolParam> = Vec::new();
    params.push(param("item_key", ParamKind::String, "Required. Zotero item key."));
    params.push(param("limit", ParamKind::Integer, "Optional."));
    assert(param_views(params@) =~= zotero_get_annotations_params_spec());
    let required = strings(&["item_key"]);
    assert(string_views(required@) =~= seq!["item_key"@]);
    DescribedTool {
        spec: FunctionToolSpec {
            name: String::from_str("zotero_get_annotations"),
            params,
            required,
            additional_properties: true,
            strict: false,
        },
        description: String::from_str(ZOTERO_GET_ANNOTATIONS_DESCRIPTION),
    }
}

/// The description of the `zotero_get_attachments` tool.
pub const ZOTERO_GET_ATTACHMENTS_DESCRIPTION: &'static str = "List the attachments (PDFs, snapshots, etc.) belonging to a Zotero item.";

/// The parameters of the `zotero_get_attachments` tool, in key order.
pub open spec fn zotero_get_attachments_params_spec() -> Seq<ParamView> {
    seq![
        ("item_key"@, ParamKind::String, Some("Required. Zotero item key."@)),
    ]
}

/// The `zotero_get_attachments` tool's declaration: its description, its parameters in key
/// order, the required ones, and whether other keys are accepted.
pub fn create_zotero_get_attachments_tool() -> (t: DescribedTool)
    ensures
        t.spec.name@ == "zotero_get_attachments"@,
        t.description@ == ZOTERO_GET_ATTACHMENTS_DESCRIPTION@,
        param_views(t.spec.params@) == zotero_get_attachments_params_spec(),
        string_views(t.spec.required@) == seq!["item_key"@],
        t.spec.additional_properties,
        !t.spec.strict,
{
    let mut params: Vec<ToolParam> = Vec::new();
    params.push(param("item_key", ParamKind::String, "Required. Zotero item key."));
    assert(param_views(params@) =~= zotero_get_attachments_params_spec());
    let required = strings(&["item_key"]);
    assert(string_views(required@) =~= seq!["item_key"@]);
    DescribedTool {
        spec: FunctionToolSpec {
            name: String::from_str("zotero_get_attachments"),
            params,
            required,
            additional_properties: true,
            strict: false,
        },
        description: String::from_str(ZOTERO_GET_ATTACHMENTS_DESCRIPTION),
    }
}

/// The description of the `zotero_get_collections` tool.
pub const ZOTERO_GET_COLLECTIONS_DESCRIPTION: &'static str = "List collections (folders) in the user's Zotero library.";

/// The parameters of the `zotero_get_collections` tool, in key order.
pub open spec fn zotero_get_collections_params_spec() -> Seq<ParamView> {
    seq![
        ("limit"@, ParamKind::Integer, Some("Optional."@)),
    ]
}

/// The `zotero_get_collections` tool's declaration: its description, its parameters in key
/// order, the required ones, and whether other keys are accepted.
pub fn create_zotero_get_collections_tool() -> (t: DescribedTool)
    ensures
        t.spec.name@ == "zotero_get_collections"@,
        t.description@ == ZOTERO_GET_COLLECTIONS_DESCRIPTION@,
        param_views(t.spec.params@) == zotero_get_collections_params_spec(),
        string_views(t.spec.required@) == Seq::<Seq<char>>::empty(),
        t.spec.additional_properties,
        !t.spec.strict,
{
    let mut params: Vec<ToolParam> = Vec::new();
    params.push(param("limit", ParamKind::Integer, "Optional."));
    assert(param_views(params@) =~= zotero_get_collections_params_spec());
    let required = strings(&[]);
    assert(string_views(required@) =~= Seq::<Seq<char>>::empty());
    DescribedTool {
        spec: FunctionToolSpec {
            name: String::from_str("zotero_get_collections"),
            params,
            required,
            additional_properties: true,
            strict: false,
        },
        description: String::from_str(ZOTERO_GET_COLLECTIONS_DESCRIPTION),
    }
}

/// The description of the `zotero_list_groups` tool.
pub const ZOTERO_LIST_GROUPS_DESCRIPTION: &'static str = "List the Zotero groups the user has access to (shared libraries).";

/// The parameters of the `zotero_list_groups` tool, in key order.
pub open spec fn zotero_list_groups_params_spec() -> Seq<ParamView> {
    seq![
    ]
}

/// The `zotero_list_groups` tool's declaration: its description, its parameters in key
/// order, the required ones, and whether other keys are accepted.
pub fn create_zotero_list_groups_tool() -> (t: DescribedTool)
    ensures
        t.spec.name@ == "zotero_list_groups"@,
        t.description@ == ZOTERO_LIST_GROUPS_DESCRIPTION@,
        param_views(t.spec.params@) == zotero_list_groups_params_spec(),
        string_views(t.spec.required@) == Seq::<Seq<char>>::empty(),
        t.spec.additional_properties,
        !t.spec.strict,
{
    let mut params: Vec<ToolParam> = Vec::new();
    assert(param_views(params@) =~= zotero_list_groups_params_spec());
    let required = strings(&[]);
    assert(string_views(required@) =~= Seq::<Seq<char>>::empty());
    DescribedTool {
        spec: FunctionToolSpec {
            name: String::from_str("zotero_list_groups"),
            params,
            required,
            additional_properties: true,
            strict: false,
        },
        description: String::from_str(ZOTERO_LIST_GROUPS_DESCRIPTION),
    }
}

/// The description of the `zotero_get_collection_items` tool.
pub const ZOTERO_GET_COLLECTION_ITEMS_DESCRIPTION: &'static str = "List items inside a specific Zotero collection.";

/// The parameters of the `zotero_get_collection_items` tool, in key order.
pub open spec fn zotero_get_collection_items_params_spec() -> Seq<ParamView> {
    seq![
        ("collection_key"@, ParamKind::String, Some("Required. Zotero collection key."@)),
        ("limit"@, ParamKind::Integer, Some("Optional."@)),
    ]
}

/// The `zotero_get_collection_items` tool's declaration: its description, its parameters in key
/// order, the required ones, and whether other keys are accepted.
pub fn create_zotero_get_collection_items_tool() -> (t: DescribedTool)
    ensures
        t.spec.name@ == "zotero_get_collection_items"@,
        t.description@ == ZOTERO_GET_COLLECTION_ITEMS_DESCRIPTION@,
        param_views(t.spec.params@) == zotero_get_collection_items_params_spec(),
        string_views(t.spec.required@) == seq!["collection_key"@],
        t.spec.additional_properties,
        !t.spec.strict,
{
    let mut params: Vec<ToolParam> = Vec::new();
    params.push(param("collection_key", ParamKind::String, "Required. Zotero collection key."));
    params.push(param("limit", ParamKind::Integer, "Optional."));
    assert(param_views(params@) =~= zotero_get_collection_items_params_spec());
    let required = strings(&["collection_key"]);
    assert(string_views(required@) =~= seq!["collection_key"@]);
    DescribedTool {
        spec: FunctionToolSpec {
            name: String::from_str("zotero_get_collection_items"),
            params,
            required,
            additional_properties: true,
            strict: false,
        },
        description: String::from_str(ZOTERO_GET_COLLECTION_ITEMS_DESCRIPTION),
    }
}

/// The description of the `zotero_create_collection` tool.
pub const ZOTERO_CREATE_COLLECTION_DESCRIPTION: &'static str = "Create a new Zotero collection (folder).";

/// The parameters of the `zotero_create_collection` tool, in key order.
pub open spec fn zotero_create_collection_params_spec() -> Seq<ParamView> {
    seq![
        ("name"@, ParamKind::String, Some("Required. New collection name."@)),
        ("parent_collection_key"@, ParamKind::String, Some("Optional. Parent collection to nest under."@)),
    ]
}

/// The `zotero_create_collection` tool's declaration: its description, its parameters in key
/// order, the required ones, and whether other keys are accepted.
pub fn create_zotero_create_collection_tool() -> (t: DescribedTool)
    ensures
        t.spec.name@ == "zotero_create_collection"@,
        t.description@ == ZOTERO_CREATE_COLLECTION_DESCRIPTION@,
        param_views(t.spec.params@) == zotero_create_collection_params_spec(),
        string_views(t.spec.required@) == seq!["name"@],
        t.spec.additional_properties,
        !t.spec.strict,
{
    let mut params: Vec<ToolParam> = Vec::new();
    params.push(param("name", ParamKind::String, "Required. New collection name."));
    params.push(param("parent_collection_key", ParamKind::String, "Optional. Parent collection to nest under."));
    assert(param_views(params@) =~= zotero_create_collection_params_spec());
    let required = strings(&["name"]);
    assert(string_views(required@) =~= seq!["name"@]);
    DescribedTool {
        spec: FunctionToolSpec {
            name: String::from_str("zotero_create_collection"),
            params,
            required,
            additional_properties: true,
            strict: false,
        },
        description: String::from_str(ZOTERO_CREATE_COLLECTION_DESCRIPTION),
    }
}

/// The description of the `zotero_find_or_create_collection` tool.
pub const ZOTERO_FIND_OR_CREATE_COLLECTION_DESCRIPTION: &'static str = "Look up a Zotero collection by name (case-insensitive); create it if it does not exist. Returns the collection key.";

/// The parameters of the `zotero_find_or_create_collection` tool, in key order.
pub open spec fn zotero_find_or_create_collection_params_spec() -> Seq<ParamView> {
    seq![
        ("name"@, ParamKind::String, Some("Required. Collection name to find or create."@)),
        ("parent_collection_key"@, ParamKind::String, Some("Optional. Parent collection."@)),
    ]
}

/// The `zotero_find_or_create_collection` tool's declaration: its description, its parameters in key
/// order, the required ones, and whether other keys are accepted.
pub fn create_zotero_find_or_create_collection_tool() -> (t: DescribedTool)
    ensures
        t.spec.name@ == "zotero_find_or_create_collection"@,
        t.description@ == ZOTERO_FIND_OR_CREATE_COLLECTION_DESCRIPTION@,
        param_views(t.spec.params@) == zotero_find_or_create_collection_params_spec(),
        string_views(t.spec.required@) == seq!["name"@],
        t.spec.additional_properties,
        !t.spec.strict,
{
    let mut params: Vec<ToolParam> = Vec::new();
    params.push(param("name", ParamKind::String, "Required. Collection name to find or create."));
    params.push(param("parent_collection_key", ParamKind::String, "Optional. Parent collection."));
    assert(param_views(params@) =~= zotero_find_or_create_collection_params_spec());
    let required = strings(&["name"]);
    assert(string_views(required@) =~= seq!["name"@]);
    DescribedTool {
        spec: FunctionToolSpec {
            name: String::from_str("zotero_find_or_create_collection"),
            params,
            required,
            additional_properties: true,
            strict: false,
        },
        description: String::from_str(ZOTERO_FIND_OR_CREATE_COLLECTION_DESCRIPTION),
    }
}

/// The description of the `zotero_create_items` tool.
pub const ZOTERO_CREATE_ITEMS_DESCRIPTION: &'static str = "Create one or more Zotero items from supplied JSON (the same shape Zotero's import API expects).";

/// The parameters of the `zotero_create_items` tool, in key order.
pub open spec fn zotero_create_items_params_spec() -> Seq<ParamView> {
    seq![
        ("items"@, ParamKind::ObjectArray, Some("Required. Array of item JSON objects."@)),
    ]
}

/// The `zotero_create_items` tool's declaration: its description, its parameters in key
/// order, the required ones, and whether other keys are accepted.
pub fn create_zotero_create_items_tool() -> (t: DescribedTool)
    ensures
        t.spec.name@ == "zotero_create_items"@,
        t.description@ == ZOTERO_CREATE_ITEMS_DESCRIPTION@,
        param_views(t.spec.params@) == zotero_create_items_params_spec(),
        string_views(t.spec.required@) == seq!["items"@],
        t.spec.additional_properties,
        !t.spec.strict,
{
    let mut params: Vec<ToolParam> = Vec::new();
    params.push(param("items", ParamKind::ObjectArray, "Required. Array of item JSON objects."));
    assert(param_views(params@) =~= zotero_create_items_params_spec());
    let required = strings(&["items"]);
    assert(string_views(required@) =~= seq!["items"@]);
    DescribedTool {
        spec: FunctionToolSpec {
            name: String::from_str("zotero_create_items"),
            params,
            required,
            additional_properties: true,
            strict: false,
        },
        description: String::from_str(ZOTERO_CREATE_ITEMS_DESCRIPTION),
    }
}

/// The description of the `zotero_update_items` tool.
pub const ZOTERO_UPDATE_ITEMS_DESCRIPTION: &'static str = "Patch existing Zotero items (each entry must include `key` and `version` plus the fields to update).";

/// The parameters of the `zotero_update_items` tool, in key order.
pub open spec fn zotero_update_items_params_spec() -> Seq<ParamView> {
    seq![
        ("items"@, ParamKind::ObjectArray, Some("Required. Array of patch JSON objects."@)),
    ]
}

/// The `zotero_update_items` tool's declaration: its description, its parameters in key
/// order, the required ones, and whether other keys are accepted.
pub fn create_zotero_update_items_tool() -> (t: DescribedTool)
    ensures
        t.spec.name@ == "zotero_update_items"@,
        t.description@ == ZOTERO_UPDATE_ITEMS_DESCRIPTION@,
        param_views(t.spec.params@) == zotero_update_items_params_spec(),
        string_views(t.spec.required@) == seq!["items"@],
        t.spec.additional_properties,
        !t.spec.strict,
{
    let mut params: Vec<ToolParam> = Vec::new();
    params.push(param("items", ParamKind::ObjectArray, "Required. Array of patch JSON objects."));
    assert(param_views(params@) =~= zotero_update_items_params_spec());
    let required = strings(&["items"]);
    assert(string_views(required@) =~= seq!["items"@]);
    DescribedTool {
        spec: FunctionToolSpec {
            name: String::from_str("zotero_update_items"),
            params,
            required,
            additional_properties: true,
            strict: false,
        },
        description: String::from_str(ZOTERO_UPDATE_ITEMS_DESCRIPTION),
    }
}

/// The description of the `zotero_add_items_to_collection` tool.
pub const ZOTERO_ADD_ITEMS_TO_COLLECTION_DESCRIPTION: &'static str = "Add one or more existing Zotero items to a collection.";

/// The parameters of the `zotero_add_items_to_collection` tool, in key order.
pub open spec fn zotero_add_items_to_collection_params_spec() -> Seq<ParamView> {
    seq![
        ("collection_key"@, ParamKind::String, Some("Required. Target collection key."@)),
        ("item_keys"@, ParamKind::StringArray, Some("Required. Item keys to add."@)),
    ]
}

/// The `zotero_add_items_to_collection` tool's declaration: its description, its parameters in key
/// order, the required ones, and whether other keys are accepted.
pub fn create_zotero_add_items_to_collection_tool() -> (t: DescribedTool)
    ensures
        t.spec.name@ == "zotero_add_items_to_collection"@,
        t.description@ == ZOTERO_ADD_ITEMS_TO_COLLECTION_DESCRIPTION@,
        param_views(t.spec.params@) == zotero_add_items_to_collection_params_spec(),
        string_views(t.spec.required@) == seq!["collection_key"@, "item_keys"@],
        t.spec.additional_properties,
        !t.spec.strict,
{
    let mut params: Vec<ToolParam> = Vec::new();
    params.push(param("collection_key", ParamKind::String, "Required. Target collection key."));
    params.push(param("item_keys", ParamKind::StringArray, "Required. Item keys to add."));
    assert(param_views(params@) =~= zotero_add_items_to_collection_params_spec());
    let required = strings(&["collection_key", "item_keys"]);
    assert(string_views(required@) =~= seq!["collection_key"@, "item_keys"@]);
    DescribedTool {
        spec: FunctionToolSpec {
            name: String::from_str("zotero_add_items_to_collection"),
            params,
            required,
            additional_properties: true,
            strict: false,
        },
        description: String::from_str(ZOTERO_ADD_ITEMS_TO_COLLECTION_DESCRIPTION),
    }
}

/// The description of the `zotero_create_attachment_link` tool.
pub const ZOTERO_CREATE_ATTACHMENT_LINK_DESCRIPTION: &'static str = "Attach a URL link to a Zotero parent item (e.g. for archival pages or papers without a downloadable PDF).";

/// The parameters of the `zotero_create_attachment_link` tool, in key order.
pub open spec fn zotero_create_attachment_link_params_spec() -> Seq<ParamView> {
    seq![
        ("parent_item_key"@, ParamKind::String, Some("Required. Item to attach to."@)),
        ("title"@, ParamKind::String, Some("Optional. Display title for the link."@)),
        ("url"@, ParamKind::String, Some("Required. URL to link."@)),
    ]
}

/// The `zotero_create_attachment_link` tool's declaration: its description, its parameters in key
/// order, the required ones, and whether other keys are accepted.
pub fn create_zotero_create_attachment_link_tool() -> (t: DescribedTool)
    ensures
        t.spec.name@ == "zotero_create_attachment_link"@,
        t.description@ == ZOTERO_CREATE_ATTACHMENT_LINK_DESCRIPTION@,
        param_views(t.spec.params@) == zotero_create_attachment_link_params_spec(),
        string_views(t.spec.required@) == seq!["parent_item_key"@, "url"@],
        t.spec.additional_properties,
        !t.spec.strict,
{
    let mut params: Vec<ToolParam> = Vec::new();
    params.push(param("parent_item_key", ParamKind::String, "Required. Item to attach to."));
    params.push(param("title", ParamKind::String, "Optional. Display title for the link."));
    params.push(param("url", ParamKind::String, "Required. URL to link."));
    assert(param_views(params@) =~= zotero_create_attachment_link_params_spec());
    let required = strings(&["parent_item_key", "url"]);
    assert(string_views(required@) =~= seq!["parent_item_key"@, "url"@]);
    DescribedTool {
        spec: FunctionToolSpec {
            name: String::from_str("zotero_create_attachment_link"),
            params,
            required,
            additional_properties: true,
            strict: false,
        },
        description: String::from_str(ZOTERO_CREATE_ATTACHMENT_LINK_DESCRIPTION),
    }
}

/// The description of the `repo_clone_and_summarize` tool.
pub const REPO_CLONE_AND_SUMMARIZE_DESCRIPTION: &'static str = "Shallow-clone a public Git repository and return a summary.\n\nUse when:\n- The user gives a `https://github.com/owner/repo` or `https://gitlab.com/owner/repo` URL and asks \"what's in this repo?\".\n- You need a high-level map (directory tree, README snippet, key files) before any deeper analysis.\n\nReturns: `{url, commit_sha?, directory_tree, readme_snippet?, key_files, total_files}`. The directory tree is depth-capped, the README is truncated to ~2000 chars, and the result is cached for 30 minutes.";

/// The parameters of the `repo_clone_and_summarize` tool, in key order.
pub open spec fn repo_clone_and_summarize_params_spec() -> Seq<ParamView> {
    seq![
        ("branch"@, ParamKind::String, Some("Optional. Branch, tag, or single ref to check out. Defaults to the repo's default branch."@)),
        ("repo_url"@, ParamKind::String, Some("Required. https URL to a GitHub or GitLab repository (e.g. `https://github.com/owner/repo`). `/tree/<branch>` suffixes are accepted."@)),
    ]
}

/// The `repo_clone_and_summarize` tool's declaration: its description, its parameters in key
/// order, the required ones, and whether other keys are accepted.
pub fn create_repo_clone_and_summarize_tool() -> (t: DescribedTool)
    ensures
        t.spec.name@ == "repo_clone_and_summarize"@,
        t.description@ == REPO_CLONE_AND_SUMMARIZE_DESCRIPTION@,
        param_views(t.spec.params@) == repo_clone_and_summarize_params_spec(),
        string_views(t.spec.required@) == seq!["repo_url"@],
        t.spec.additional_properties,
        !t.spec.strict,
{
    let mut params: Vec<ToolParam> = Vec::new();
    params.push(param("branch", ParamKind::String, "Optional. Branch, tag, or single ref to check out. Defaults to the repo's default branch."));
    params.push(param("repo_url", ParamKind::String, "Required. https URL to a GitHub or GitLab repository (e.g. `https://github.com/owner/repo`). `/tree/<branch>` suffixes are accepted."));
    assert(param_views(params@) =~= repo_clone_and_summarize_params_spec());
    let required = strings(&["repo_url"]);
    assert(string_views(required@) =~= seq!["repo_url"@]);
    DescribedTool {
        spec: FunctionToolSpec {
            name: String::from_str("repo_clone_and_summarize"),
            params,
            required,
            additional_properties: true,
            strict: false,
        },
        description: String::from_str(REPO_CLONE_AND_SUMMARIZE_DESCRIPTION),
    }
}

/// The description of the `repo_find_models` tool.
pub const REPO_FIND_MODELS_DESCRIPTION: &'static str = "Find ML model class definitions (PyTorch / TensorFlow / JAX) in a public Git repo.\n\nUse when:\n- The user asks \"what models are defined in this repo?\" or \"find the model class\".\n- You're orienting before diving into training/inference code.\n\nReturns a list of `{file_path, class_name, line_number, context}` entries. Matches classes inheriting from `nn.Module`, `tf.keras.Model`, `flax.linen.Module`, or similar framework base classes. Results capped at 300 entries.";

/// The parameters of the `repo_find_models` tool, in key order.
pub open spec fn repo_find_models_params_spec() -> Seq<ParamView> {
    seq![
        ("framework"@, ParamKind::String, Some("Optional. Constrain to one of: `pytorch`, `tensorflow`, `jax`. If omitted, all three are searched."@)),
        ("repo_url"@, ParamKind::String, Some("Required. https URL to a GitHub or GitLab repository."@)),
    ]
}

/// The `repo_find_models` tool's declaration: its description, its parameters in key
/// order, the required ones, and whether other keys are accepted.
pub fn create_repo_find_models_tool() -> (t: DescribedTool)
    ensures
        t.spec.name@ == "repo_find_models"@,
        t.description@ == REPO_FIND_MODELS_DESCRIPTION@,
        param_views(t.spec.params@) == repo_find_models_params_spec(),
        string_views(t.spec.required@) == seq!["repo_url"@],
        t.spec.additional_properties,
        !t.spec.strict,
{
    let mut params: Vec<ToolParam> = Vec::new();
    params.push(param("framework", ParamKind::String, "Optional. Constrain to one of: `pytorch`, `tensorflow`, `jax`. If omitted, all three are searched."));
    params.push(param("repo_url", ParamKind::String, "Required. https URL to a GitHub or GitLab repository."));
    assert(param_views(params@) =~= repo_find_models_params_spec());
    let required = strings(&["repo_url"]);
    assert(string_views(required@) =~= seq!["repo_url"@]);
    DescribedTool {
        spec: FunctionToolSpec {
            name: String::from_str("repo_find_models"),
            params,
            required,
            additional_properties: true,
            strict: false,
        },
        description: String::from_str(REPO_FIND_MODELS_DESCRIPTION),
    }
}

/// The description of the `repo_extract_requirements` tool.
pub const REPO_EXTRACT_REQUIREMENTS_DESCRIPTION: &'static str = "Extract Python dependency requirements from a public Git repo.\n\nUse when:\n- The user asks \"what does this repo depend on?\" or \"what Python packages does it need?\".\n- Before running or reproducing the repo locally, to see if your environment is compatible.\n\nParses `requirements*.txt`, `pyproject.toml`, `setup.py`, `setup.cfg`, `Pipfile`, and `environment.yml`/`yaml`. Returns `{repo_url, dependencies, source_files}` where dependencies are deduplicated and rendered as `name<constraint>` (e.g. `torch>=2.2`).";

/// The parameters of the `repo_extract_requirements` tool, in key order.
pub open spec fn repo_extract_requirements_params_spec() -> Seq<ParamView> {
    seq![
        ("repo_url"@, ParamKind::String, Some("Required. https URL to a GitHub or GitLab repository."@)),
    ]
}

/// The `repo_extract_requirements` tool's declaration: its description, its parameters in key
/// order, the required ones, and whether other keys are accepted.
pub fn create_repo_extract_requirements_tool() -> (t: DescribedTool)
    ensures
        t.spec.name@ == "repo_extract_requirements"@,
        t.description@ == REPO_EXTRACT_REQUIREMENTS_DESCRIPTION@,
        param_views(t.spec.params@) == repo_extract_requirements_params_spec(),
        string_views(t.spec.required@) == seq!["repo_url"@],
        t.spec.additional_properties,
        !t.spec.strict,
{
    let mut params: Vec<ToolParam> = Vec::new();
    params.push(param("repo_url", ParamKind::String, "Required. https URL to a GitHub or GitLab repository."));
    assert(param_views(params@) =~= repo_extract_requirements_params_spec());
    let required = strings(&["repo_url"]);
    assert(string_views(required@) =~= seq!["repo_url"@]);
    DescribedTool {
        spec: FunctionToolSpec {
            name: String::from_str("repo_extract_requirements"),
            params,
            required,
            additional_properties: true,
            strict: false,
        },
        description: String::from_str(REPO_EXTRACT_REQUIREMENTS_DESCRIPTION),
    }
}

/// The description of the `repo_find_entrypoints` tool.
pub const REPO_FIND_ENTRYPOINTS_DESCRIPTION: &'static str = "Find executable entrypoint scripts (train / eval / infer / export) in a public Git repo.\n\nUse when:\n- The user asks \"how do I run training?\" or \"where's the eval script?\".\n- You need to know which file to run before suggesting an invocation.\n\nReturns `{file_path, kind, cli_args_summary?, config_file?}` per match. Detection combines filename heuristics (e.g. `train.py`, `infer.py`) with content checks (`__main__` guard + topic keywords). Each entry includes a CLI-args summary when the script uses argparse/click.";

/// The parameters of the `repo_find_entrypoints` tool, in key order.
pub open spec fn repo_find_entrypoints_params_spec() -> Seq<ParamView> {
    seq![
        ("repo_url"@, ParamKind::String, Some("Required. https URL to a GitHub or GitLab repository."@)),
        ("task_hint"@, ParamKind::String, Some("Optional. Constrain to one of: `train`, `eval`, `infer`, `export`. If omitted, all four are searched."@)),
    ]
}

/// The `repo_find_entrypoints` tool's declaration: its description, its parameters in key
/// order, the required ones, and whether other keys are accepted.
pub fn create_repo_find_entrypoints_tool() -> (t: DescribedTool)
    ensures
        t.spec.name@ == "repo_find_entrypoints"@,
        t.description@ == REPO_FIND_ENTRYPOINTS_DESCRIPTION@,
        param_views(t.spec.params@) == repo_find_entrypoints_params_spec(),
        string_views(t.spec.required@) == seq!["repo_url"@],
        t.spec.additional_properties,
        !t.spec.strict,
{
    let mut params: Vec<ToolParam> = Vec::new();
    params.push(param("repo_url", ParamKind::String, "Required. https URL to a GitHub or GitLab repository."));
    params.push(param("task_hint", ParamKind::String, "Optional. Constrain to one of: `train`, `eval`, `infer`, `export`. If omitted, all four are searched."));
    assert(param_views(params@) =~= repo_find_entrypoints_params_spec());
    let required = strings(&["repo_url"]);
    assert(string_views(required@) =~= seq!["repo_url"@]);
    DescribedTool {
        spec: FunctionToolSpec {
            name: String::from_str("repo_find_entrypoints"),
            params,
            required,
            additional_properties: true,
            strict: false,
        },
        description: String::from_str(REPO_FIND_ENTRYPOINTS_DESCRIPTION),
    }
}

/// The description of the `repo_extract_io_shapes` tool.
pub const REPO_EXTRACT_IO_SHAPES_DESCRIPTION: &'static str = "Extract model input/output tensor shapes from a public Git repo's source.\n\nUse when:\n- The user asks \"what input does this model take?\" or \"what's the output shape?\".\n- You need shape info to plan a benchmark, port, or conversion.\n\nReturns `{input_shapes?, output_shapes?, dtype?, source_file, source_line}` per match. Greps for assignments like `input_size=...`, `image_size=...`, `output_shape=...`, `num_classes=...` across `.py/.yaml/.yml/.json/.toml`, plus `torch.randn(...)`/`np.zeros(...)` constructors.";

/// The parameters of the `repo_extract_io_shapes` tool, in key order.
pub open spec fn repo_extract_io_shapes_params_spec() -> Seq<ParamView> {
    seq![
        ("model_class"@, ParamKind::String, Some("Optional. Only return shapes from files mentioning this class name, useful when a repo has multiple models."@)),
        ("repo_url"@, ParamKind::String, Some("Required. https URL to a GitHub or GitLab repository."@)),
    ]
}

/// The `repo_extract_io_shapes` tool's declaration: its description, its parameters in key
/// order, the required ones, and whether other keys are accepted.
pub fn create_repo_extract_io_shapes_tool() -> (t: DescribedTool)
    ensures
        t.spec.name@ == "repo_extract_io_shapes"@,
        t.description@ == REPO_EXTRACT_IO_SHAPES_DESCRIPTION@,
        param_views(t.spec.params@) == repo_extract_io_shapes_params_spec(),
        string_views(t.spec.required@) == seq!["repo_url"@],
        t.spec.additional_properties,
        !t.spec.strict,
{
    let mut params: Vec<ToolParam> = Vec::new();
    params.push(param("model_class", ParamKind::String, "Optional. Only return shapes from files mentioning this class name, useful when a repo has multiple models."));
    params.push(param("repo_url", ParamKind::String, "Required. https URL to a GitHub or GitLab repository."));
    assert(param_views(params@) =~= repo_extract_io_shapes_params_spec());
    let required = strings(&["repo_url"]);
    assert(string_views(required@) =~= seq!["repo_url"@]);
    DescribedTool {
        spec: FunctionToolSpec {
            name: String::from_str("repo_extract_io_shapes"),
            params,
            required,
            additional_properties: true,
            strict: false,
        },
        description: String::from_str(REPO_EXTRACT_IO_SHAPES_DESCRIPTION),
    }
}

/// The description of the `repo_get_health` tool.
pub const REPO_GET_HEALTH_DESCRIPTION: &'static str = "Fetch repository health signals from GitHub (no clone).\n\nUse when:\n- The user asks \"is this repo maintained?\" or \"how active is it?\".\n- You want to assess whether a candidate dependency is safe to adopt.\n\nReturns `{license?, last_commit_date?, stars, open_issues, releases_count, ci_passing?}`. Calls the GitHub REST API only — no clone, no rate-limited git operations. GitLab URLs are not supported by this tool; use `repo_clone_and_summarize` instead for those. With `GITHUB_TOKEN` set, allowed rate scales up; without it, falls back to anonymous limits.";

/// The parameters of the `repo_get_health` tool, in key order.
pub open spec fn repo_get_health_params_spec() -> Seq<ParamView> {
    seq![
        ("repo_url"@, ParamKind::String, Some("Required. https GitHub URL."@)),
    ]
}

/// The `repo_get_health` tool's declaration: its description, its parameters in key
/// order, the required ones, and whether other keys are accepted.
pub fn create_repo_get_health_tool() -> (t: DescribedTool)
    ensures
        t.spec.name@ == "repo_get_health"@,
        t.description@ == REPO_GET_HEALTH_DESCRIPTION@,
        param_views(t.spec.params@) == repo_get_health_params_spec(),
        string_views(t.spec.required@) == seq!["repo_url"@],
        t.spec.additional_properties,
        !t.spec.strict,
{
    let mut params: Vec<ToolParam> = Vec::new();
    params.push(param("repo_url", ParamKind::String, "Required. https GitHub URL."));
    assert(param_views(params@) =~= repo_get_health_params_spec());
    let required = strings(&["repo_url"]);
    assert(string_views(required@) =~= seq!["repo_url"@]);
    DescribedTool {
        spec: FunctionToolSpec {
            name: String::from_str("repo_get_health"),
            params,
            required,
            additional_properties: true,
            strict: false,
        },
        description: String::from_str(REPO_GET_HEALTH_DESCRIPTION),
    }
}

/// The description of the `repo_find_export_paths` tool.
pub const REPO_FIND_EXPORT_PATHS_DESCRIPTION: &'static str = "Find model-export pipelines (ONNX, TensorRT, TFLite, CoreML, OpenVINO, TorchScript) in a public Git repo.\n\nUse when:\n- The user asks \"can this model be exported to ONNX?\" or \"is there a TensorRT path?\".\n- Before recommending a deployment route, to confirm one exists.\n\nReturns `{file_path, target_format, framework_version?}` per match. `framework_version` is inferred from the repo's declared requirements (e.g. `torch>=2.2`). Greps for known export calls like `torch.onnx.export`, `tf.lite.TFLiteConverter`, `ct.convert`, `torch.jit.script`/`trace`.";

/// The parameters of the `repo_find_export_paths` tool, in key order.
pub open spec fn repo_find_export_paths_params_spec() -> Seq<ParamView> {
    seq![
        ("repo_url"@, ParamKind::String, Some("Required. https URL to a GitHub or GitLab repository."@)),
    ]
}

/// The `repo_find_export_paths` tool's declaration: its description, its parameters in key
/// order, the required ones, and whether other keys are accepted.
pub fn create_repo_find_export_paths_tool() -> (t: DescribedTool)
    ensures
        t.spec.name@ == "repo_find_export_paths"@,
        t.description@ == REPO_FIND_EXPORT_PATHS_DESCRIPTION@,
        param_views(t.spec.params@) == repo_find_export_paths_params_spec(),
        string_views(t.spec.required@) == seq!["repo_url"@],
        t.spec.additional_properties,
        !t.spec.strict,
{
    let mut params: Vec<ToolParam> = Vec::new();
    params.push(param("repo_url", ParamKind::String, "Required. https URL to a GitHub or GitLab repository."));
    assert(param_views(params@) =~= repo_find_export_paths_params_spec());
    let required = strings(&["repo_url"]);
    assert(string_views(required@) =~= seq!["repo_url"@]);
    DescribedTool {
        spec: FunctionToolSpec {
            name: String::from_str("repo_find_export_paths"),
            params,
            required,
            additional_properties: true,
            strict: false,
        },
        description: String::from_str(REPO_FIND_EXPORT_PATHS_DESCRIPTION),
    }
}

/// The description of the `repo_extract_config_schema` tool.
pub const REPO_EXTRACT_CONFIG_SCHEMA_DESCRIPTION: &'static str = "Extract config-key schemas from a public Git repo's YAML/JSON/TOML/CFG files and argparse usage.\n\nUse when:\n- The user asks \"what config options does this repo accept?\" or \"what CLI flags can I pass?\".\n- Before running a script, to surface available knobs.\n\nReturns a list of `{config_file, format, key_params: [{name, default?, description?}]}`. `format` is one of `yaml`/`json`/`toml`/`cfg`/`argparse`. Each schema is capped at 200 keys; total schemas capped at 200.";

/// The parameters of the `repo_extract_config_schema` tool, in key order.
pub open spec fn repo_extract_config_schema_params_spec() -> Seq<ParamView> {
    seq![
        ("repo_url"@, ParamKind::String, Some("Required. https URL to a GitHub or GitLab repository."@)),
    ]
}

/// The `repo_extract_config_schema` tool's declaration: its description, its parameters in key
/// order, the required ones, and whether other keys are accepted.
pub fn create_repo_extract_config_schema_tool() -> (t: DescribedTool)
    ensures
        t.spec.name@ == "repo_extract_config_schema"@,
        t.description@ == REPO_EXTRACT_CONFIG_SCHEMA_DESCRIPTION@,
        param_views(t.spec.params@) == repo_extract_config_schema_params_spec(),
        string_views(t.spec.required@) == seq!["repo_url"@],
        t.spec.additional_properties,
        !t.spec.strict,
{
    let mut params: Vec<ToolParam> = Vec::new();
    params.push(param("repo_url", ParamKind::String, "Required. https URL to a GitHub or GitLab repository."));
    assert(param_views(params@) =~= repo_extract_config_schema_params_spec());
    let required = strings(&["repo_url"]);
    assert(string_views(required@) =~= seq!["repo_url"@]);
    DescribedTool {
        spec: FunctionToolSpec {
            name: String::from_str("repo_extract_config_schema"),
            params,
            required,
            additional_properties: true,
            strict: false,
        },
        description: String::from_str(REPO_EXTRACT_CONFIG_SCHEMA_DESCRIPTION),
    }
}

/// The description of the `repo_diff_requirements` tool.
pub const REPO_DIFF_REQUIREMENTS_DESCRIPTION: &'static str = "Diff a public Git repo's Python requirements against a local requirements file.\n\nUse when:\n- The user asks \"will my environment work with this repo?\" or \"what's missing locally?\".\n- Before installing, to surface conflicts vs. just-missing.\n\nReturns `{repo_url, conflicts, missing_locally, compatible, repo_total_deps, local_total_deps}` where `conflicts` lists `name: repo requires X, local has Y` entries. `local_requirements_path` must be a path the agent can read locally (a `requirements*.txt`/`pyproject.toml`/etc.).";

/// The parameters of the `repo_diff_requirements` tool, in key order.
pub open spec fn repo_diff_requirements_params_spec() -> Seq<ParamView> {
    seq![
        ("local_requirements_path"@, ParamKind::String, Some("Required. Local filesystem path to a requirements file to compare against."@)),
        ("repo_url"@, ParamKind::String, Some("Required. https URL to a GitHub or GitLab repository."@)),
    ]
}

/// The `repo_diff_requirements` tool's declaration: its description, its parameters in key
/// order, the required ones, and whether other keys are accepted.
pub fn create_repo_diff_requirements_tool() -> (t: DescribedTool)
    ensures
        t.spec.name@ == "repo_diff_requirements"@,
        t.description@ == REPO_DIFF_REQUIREMENTS_DESCRIPTION@,
        param_views(t.spec.params@) == repo_diff_requirements_params_spec(),
        string_views(t.spec.required@) == seq!["repo_url"@, "local_requirements_path"@],
        t.spec.additional_properties,
        !t.spec.strict,
{
    let mut params: Vec<ToolParam> = Vec::new();
    params.push(param("local_requirements_path", ParamKind::String, "Required. Local filesystem path to a requirements file to compare against."));
    params.push(param("repo_url", ParamKind::String, "Required. https URL to a GitHub or GitLab repository."));
    assert(param_views(params@) =~= repo_diff_requirements_params_spec());
    let required = strings(&["repo_url", "local_requirements_path"]);
    assert(string_views(required@) =~= seq!["repo_url"@, "local_requirements_path"@]);
    DescribedTool {
        spec: FunctionToolSpec {
            name: String::from_str("repo_diff_requirements"),
            params,
            required,
            additional_properties: true,
            strict: false,
        },
        description: String::from_str(REPO_DIFF_REQUIREMENTS_DESCRIPTION),
    }
}

/// The description of the `dataset_search` tool.
pub const DATASET_SEARCH_DESCRIPTION: &'static str = "Search public dataset catalogs (HuggingFace; optionally Kaggle) for datasets matching a query.\n\nUse when:\n- The user asks \"find a dataset for X\", \"are there public datasets about Y?\", or wants to discover a corpus before downloading it.\n- You need a dataset id to feed into `dataset_get`.\n\nReturns a list of matches with id, author, downloads, description snippet, and tags. No bytes are downloaded — this is metadata only. Use `dataset_get` to inspect a specific dataset by id.";

/// The parameters of the `dataset_search` tool, in key order.
pub open spec fn dataset_search_params_spec() -> Seq<ParamView> {
    seq![
        ("limit"@, ParamKind::Number, Some("Optional. Max number of results to return. Defaults to a small list."@)),
        ("query"@, ParamKind::String, Some("Required. Free-text search query for datasets."@)),
        ("source"@, ParamKind::String, Some("Optional. Filter to a specific source. Supported: `huggingface`, `kaggle`. Kaggle paths require `KAGGLE_USERNAME` + `KAGGLE_KEY` credentials; HuggingFace works without auth for public datasets."@)),
    ]
}

/// The `dataset_search` tool's declaration: its description, its parameters in key
/// order, the required ones, and whether other keys are accepted.
pub fn create_dataset_search_tool() -> (t: DescribedTool)
    ensures
        t.spec.name@ == "dataset_search"@,
        t.description@ == DATASET_SEARCH_DESCRIPTION@,
        param_views(t.spec.params@) == dataset_search_params_spec(),
        string_views(t.spec.required@) == seq!["query"@],
        !t.spec.additional_properties,
        !t.spec.strict,
{
    let mut params: Vec<ToolParam> = Vec::new();
    params.push(param("limit", ParamKind::Number, "Optional. Max number of results to return. Defaults to a small list."));
    params.push(param("query", ParamKind::String, "Required. Free-text search query for datasets."));
    params.push(param("source", ParamKind::String, "Optional. Filter to a specific source. Supported: `huggingface`, `kaggle`. Kaggle paths require `KAGGLE_USERNAME` + `KAGGLE_KEY` credentials; HuggingFace works without auth for public datasets."));
    assert(param_views(params@) =~= dataset_search_params_spec());
    let required = strings(&["query"]);
    assert(string_views(required@) =~= seq!["query"@]);
    DescribedTool {
        spec: FunctionToolSpec {
            name: String::from_str("dataset_search"),
            params,
            required,
            additional_properties: false,
            strict: false,
        },
        description: String::from_str(DATASET_SEARCH_DESCRIPTION),
    }
}

/// The description of the `dataset_get` tool.
pub const DATASET_GET_DESCRIPTION: &'static str = "Fetch detailed metadata for a single dataset by id.\n\nUse when:\n- You already have a dataset id (from `dataset_search`) and need fields like full description, size on disk, file list, license, or modality.\n- Before downloading, to confirm size / license fit user constraints.\n\nReturns dataset detail including description, size_bytes, downloads, tags, files (if available), and license. No bytes are downloaded — call `dataset_list_files` / `dataset_download` for that.";

/// The parameters of the `dataset_get` tool, in key order.
pub open spec fn dataset_get_params_spec() -> Seq<ParamView> {
    seq![
        ("dataset_id"@, ParamKind::String, Some("Required. Dataset identifier as returned by `dataset_search` (e.g. `squad`, `imdb`, `huggingface/dataset-name`)."@)),
        ("source"@, ParamKind::String, Some("Optional. `huggingface` (default) or `kaggle`. Kaggle requires credentials."@)),
    ]
}

/// The `dataset_get` tool's declaration: its description, its parameters in key
/// order, the required ones, and whether other keys are accepted.
pub fn create_dataset_get_tool() -> (t: DescribedTool)
    ensures
        t.spec.name@ == "dataset_get"@,
        t.description@ == DATASET_GET_DESCRIPTION@,
        param_views(t.spec.params@) == dataset_get_params_spec(),
        string_views(t.spec.required@) == seq!["dataset_id"@],
        !t.spec.additional_properties,
        !t.spec.strict,
{
    let mut params: Vec<ToolParam> = Vec::new();
    params.push(param("dataset_id", ParamKind::String, "Required. Dataset identifier as returned by `dataset_search` (e.g. `squad`, `imdb`, `huggingface/dataset-name`)."));
    params.push(param("source", ParamKind::String, "Optional. `huggingface` (default) or `kaggle`. Kaggle requires credentials."));
    assert(param_views(params@) =~= dataset_get_params_spec());
    let required = strings(&["dataset_id"]);
    assert(string_views(required@) =~= seq!["dataset_id"@]);
    DescribedTool {
        spec: FunctionToolSpec {
            name: String::from_str("dataset_get"),
            params,
            required,
            additional_properties: false,
            strict: false,
        },
        description: String::from_str(DATASET_GET_DESCRIPTION),
    }
}

/// The description of the `js_repl` tool.
pub const JS_REPL_DESCRIPTION: &'static str = "Evaluate a JavaScript snippet in an embedded V8 isolate and return the value of the last expression. Useful for quick numeric computations, string transformations, JSON shaping, regex tests, and other one-off scripts where shelling out to `node` would be heavy. Each call runs in a fresh isolate — variables, functions, and side effects do NOT persist across calls. There is no Node API available: no `require`, no filesystem, no network, no `process`. Plain ECMAScript only, plus standard built-ins (Math, JSON, Date, Array, regex, etc.). Each evaluation is bounded by a per-call timeout (default 5s). Long-running or infinite scripts will be terminated and the call returns an error. Output is capped at 16KB; longer values are truncated.";

/// The parameters of the `js_repl` tool, in key order.
pub open spec fn js_repl_params_spec() -> Seq<ParamView> {
    seq![
        ("code"@, ParamKind::String, Some("JavaScript source to evaluate. The value of the last expression becomes the tool result."@)),
    ]
}

/// The `js_repl` tool's declaration: its description, its parameters in key
/// order, the required ones, and whether other keys are accepted.
pub fn create_js_repl_tool() -> (t: DescribedTool)
    ensures
        t.spec.name@ == "js_repl"@,
        t.description@ == JS_REPL_DESCRIPTION@,
        param_views(t.spec.params@) == js_repl_params_spec(),
        string_views(t.spec.required@) == seq!["code"@],
        !t.spec.additional_properties,
        !t.spec.strict,
{
    let mut params: Vec<ToolParam> = Vec::new();
    params.push(param("code", ParamKind::String, "JavaScript source to evaluate. The value of the last expression becomes the tool result."));
    assert(param_views(params@) =~= js_repl_params_spec());
    let required = strings(&["code"]);
    assert(string_views(required@) =~= seq!["code"@]);
    DescribedTool {
        spec: FunctionToolSpec {
            name: String::from_str("js_repl"),
            params,
            required,
            additional_properties: false,
            strict: false,
        },
        description: String::from_str(JS_REPL_DESCRIPTION),
    }
}

} // verus!
