//! The names under which the research tools are offered to the model:
//! built-in names by default, or the names of matching MCP tools.
use vstd::prelude::*;

use crate::document::eq_chars;
use crate::sorting::{
    lemma_leq_antisymmetric, lemma_leq_reflexive, lemma_leq_total, lemma_leq_transitive, str_leq,
    str_leq_chars,
};
use crate::text::{chars_of, split_last_piece, split_last_piece_of, string_views};

verus! {

/// The tool names that the research prompt refers to.
#[derive(Clone, Debug, PartialEq, Eq)]
pub struct ResearchToolNames {
    pub paper_search: String,
    pub paper_get: String,
    pub paper_citations: String,
    pub paper_references: String,
    pub paper_recommendations: String,
    pub repo_clone_and_summarize: String,
    pub repo_find_models: String,
    pub repo_extract_requirements: String,
    pub repo_find_entrypoints: String,
    pub repo_extract_io_shapes: String,
    pub repo_get_health: String,
    pub repo_find_export_paths: String,
    pub repo_extract_config_schema: String,
    pub repo_diff_requirements: String,
    pub hn_search: String,
    pub hn_get_thread: String,
    pub zotero_search: String,
    pub zotero_get_collections: String,
}

/// The tool ids whose names can be resolved from tool definitions.
pub open spec fn resolvable_id(id: Seq<char>) -> bool {
    id == "paper_search"@
        || id == "paper_get"@
        || id == "paper_citations"@
        || id == "paper_references"@
        || id == "paper_recommendations"@
        || id == "repo_clone_and_summarize"@
        || id == "repo_find_models"@
        || id == "repo_extract_requirements"@
        || id == "repo_find_entrypoints"@
        || id == "repo_extract_io_shapes"@
        || id == "repo_get_health"@
        || id == "repo_find_export_paths"@
        || id == "repo_extract_config_schema"@
        || id == "repo_diff_requirements"@
        || id == "hn_search"@
        || id == "hn_get_thread"@
}

impl ResearchToolNames {
    /// The names by tool id.
    pub open spec fn names(&self) -> Map<Seq<char>, Seq<char>> {
        Map::empty()
            .insert("paper_search"@, self.paper_search@)
            .insert("paper_get"@, self.paper_get@)
            .insert("paper_citations"@, self.paper_citations@)
            .insert("paper_references"@, self.paper_references@)
            .insert("paper_recommendations"@, self.paper_recommendations@)
            .insert("repo_clone_and_summarize"@, self.repo_clone_and_summarize@)
            .insert("repo_find_models"@, self.repo_find_models@)
            .insert("repo_extract_requirements"@, self.repo_extract_requirements@)
            .insert("repo_find_entrypoints"@, self.repo_find_entrypoints@)
            .insert("repo_extract_io_shapes"@, self.repo_extract_io_shapes@)
            .insert("repo_get_health"@, self.repo_get_health@)
            .insert("repo_find_export_paths"@, self.repo_find_export_paths@)
            .insert("repo_extract_config_schema"@, self.repo_extract_config_schema@)
            .insert("repo_diff_requirements"@, self.repo_diff_requirements@)
            .insert("hn_search"@, self.hn_search@)
            .insert("hn_get_thread"@, self.hn_get_thread@)
            .insert("zotero_search"@, self.zotero_search@)
            .insert("zotero_get_collections"@, self.zotero_get_collections@)
    }
}

/// The names by tool id when every tool goes by its id.
pub open spec fn default_names() -> Map<Seq<char>, Seq<char>> {
    Map::empty()
        .insert("paper_search"@, "paper_search"@)
        .insert("paper_get"@, "paper_get"@)
        .insert("paper_citations"@, "paper_citations"@)
        .insert("paper_references"@, "paper_references"@)
        .insert("paper_recommendations"@, "paper_recommendations"@)
        .insert("repo_clone_and_summarize"@, "repo_clone_and_summarize"@)
        .insert("repo_find_models"@, "repo_find_models"@)
        .insert("repo_extract_requirements"@, "repo_extract_requirements"@)
        .insert("repo_find_entrypoints"@, "repo_find_entrypoints"@)
        .insert("repo_extract_io_shapes"@, "repo_extract_io_shapes"@)
        .insert("repo_get_health"@, "repo_get_health"@)
        .insert("repo_find_export_paths"@, "repo_find_export_paths"@)
        .insert("repo_extract_config_schema"@, "repo_extract_config_schema"@)
        .insert("repo_diff_requirements"@, "repo_diff_requirements"@)
        .insert("hn_search"@, "hn_search"@)
        .insert("hn_get_thread"@, "hn_get_thread"@)
        .insert("zotero_search"@, "zotero_search"@)
        .insert("zotero_get_collections"@, "zotero_get_collections"@)
}

pub proof fn lemma_reveal_tool_ids()
    ensures
        "paper_search"@ =~= seq!['p', 'a', 'p', 'e', 'r', '_', 's', 'e', 'a', 'r', 'c', 'h'],
        "paper_get"@ =~= seq!['p', 'a', 'p', 'e', 'r', '_', 'g', 'e', 't'],
        "paper_citations"@ =~= seq!['p', 'a', 'p', 'e', 'r', '_', 'c', 'i', 't', 'a', 't', 'i', 'o', 'n', 's'],
        "paper_references"@ =~= seq!['p', 'a', 'p', 'e', 'r', '_', 'r', 'e', 'f', 'e', 'r', 'e', 'n', 'c', 'e', 's'],
        "paper_recommendations"@ =~= seq!['p', 'a', 'p', 'e', 'r', '_', 'r', 'e', 'c', 'o', 'm', 'm', 'e', 'n', 'd', 'a', 't', 'i', 'o', 'n', 's'],
        "repo_clone_and_summarize"@ =~= seq!['r', 'e', 'p', 'o', '_', 'c', 'l', 'o', 'n', 'e', '_', 'a', 'n', 'd', '_', 's', 'u', 'm', 'm', 'a', 'r', 'i', 'z', 'e'],
        "repo_find_models"@ =~= seq!['r', 'e', 'p', 'o', '_', 'f', 'i', 'n', 'd', '_', 'm', 'o', 'd', 'e', 'l', 's'],
        "repo_extract_requirements"@ =~= seq!['r', 'e', 'p', 'o', '_', 'e', 'x', 't', 'r', 'a', 'c', 't', '_', 'r', 'e', 'q', 'u', 'i', 'r', 'e', 'm', 'e', 'n', 't', 's'],
        "repo_find_entrypoints"@ =~= seq!['r', 'e', 'p', 'o', '_', 'f', 'i', 'n', 'd', '_', 'e', 'n', 't', 'r', 'y', 'p', 'o', 'i', 'n', 't', 's'],
        "repo_extract_io_shapes"@ =~= seq!['r', 'e', 'p', 'o', '_', 'e', 'x', 't', 'r', 'a', 'c', 't', '_', 'i', 'o', '_', 's', 'h', 'a', 'p', 'e', 's'],
        "repo_get_health"@ =~= seq!['r', 'e', 'p', 'o', '_', 'g', 'e', 't', '_', 'h', 'e', 'a', 'l', 't', 'h'],
        "repo_find_export_paths"@ =~= seq!['r', 'e', 'p', 'o', '_', 'f', 'i', 'n', 'd', '_', 'e', 'x', 'p', 'o', 'r', 't', '_', 'p', 'a', 't', 'h', 's'],
        "repo_extract_config_schema"@ =~= seq!['r', 'e', 'p', 'o', '_', 'e', 'x', 't', 'r', 'a', 'c', 't', '_', 'c', 'o', 'n', 'f', 'i', 'g', '_', 's', 'c', 'h', 'e', 'm', 'a'],
        "repo_diff_requirements"@ =~= seq!['r', 'e', 'p', 'o', '_', 'd', 'i', 'f', 'f', '_', 'r', 'e', 'q', 'u', 'i', 'r', 'e', 'm', 'e', 'n', 't', 's'],
        "hn_search"@ =~= seq!['h', 'n', '_', 's', 'e', 'a', 'r', 'c', 'h'],
        "hn_get_thread"@ =~= seq!['h', 'n', '_', 'g', 'e', 't', '_', 't', 'h', 'r', 'e', 'a', 'd'],
        "zotero_search"@ =~= seq!['z', 'o', 't', 'e', 'r', 'o', '_', 's', 'e', 'a', 'r', 'c', 'h'],
        "zotero_get_collections"@ =~= seq!['z', 'o', 't', 'e', 'r', 'o', '_', 'g', 'e', 't', '_', 'c', 'o', 'l', 'l', 'e', 'c', 't', 'i', 'o', 'n', 's'],
{
    reveal_strlit("paper_search");
    reveal_strlit("paper_get");
    reveal_strlit("paper_citations");
    reveal_strlit("paper_references");
    reveal_strlit("paper_recommendations");
    reveal_strlit("repo_clone_and_summarize");
    reveal_strlit("repo_find_models");
    reveal_strlit("repo_extract_requirements");
    reveal_strlit("repo_find_entrypoints");
    reveal_strlit("repo_extract_io_shapes");
    reveal_strlit("repo_get_health");
    reveal_strlit("repo_find_export_paths");
    reveal_strlit("repo_extract_config_schema");
    reveal_strlit("repo_diff_requirements");
    reveal_strlit("hn_search");
    reveal_strlit("hn_get_thread");
    reveal_strlit("zotero_search");
    reveal_strlit("zotero_get_collections");
}

impl Default for ResearchToolNames {
    fn default() -> (n: Self)
        ensures
            n.names() == default_names(),
    {
        ResearchToolNames {
            paper_search: String::from_str("paper_search"),
            paper_get: String::from_str("paper_get"),
            paper_citations: String::from_str("paper_citations"),
            paper_references: String::from_str("paper_references"),
            paper_recommendations: String::from_str("paper_recommendations"),
            repo_clone_and_summarize: String::from_str("repo_clone_and_summarize"),
            repo_find_models: String::from_str("repo_find_models"),
            repo_extract_requirements: String::from_str("repo_extract_requirements"),
            repo_find_entrypoints: String::from_str("repo_find_entrypoints"),
            repo_extract_io_shapes: String::from_str("repo_extract_io_shapes"),
            repo_get_health: String::from_str("repo_get_health"),
            repo_find_export_paths: String::from_str("repo_find_export_paths"),
            repo_extract_config_schema: String::from_str("repo_extract_config_schema"),
            repo_diff_requirements: String::from_str("repo_diff_requirements"),
            hn_search: String::from_str("hn_search"),
            hn_get_thread: String::from_str("hn_get_thread"),
            zotero_search: String::from_str("zotero_search"),
            zotero_get_collections: String::from_str("zotero_get_collections"),
        }
    }
}

impl ResearchToolNames {
    /// Sets the name of the tool with this id; ids outside the resolvable set
    /// are ignored.
    pub fn set_name_for_id(&mut self, id: &str, resolved_name: String)
        ensures
            final(self).names() == if resolvable_id(id@) {
                old(self).names().insert(id@, resolved_name@)
            } else {
                old(self).names()
            },
    {
        proof {
            lemma_reveal_tool_ids();
        }
        let idc = chars_of(id);
        if eq_chars(&idc, &chars_of("paper_search")) {
            self.paper_search = resolved_name;
            assert(final(self).names() =~= old(self).names().insert(id@, resolved_name@));
        } else if eq_chars(&idc, &chars_of("paper_get")) {
            self.paper_get = resolved_name;
            assert(final(self).names() =~= old(self).names().insert(id@, resolved_name@));
        } else if eq_chars(&idc, &chars_of("paper_citations")) {
            self.paper_citations = resolved_name;
            assert(final(self).names() =~= old(self).names().insert(id@, resolved_name@));
        } else if eq_chars(&idc, &chars_of("paper_references")) {
            self.paper_references = resolved_name;
            assert(final(self).names() =~= old(self).names().insert(id@, resolved_name@));
        } else if eq_chars(&idc, &chars_of("paper_recommendations")) {
            self.paper_recommendations = resolved_name;
            assert(final(self).names() =~= old(self).names().insert(id@, resolved_name@));
        } else if eq_chars(&idc, &chars_of("repo_clone_and_summarize")) {
            self.repo_clone_and_summarize = resolved_name;
            assert(final(self).names() =~= old(self).names().insert(id@, resolved_name@));
        } else if eq_chars(&idc, &chars_of("repo_find_models")) {
            self.repo_find_models = resolved_name;
            assert(final(self).names() =~= old(self).names().insert(id@, resolved_name@));
        } else if eq_chars(&idc, &chars_of("repo_extract_requirements")) {
            self.repo_extract_requirements = resolved_name;
            assert(final(self).names() =~= old(self).names().insert(id@, resolved_name@));
        } else if eq_chars(&idc, &chars_of("repo_find_entrypoints")) {
            self.repo_find_entrypoints = resolved_name;
            assert(final(self).names() =~= old(self).names().insert(id@, resolved_name@));
        } else if eq_chars(&idc, &chars_of("repo_extract_io_shapes")) {
            self.repo_extract_io_shapes = resolved_name;
            assert(final(self).names() =~= old(self).names().insert(id@, resolved_name@));
        } else if eq_chars(&idc, &chars_of("repo_get_health")) {
            self.repo_get_health = resolved_name;
            assert(final(self).names() =~= old(self).names().insert(id@, resolved_name@));
        } else if eq_chars(&idc, &chars_of("repo_find_export_paths")) {
            self.repo_find_export_paths = resolved_name;
            assert(final(self).names() =~= old(self).names().insert(id@, resolved_name@));
        } else if eq_chars(&idc, &chars_of("repo_extract_config_schema")) {
            self.repo_extract_config_schema = resolved_name;
            assert(final(self).names() =~= old(self).names().insert(id@, resolved_name@));
        } else if eq_chars(&idc, &chars_of("repo_diff_requirements")) {
            self.repo_diff_requirements = resolved_name;
            assert(final(self).names() =~= old(self).names().insert(id@, resolved_name@));
        } else if eq_chars(&idc, &chars_of("hn_search")) {
            self.hn_search = resolved_name;
            assert(final(self).names() =~= old(self).names().insert(id@, resolved_name@));
        } else if eq_chars(&idc, &chars_of("hn_get_thread")) {
            self.hn_get_thread = resolved_name;
            assert(final(self).names() =~= old(self).names().insert(id@, resolved_name@));
        } else {
            assert(!resolvable_id(id@));
        }
    }
}

/// A research tool as the tool catalogue describes it: its id, the name of
/// its built-in implementation, and the name it goes by on MCP servers.
#[derive(Clone, Debug)]
pub struct ToolDef {
    pub id: String,
    pub native_name: String,
    pub mcp_name: String,
}

/// A tool offered by an MCP server: its qualified name (the key under which
/// it is registered) and the tool's own name.
#[derive(Clone, Debug)]
pub struct McpTool {
    pub qualified_name: String,
    pub name: String,
}

/// Whether an MCP tool answers to `mcp_name`: by its own name, or by the last
/// `__`-separated piece of its qualified name.
pub open spec fn mcp_tool_matches(mcp_name: Seq<char>, t: McpTool) -> bool {
    t.name@ == mcp_name || split_last_piece(t.qualified_name@, "__"@) == mcp_name
}

/// The qualified names of the tools that answer to `mcp_name`, in order.
pub open spec fn matching_tools(tools: Seq<McpTool>, mcp_name: Seq<char>) -> Seq<Seq<char>>
    decreases tools.len(),
{
    if tools.len() == 0 {
        seq![]
    } else {
        let prev = matching_tools(tools.drop_last(), mcp_name);
        if mcp_tool_matches(mcp_name, tools.last()) {
            prev.push(tools.last().qualified_name@)
        } else {
            prev
        }
    }
}

/// `m` with the name of tool `id` set to `name`, where `id` is resolvable.
pub open spec fn with_name(m: Map<Seq<char>, Seq<char>>, id: Seq<char>, name: Seq<char>) -> Map<
    Seq<char>,
    Seq<char>,
> {
    if resolvable_id(id) {
        m.insert(id, name)
    } else {
        m
    }
}

/// The names after taking each definition's built-in name, in order.
pub open spec fn native_names(defs: Seq<ToolDef>) -> Map<Seq<char>, Seq<char>>
    decreases defs.len(),
{
    if defs.len() == 0 {
        default_names()
    } else {
        with_name(native_names(defs.drop_last()), defs.last().id@, defs.last().native_name@)
    }
}

/// The names after taking, for each definition in order, the first MCP tool
/// that answers to its MCP name; a definition with no such tool keeps its name.
pub open spec fn mcp_names(defs: Seq<ToolDef>, tools: Seq<McpTool>) -> Map<Seq<char>, Seq<char>>
    decreases defs.len(),
{
    if defs.len() == 0 {
        default_names()
    } else {
        let prev = mcp_names(defs.drop_last(), tools);
        let found = matching_tools(tools, defs.last().mcp_name@);
        if found.len() > 0 {
            with_name(prev, defs.last().id@, found[0])
        } else {
            prev
        }
    }
}

fn tool_answers_to(name: &Vec<char>, sep: &Vec<char>, t: &McpTool) -> (b: bool)
    requires
        sep@ == "__"@,
        sep@.len() == 2,
    ensures
        b == mcp_tool_matches(name@, *t),
{
    let own = chars_of(t.name.as_str());
    let qualified = chars_of(t.qualified_name.as_str());
    let last = split_last_piece_of(qualified.as_slice(), sep.as_slice());
    eq_chars(&own, name) || eq_chars(&last, name)
}

/// Whether the tools are listed as the MCP registry holds them: keyed by
/// qualified name, keys strictly ascending.
pub open spec fn in_registry_order(tools: Seq<McpTool>) -> bool {
    forall|i: int, j: int|
        0 <= i < j < tools.len() ==> str_leq((#[trigger] tools[i]).qualified_name@, (#[trigger] tools[j]).qualified_name@)
            && tools[i].qualified_name@ != tools[j].qualified_name@
}

/// The qualified names of the MCP tools that answer to `mcp_name`, in the
/// registry's key order.
pub fn find_mcp_tool_matches(mcp_name: &str, mcp_tools: &[McpTool]) -> (r: Vec<String>)
    requires
        in_registry_order(mcp_tools@),
    ensures
        string_views(r@) == matching_tools(mcp_tools@, mcp_name@),
{
    let name = chars_of(mcp_name);
    let sep = chars_of("__");
    proof {
        reveal_strlit("__");
    }
    let mut r: Vec<String> = Vec::new();
    let mut k: usize = 0;
    while k < mcp_tools.len()
        invariant
            k <= mcp_tools@.len(),
            name@ == mcp_name@,
            sep@ == "__"@,
            sep@.len() == 2,
            string_views(r@) == matching_tools(mcp_tools@.take(k as int), mcp_name@),
        decreases mcp_tools@.len() - k,
    {
        let t = &mcp_tools[k];
        let hit = tool_answers_to(&name, &sep, t);
        assert(mcp_tools@.take(k + 1).drop_last() =~= mcp_tools@.take(k as int));
        let ghost prev = r@;
        if hit {
            r.push(t.qualified_name.clone());
            assert(string_views(r@) =~= string_views(prev).push(t.qualified_name@));
        }
        assert(string_views(r@) == matching_tools(mcp_tools@.take(k + 1), mcp_name@));
        k = k + 1;
    }
    assert(mcp_tools@.take(mcp_tools@.len() as int) =~= mcp_tools@);
    r
}

/// What a registry keyed by qualified name holds after the tools are inserted
/// in turn: each key's tool name, a later tool replacing an earlier one.
pub open spec fn registry_view(tools: Seq<McpTool>) -> Map<Seq<char>, Seq<char>>
    decreases tools.len(),
{
    if tools.len() == 0 {
        Map::empty()
    } else {
        registry_view(tools.drop_last()).insert(tools.last().qualified_name@, tools.last().name@)
    }
}

/// Whether `listed` holds exactly the entries of `m`: every listed tool is an
/// entry of `m`, and every key of `m` is listed.
pub open spec fn lists_registry(listed: Seq<McpTool>, m: Map<Seq<char>, Seq<char>>) -> bool {
    &&& forall|i: int|
        0 <= i < listed.len() ==> m.contains_key(#[trigger] listed[i].qualified_name@)
            && m[listed[i].qualified_name@] == listed[i].name@
    &&& forall|key: Seq<char>|
        #[trigger] m.contains_key(key) ==> exists|i: int|
            0 <= i < listed.len() && #[trigger] listed[i].qualified_name@ == key
}

proof fn lemma_insert_keeps_registry_order(r: Seq<McpTool>, p: int, t: McpTool)
    requires
        in_registry_order(r),
        0 <= p <= r.len(),
        forall|j: int| 0 <= j < p ==> !str_leq(t.qualified_name@, #[trigger] r[j].qualified_name@),
        p < r.len() ==> str_leq(t.qualified_name@, r[p].qualified_name@) && t.qualified_name@
            != r[p].qualified_name@,
    ensures
        in_registry_order(r.insert(p, t)),
{
    let s = r.insert(p, t);
    let k = t.qualified_name@;
    assert forall|i: int, j: int| 0 <= i < j < s.len() implies str_leq(
        (#[trigger] s[i]).qualified_name@,
        (#[trigger] s[j]).qualified_name@,
    ) && s[i].qualified_name@ != s[j].qualified_name@ by {
        if j < p {
            assert(s[i] == r[i] && s[j] == r[j]);
        } else if i > p {
            assert(s[i] == r[i - 1] && s[j] == r[j - 1]);
        } else if i == p {
            assert(s[j] == r[j - 1]);
            if j - 1 > p {
                assert(str_leq(r[p].qualified_name@, r[j - 1].qualified_name@));
                lemma_leq_transitive(k, r[p].qualified_name@, r[j - 1].qualified_name@);
                if k == r[j - 1].qualified_name@ {
                    lemma_leq_antisymmetric(k, r[p].qualified_name@);
                }
            }
        } else if j == p {
            assert(s[i] == r[i]);
            lemma_leq_total(k, r[i].qualified_name@);
            if k == r[i].qualified_name@ {
                lemma_leq_reflexive(k);
            }
        } else {
            assert(i < p && p < j);
            assert(s[i] == r[i] && s[j] == r[j - 1]);
        }
    }
}

/// The tools as a registry keyed by qualified name lists them: in ascending key
/// order, one tool per key, a later tool replacing an earlier one with the
/// same key.
pub fn registry_order(tools: &[McpTool]) -> (r: Vec<McpTool>)
    ensures
        in_registry_order(r@),
        lists_registry(r@, registry_view(tools@)),
{
    let mut r: Vec<McpTool> = Vec::new();
    let mut k: usize = 0;
    while k < tools.len()
        invariant
            k <= tools@.len(),
            in_registry_order(r@),
            lists_registry(r@, registry_view(tools@.take(k as int))),
        decreases tools@.len() - k,
    {
        let t = &tools[k];
        assert(tools@.take(k + 1).drop_last() =~= tools@.take(k as int));
        let ghost old_map = registry_view(tools@.take(k as int));
        let ghost new_map = old_map.insert(t.qualified_name@, t.name@);
        assert(registry_view(tools@.take(k + 1)) == new_map);
        let mut p: usize = 0;
        while p < r.len() && !str_leq_chars(t.qualified_name.as_str(), r[p].qualified_name.as_str())
            invariant
                p <= r@.len(),
                forall|j: int|
                    0 <= j < p ==> !str_leq(t.qualified_name@, #[trigger] r@[j].qualified_name@),
            decreases r@.len() - p,
        {
            p = p + 1;
        }
        let entry = McpTool { qualified_name: t.qualified_name.clone(), name: t.name.clone() };
        let ghost before = r@;
        if p < r.len() && r[p].qualified_name == t.qualified_name {
            r.set(p, entry);
            assert(r@ =~= before.update(p as int, entry));
            assert forall|i: int, j: int| 0 <= i < j < r@.len() implies str_leq(
                (#[trigger] r@[i]).qualified_name@,
                (#[trigger] r@[j]).qualified_name@,
            ) && r@[i].qualified_name@ != r@[j].qualified_name@ by {
                assert(before[i].qualified_name@ == r@[i].qualified_name@);
                assert(before[j].qualified_name@ == r@[j].qualified_name@);
            }
            assert forall|i: int| 0 <= i < r@.len() implies new_map.contains_key(
                #[trigger] r@[i].qualified_name@,
            ) && new_map[r@[i].qualified_name@] == r@[i].name@ by {
                if i != p {
                    assert(r@[i] == before[i]);
                    assert(before[i].qualified_name@ != before[p as int].qualified_name@);
                }
            }
            assert forall|key: Seq<char>| #[trigger] new_map.contains_key(key) implies exists|i: int|
                0 <= i < r@.len() && #[trigger] r@[i].qualified_name@ == key by {
                if key == t.qualified_name@ {
                    assert(r@[p as int].qualified_name@ == key);
                } else {
                    assert(old_map.contains_key(key));
                    let i = choose|i: int| 0 <= i < before.len() && #[trigger] before[i].qualified_name@ == key;
                    assert(r@[i].qualified_name@ == key);
                }
            }
        } else {
            proof {
                lemma_insert_keeps_registry_order(before, p as int, entry);
            }
            r.insert(p, entry);
            assert forall|i: int| 0 <= i < r@.len() implies new_map.contains_key(
                #[trigger] r@[i].qualified_name@,
            ) && new_map[r@[i].qualified_name@] == r@[i].name@ by {
                if i < p {
                    assert(r@[i] == before[i]);
                    assert(before[i].qualified_name@ != t.qualified_name@) by {
                        if before[i].qualified_name@ == t.qualified_name@ {
                            lemma_leq_reflexive(t.qualified_name@);
                        }
                    }
                } else if i > p {
                    assert(r@[i] == before[i - 1]);
                    assert(r@[p as int].qualified_name@ != r@[i].qualified_name@);
                }
            }
            assert forall|key: Seq<char>| #[trigger] new_map.contains_key(key) implies exists|i: int|
                0 <= i < r@.len() && #[trigger] r@[i].qualified_name@ == key by {
                if key == t.qualified_name@ {
                    assert(r@[p as int].qualified_name@ == key);
                } else {
                    assert(old_map.contains_key(key));
                    let i = choose|i: int| 0 <= i < before.len() && #[trigger] before[i].qualified_name@ == key;
                    if i < p {
                        assert(r@[i].qualified_name@ == key);
                    } else {
                        assert(r@[i + 1].qualified_name@ == key);
                    }
                }
            }
        }
        k = k + 1;
    }
    assert(tools@.take(tools@.len() as int) =~= tools@);
    r
}

impl ResearchToolNames {
    /// The names under which the built-in implementations of `defs` run.
    pub fn from_native(defs: &[ToolDef]) -> (names: Self)
        ensures
            names.names() == native_names(defs@),
    {
        let mut names = Self::default();
        let mut k: usize = 0;
        while k < defs.len()
            invariant
                k <= defs@.len(),
                names.names() == native_names(defs@.take(k as int)),
            decreases defs@.len() - k,
        {
            assert(defs@.take(k + 1).drop_last() =~= defs@.take(k as int));
            names.set_name_for_id(defs[k].id.as_str(), defs[k].native_name.clone());
            k = k + 1;
        }
        assert(defs@.take(defs@.len() as int) =~= defs@);
        names
    }

    /// The names under which `mcp_tools` offer the tools of `defs`: for each
    /// definition the first tool that answers to its MCP name, else the
    /// built-in default. The tools come in the registry's key order, so the
    /// first match is the one with the least qualified name.
    pub fn from_mcp_tools(defs: &[ToolDef], mcp_tools: &[McpTool]) -> (names: Self)
        requires
            in_registry_order(mcp_tools@),
        ensures
            names.names() == mcp_names(defs@, mcp_tools@),
    {
        let mut names = Self::default();
        let mut k: usize = 0;
        while k < defs.len()
            invariant
                k <= defs@.len(),
                names.names() == mcp_names(defs@.take(k as int), mcp_tools@),
                in_registry_order(mcp_tools@),
            decreases defs@.len() - k,
        {
            assert(defs@.take(k + 1).drop_last() =~= defs@.take(k as int));
            let matches = find_mcp_tool_matches(defs[k].mcp_name.as_str(), mcp_tools);
            if matches.len() > 0 {
                assert(string_views(matches@)[0] == matches@[0]@);
                names.set_name_for_id(defs[k].id.as_str(), matches[0].clone());
            }
            k = k + 1;
        }
        assert(defs@.take(defs@.len() as int) =~= defs@);
        names
    }
}

/// Which groups of research tools are on offer.
#[derive(Clone, Copy, Debug, PartialEq, Eq, Structural)]
pub struct ResearchToolAvailability {
    pub has_paper_search: bool,
    pub has_zotero: bool,
    pub has_repo_analysis: bool,
    pub has_hackernews: bool,
}

impl Default for ResearchToolAvailability {
    fn default() -> (a: Self)
        ensures
            !a.has_paper_search && !a.has_zotero && !a.has_repo_analysis && !a.has_hackernews,
    {
        ResearchToolAvailability {
            has_paper_search: false,
            has_zotero: false,
            has_repo_analysis: false,
            has_hackernews: false,
        }
    }
}

/// The tool names and their availability, as the research prompt needs them.
#[derive(Debug)]
pub struct ResearchToolContext {
    pub names: ResearchToolNames,
    pub availability: ResearchToolAvailability,
}

/// Whether some definition has this id.
pub open spec fn has_id(defs: Seq<ToolDef>, id: Seq<char>) -> bool {
    exists|i: int| 0 <= i < defs.len() && #[trigger] defs[i].id@ == id
}

fn has_tool_id(defs: &[ToolDef], id: &str) -> (b: bool)
    ensures
        b == has_id(defs@, id@),
{
    let want = chars_of(id);
    let mut k: usize = 0;
    while k < defs.len()
        invariant
            k <= defs@.len(),
            want@ == id@,
            forall|i: int| 0 <= i < k ==> defs@[i].id@ != id@,
        decreases defs@.len() - k,
    {
        if eq_chars(&chars_of(defs[k].id.as_str()), &want) {
            return true;
        }
        k = k + 1;
    }
    false
}

/// The availability that the built-in tools `defs` give: paper search, repo
/// analysis and Hacker News where their defining tools are present; Zotero
/// never.
pub fn native_tool_availability(defs: &[ToolDef]) -> (a: ResearchToolAvailability)
    ensures
        a.has_paper_search == has_id(defs@, "paper_search"@),
        a.has_repo_analysis == has_id(defs@, "repo_find_entrypoints"@),
        a.has_hackernews == has_id(defs@, "hn_search"@),
        !a.has_zotero,
{
    ResearchToolAvailability {
        has_paper_search: has_tool_id(defs, "paper_search"),
        has_zotero: false,
        has_repo_analysis: has_tool_id(defs, "repo_find_entrypoints"),
        has_hackernews: has_tool_id(defs, "hn_search"),
    }
}

} // verus!
