use codex_core::research_tools::{
    find_mcp_tool_matches, native_tool_availability, registry_order, McpTool, ResearchToolAvailability, ResearchToolNames,
    ToolDef,
};

fn def(id: &str, native_name: &str, mcp_name: &str) -> ToolDef {
    ToolDef { id: id.to_string(), native_name: native_name.to_string(), mcp_name: mcp_name.to_string() }
}

fn all_tool_defs() -> Vec<ToolDef> {
    vec![
        def("paper_search", "paper_search", "search_papers"),
        def("paper_get", "paper_get", "get_paper"),
        def("repo_find_entrypoints", "repo_find_entrypoints", "find_entrypoints"),
        def("hn_search", "hn_search", "search_hn"),
    ]
}

fn mcp_tool(qualified_name: &str, name: &str) -> McpTool {
    McpTool { qualified_name: qualified_name.to_string(), name: name.to_string() }
}

#[test]
fn from_native_uses_tool_def_native_names() {
    let defs = all_tool_defs();
    let names = ResearchToolNames::from_native(&defs);
    assert_eq!(names.paper_search, "paper_search");
    assert_eq!(names.repo_find_entrypoints, "repo_find_entrypoints");
}

#[test]
fn from_native_takes_each_native_name() {
    let defs = vec![def("paper_get", "native_paper_get", "get_paper"), def("unknown_tool", "x", "y")];
    let names = ResearchToolNames::from_native(&defs);
    assert_eq!(names.paper_get, "native_paper_get");
    assert_eq!(names.paper_search, "paper_search");
}

#[test]
fn from_mcp_tools_matches_qualified_tool_suffix() {
    let defs = all_tool_defs();
    let mcp_tools = vec![mcp_tool("mcp__my_paper_search__search_papers", "search_papers")];
    let names = ResearchToolNames::from_mcp_tools(&defs, &mcp_tools);
    assert_eq!(names.paper_search, "mcp__my_paper_search__search_papers");
    assert_eq!(names.repo_find_entrypoints, "repo_find_entrypoints");
}

#[test]
fn from_mcp_tools_uses_deterministic_first_match_when_ambiguous() {
    let defs = all_tool_defs();
    let mcp_tools = vec![
        mcp_tool("mcp__a__search_papers", "search_papers"),
        mcp_tool("mcp__z__search_papers", "search_papers"),
    ];
    let names = ResearchToolNames::from_mcp_tools(&defs, &mcp_tools);
    assert_eq!(names.paper_search, "mcp__a__search_papers");
}

#[test]
fn from_mcp_tools_matches_tool_name_when_qualified_name_is_truncated() {
    let defs = all_tool_defs();
    let mcp_tools =
        vec![mcp_tool("mcp__very_long_server9f8e7d6c5b4a32100112233445566778899aabb", "search_papers")];
    let names = ResearchToolNames::from_mcp_tools(&defs, &mcp_tools);
    assert_eq!(names.paper_search, "mcp__very_long_server9f8e7d6c5b4a32100112233445566778899aabb");
}

#[test]
fn find_mcp_tool_matches_keeps_order_and_uses_last_piece() {
    let mcp_tools = vec![
        mcp_tool("mcp__a__get_paper", "other"),
        mcp_tool("mcp__b__get_paper_v2", "other"),
        mcp_tool("mcp__c___get_paper", "other"),
        mcp_tool("plain", "get_paper"),
    ];
    let matches = find_mcp_tool_matches("get_paper", &mcp_tools);
    assert_eq!(matches, vec!["mcp__a__get_paper".to_string(), "plain".to_string()]);
    let underscored = find_mcp_tool_matches("_get_paper", &mcp_tools);
    assert_eq!(underscored, vec!["mcp__c___get_paper".to_string()]);
}

#[test]
fn native_tool_availability_matches_build_features() {
    let availability = native_tool_availability(&all_tool_defs());
    assert!(availability.has_paper_search);
    assert!(!availability.has_zotero);
    assert!(availability.has_repo_analysis);
    assert!(availability.has_hackernews);
    let none = native_tool_availability(&[]);
    assert_eq!(none, ResearchToolAvailability::default());
}

#[test]
fn default_names_are_the_tool_ids() {
    let names = ResearchToolNames::default();
    assert_eq!(names.hn_get_thread, "hn_get_thread");
    assert_eq!(names.zotero_search, "zotero_search");
    assert_eq!(names.zotero_get_collections, "zotero_get_collections");
}

#[test]
fn registry_order_sorts_by_key_and_keeps_the_later_duplicate() {
    let tools = vec![
        mcp_tool("mcp__z__search_papers", "search_papers"),
        mcp_tool("mcp__a__search_papers", "old_name"),
        mcp_tool("mcp__m__other", "other"),
        mcp_tool("mcp__a__search_papers", "search_papers"),
    ];
    let ordered = registry_order(&tools);
    let keys: Vec<&str> = ordered.iter().map(|t| t.qualified_name.as_str()).collect();
    assert_eq!(keys, vec!["mcp__a__search_papers", "mcp__m__other", "mcp__z__search_papers"]);
    assert_eq!(ordered[0].name, "search_papers");
    let names = ResearchToolNames::from_mcp_tools(&all_tool_defs(), &ordered);
    assert_eq!(names.paper_search, "mcp__a__search_papers");
}
