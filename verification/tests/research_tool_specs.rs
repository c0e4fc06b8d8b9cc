use codex_core::research_tool_specs::create_dataset_get_tool;
use codex_core::research_tool_specs::create_dataset_search_tool;
use codex_core::research_tool_specs::create_js_repl_tool;
use codex_core::research_tool_specs::create_paper_get_tool;
use codex_core::research_tool_specs::create_paper_search_tool;
use codex_core::research_tool_specs::create_repo_find_entrypoints_tool;
use codex_core::research_tool_specs::create_zotero_list_groups_tool;
use codex_core::research_tool_specs::DescribedTool;
use codex_core::research_tool_specs::PAPER_SEARCH_DESCRIPTION;
use codex_core::tool_specs::ParamKind;

fn names(t: &DescribedTool) -> Vec<&str> {
    t.spec.params.iter().map(|p| p.name.as_str()).collect()
}

#[test]
fn js_repl_tool_has_required_code_param() {
    let t = create_js_repl_tool();
    assert_eq!(t.spec.name, "js_repl");
    assert!(names(&t).contains(&"code"));
    assert_eq!(t.spec.required, vec!["code".to_string()]);
    assert!(!t.spec.additional_properties);
}

#[test]
fn paper_search_tool_lists_its_parameters_in_key_order() {
    let t = create_paper_search_tool();
    assert_eq!(t.spec.name, "paper_search");
    assert_eq!(t.description, PAPER_SEARCH_DESCRIPTION);
    assert_eq!(
        names(&t),
        vec!["include_abstract", "limit", "query", "year_from", "year_to"]
    );
    assert_eq!(t.spec.required, vec!["query".to_string()]);
    assert!(t.spec.additional_properties);
    assert!(!t.spec.strict);
    assert_eq!(t.spec.params[1].kind, ParamKind::Integer);
    assert_eq!(t.spec.params[0].kind, ParamKind::Boolean);
}

#[test]
fn paper_get_tool_requires_the_paper_id() {
    let t = create_paper_get_tool();
    assert_eq!(names(&t), vec!["paper_id"]);
    assert_eq!(t.spec.required, vec!["paper_id".to_string()]);
}

#[test]
fn dataset_tools_accept_no_other_keys() {
    let search = create_dataset_search_tool();
    assert_eq!(search.spec.name, "dataset_search");
    assert!(!search.spec.additional_properties);
    assert_eq!(names(&search), vec!["limit", "query", "source"]);
    assert_eq!(search.spec.params[0].kind, ParamKind::Number);
    let get = create_dataset_get_tool();
    assert_eq!(get.spec.name, "dataset_get");
    assert!(!get.spec.additional_properties);
}

#[test]
fn research_tools_without_required_keys() {
    let t = create_zotero_list_groups_tool();
    assert_eq!(t.spec.name, "zotero_list_groups");
    assert!(t.spec.required.is_empty());
}

#[test]
fn every_research_tool_sorts_its_parameters() {
    let tools = vec![
        create_paper_search_tool(),
        create_repo_find_entrypoints_tool(),
        create_dataset_search_tool(),
        create_js_repl_tool(),
    ];
    for t in &tools {
        let n = names(t);
        let mut sorted = n.clone();
        sorted.sort();
        assert_eq!(n, sorted);
    }
}
