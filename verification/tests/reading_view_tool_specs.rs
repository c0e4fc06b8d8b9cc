use codex_core::reading_view::reading_view_display_mode_guidance;
use codex_core::reading_view_tool_specs::add_document_section_tool;
use codex_core::reading_view_tool_specs::append_to_section_tool;
use codex_core::reading_view_tool_specs::patch_document_section_tool;
use codex_core::reading_view_tool_specs::present_document_tool;
use codex_core::reading_view_tool_specs::update_document_section_tool;
use codex_core::tool_specs::ParamKind;

fn names(params: &[codex_core::tool_specs::ToolParam]) -> Vec<&str> {
    params.iter().map(|p| p.name.as_str()).collect()
}

#[test]
fn present_tool_requires_only_the_document_id() {
    let t = present_document_tool();
    assert_eq!(t.spec.name, "present_reading_view");
    assert_eq!(names(&t.spec.params), vec!["content", "document_id", "title"]);
    assert_eq!(t.spec.required, vec!["document_id".to_string()]);
    assert!(!t.spec.additional_properties);
    assert!(t.description.contains(reading_view_display_mode_guidance()));
    assert!(t.description.starts_with("Present structured content in a sectioned reading view"));
    assert!(t.description.ends_with("pass only the document_id."));
    assert!(t.description.contains("latex=\"\\\\sum_{i=1}^n x_i\""));
}

#[test]
fn section_tools_declare_their_parameters() {
    let update = update_document_section_tool();
    assert_eq!(update.spec.name, "update_document_section");
    assert_eq!(
        update.spec.required,
        vec!["document_id".to_string(), "section_index".to_string(), "content".to_string()]
    );
    assert_eq!(update.spec.params[2].kind, ParamKind::Number);
    assert!(update.description.contains("Content style: write straight prose"));

    let append = append_to_section_tool();
    assert_eq!(names(&append.spec.params), vec!["content", "document_id", "foldable", "section_index", "summary"]);
    assert_eq!(append.spec.params[2].kind, ParamKind::Boolean);
    assert!(append.description.contains("SUMMARY (required)"));
    assert!(append.description.contains("FOLDABLE CONTENT"));

    let patch = patch_document_section_tool();
    assert_eq!(
        patch.spec.required,
        vec![
            "document_id".to_string(),
            "section_index".to_string(),
            "old_text".to_string(),
            "new_text".to_string()
        ]
    );
    assert!(patch.description.contains("'<that same passage>\\n\\n<your answer>'"));

    let add = add_document_section_tool();
    assert_eq!(add.spec.name, "add_document_section");
    assert_eq!(add.spec.params[0].name, "after_section_index");
    assert!(add.description.contains("existing content \u{2014} use"));
}
