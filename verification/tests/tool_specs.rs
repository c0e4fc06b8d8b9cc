use codex_core::tool_specs::create_code_intel_tool;
use codex_core::tool_specs::create_lsp_tool;
use codex_core::tool_specs::ParamKind;

#[test]
fn lsp_tool_declares_its_parameters_in_key_order() {
    let t = create_lsp_tool();
    assert_eq!(t.name, "lsp");
    assert_eq!(t.required, vec!["operation".to_string()]);
    assert!(!t.additional_properties && !t.strict);
    let names: Vec<&str> = t.params.iter().map(|p| p.name.as_str()).collect();
    let mut sorted = names.clone();
    sorted.sort();
    assert_eq!(names, sorted);
    assert_eq!(names.len(), 15);
    let fuzz = t.params.iter().find(|p| p.name == "fuzz").unwrap();
    assert_eq!(fuzz.kind, ParamKind::Boolean);
    let item = t.params.iter().find(|p| p.name == "item").unwrap();
    assert_eq!(item.kind, ParamKind::OpenObject);
    assert!(item.description.is_none());
    let limit = t.params.iter().find(|p| p.name == "limit").unwrap();
    assert_eq!(limit.description.as_deref(), Some("Result limit (default 10, max 50)."));
}

#[test]
fn code_intel_tool_declares_its_parameters_in_key_order() {
    let t = create_code_intel_tool();
    assert_eq!(t.name, "code_intel");
    assert_eq!(t.required, vec!["operation".to_string()]);
    let names: Vec<&str> = t.params.iter().map(|p| p.name.as_str()).collect();
    let mut sorted = names.clone();
    sorted.sort();
    assert_eq!(names, sorted);
    assert_eq!(names.len(), 17);
    let op = t.params.iter().find(|p| p.name == "operation").unwrap();
    assert_eq!(op.kind, ParamKind::String);
    assert!(op.description.as_deref().unwrap().starts_with("Operation name: symbolSearch, symbols,"));
    let scope = t.params.iter().find(|p| p.name == "scope").unwrap();
    assert_eq!(scope.description.as_deref(), Some("Grep scope: all or code."));
}
