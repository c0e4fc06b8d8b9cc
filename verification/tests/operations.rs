use codex_core::operations::code_intel_is_mutating;
use codex_core::operations::parse_code_intel_operation;
use codex_core::operations::parse_lsp_operation;
use codex_core::operations::parse_response_format;
use codex_core::operations::CodeIntelOperation;
use codex_core::operations::LspOperation;
use codex_core::operations::ResponseFormat;

#[test]
fn code_intel_operation_names_are_camel_case() {
    assert_eq!(
        parse_code_intel_operation("symbolSearch"),
        Some(CodeIntelOperation::SymbolSearch)
    );
    assert_eq!(
        parse_code_intel_operation("chunkIndices"),
        Some(CodeIntelOperation::ChunkIndices)
    );
    assert_eq!(
        parse_code_intel_operation("listRoots"),
        Some(CodeIntelOperation::ListRoots)
    );
    assert_eq!(parse_code_intel_operation("SymbolSearch"), None);
    assert_eq!(parse_code_intel_operation("symbol_search"), None);
    assert_eq!(parse_code_intel_operation(""), None);
}

#[test]
fn lsp_operation_names_are_camel_case() {
    assert_eq!(
        parse_lsp_operation("goToDefinition"),
        Some(LspOperation::GoToDefinition)
    );
    assert_eq!(
        parse_lsp_operation("codeActionPreview"),
        Some(LspOperation::CodeActionPreview)
    );
    assert_eq!(parse_lsp_operation("diagnostics"), Some(LspOperation::Diagnostics));
    assert_eq!(parse_lsp_operation("definition"), None);
}

#[test]
fn only_annotation_and_root_changes_are_mutating() {
    assert!(code_intel_is_mutating(Some(CodeIntelOperation::DefineSymbol)));
    assert!(code_intel_is_mutating(Some(CodeIntelOperation::AddRoot)));
    assert!(code_intel_is_mutating(Some(CodeIntelOperation::LoadAnnotations)));
    assert!(!code_intel_is_mutating(Some(CodeIntelOperation::Grep)));
    assert!(!code_intel_is_mutating(Some(CodeIntelOperation::ListRoots)));
    assert!(!code_intel_is_mutating(None));
    assert!(code_intel_is_mutating(parse_code_intel_operation("removeRoot")));
    assert!(!code_intel_is_mutating(parse_code_intel_operation("unknown")));
}

#[test]
fn response_format_defaults_to_text() {
    assert_eq!(ResponseFormat::default(), ResponseFormat::Text);
    assert_eq!(parse_response_format("json"), Some(ResponseFormat::Json));
    assert_eq!(parse_response_format("text"), Some(ResponseFormat::Text));
    assert_eq!(parse_response_format("JSON"), None);
}
