use codex_core::lsp_format::{
    format_definition, format_hover, format_implementation, format_location, format_prepare_rename,
    format_references, format_uri_position, format_uri_position_with, format_workspace_symbols, is_empty_definition,
    DefinitionResponse, HoverContent, LspLocation, LspPosition, LspRange, MarkedText, PrepareRenameResponse,
    SymbolInformation,
};

fn pos(line: u32, character: u32) -> LspPosition {
    LspPosition { line, character }
}

fn range(l0: u32, c0: u32, l1: u32, c1: u32) -> LspRange {
    LspRange { start: pos(l0, c0), end: pos(l1, c1) }
}

fn loc(uri: &str, line: u32, character: u32) -> LspLocation {
    LspLocation { uri: uri.to_string(), range: range(line, character, line, character + 1) }
}

#[test]
fn file_uris_are_shown_as_paths_one_based() {
    assert_eq!(format_uri_position("file:///tmp/a.rs", 0, 4), "/tmp/a.rs:1:5");
    assert_eq!(format_location(&loc("file:///src/lib.rs", 9, 0)), "/src/lib.rs:10:1");
}

#[test]
fn other_uris_are_shown_as_they_are() {
    assert_eq!(format_uri_position("untitled:Untitled-1", 2, 3), "untitled:Untitled-1:3:4");
    assert_eq!(format_uri_position("not a uri", 0, 0), "not a uri:1:1");
    assert_eq!(format_uri_position_with("file:///x", Some("/x"), 1, 1), "/x:2:2");
    assert_eq!(format_uri_position_with("file:///x", None, 1, 1), "file:///x:2:2");
}

#[test]
fn definitions() {
    assert_eq!(format_definition(None), "No definition found.");
    assert_eq!(format_implementation(Some(DefinitionResponse::Array(vec![]))), "No implementation found.");
    assert_eq!(
        format_definition(Some(DefinitionResponse::Array(vec![loc("file:///a.rs", 0, 0), loc("file:///b.rs", 1, 2)]))),
        "/a.rs:1:1\n/b.rs:2:3"
    );
    assert_eq!(format_definition(Some(DefinitionResponse::Link(vec![loc("file:///c.rs", 4, 4)]))), "/c.rs:5:5");
    assert!(is_empty_definition(&None));
    assert!(is_empty_definition(&Some(DefinitionResponse::Link(vec![]))));
    assert!(!is_empty_definition(&Some(DefinitionResponse::Scalar(loc("file:///a.rs", 0, 0)))));
}

#[test]
fn references_are_limited_with_a_note() {
    assert_eq!(format_references(&[], 5), "No references found.");
    let refs = vec![loc("file:///a.rs", 0, 0), loc("file:///a.rs", 1, 0), loc("file:///a.rs", 2, 0)];
    assert_eq!(format_references(&refs, 5), "/a.rs:1:1\n/a.rs:2:1\n/a.rs:3:1");
    assert_eq!(
        format_references(&refs, 2),
        "Showing 2 of 3 references (increase `limit` for more):\n/a.rs:1:1\n/a.rs:2:1"
    );
}

#[test]
fn hover_contents() {
    assert_eq!(format_hover(None), "No hover information available.");
    assert_eq!(format_hover(Some(HoverContent::Markup("**x**".to_string()))), "**x**");
    assert_eq!(
        format_hover(Some(HoverContent::Array(vec![
            MarkedText::Plain("doc".to_string()),
            MarkedText::Code { language: "rust".to_string(), value: "fn f()".to_string() },
        ]))),
        "doc\n---\n```rust\nfn f()\n```"
    );
}

#[test]
fn prepare_rename_answers() {
    assert_eq!(format_prepare_rename(None), "No rename available.");
    assert_eq!(format_prepare_rename(Some(PrepareRenameResponse::Range(range(0, 1, 0, 4)))), "Rename range: [1:2]-[1:5]");
    assert_eq!(
        format_prepare_rename(Some(PrepareRenameResponse::RangeWithPlaceholder {
            range: range(2, 0, 2, 3),
            placeholder: "foo".to_string(),
        })),
        "Rename range: [3:1]-[3:4]\nPlaceholder: foo"
    );
    assert_eq!(
        format_prepare_rename(Some(PrepareRenameResponse::DefaultBehavior { default_behavior: true })),
        "Rename supported (default behavior: true)."
    );
}

#[test]
fn workspace_symbols() {
    let sym = |name: &str, line: u32| SymbolInformation {
        name: name.to_string(),
        kind_name: "Function".to_string(),
        location: loc("file:///w.rs", line, 0),
    };
    assert_eq!(format_workspace_symbols(&[], 10, 0, false), "No symbols found.");
    let symbols = vec![sym("a", 0), sym("b", 1)];
    assert_eq!(format_workspace_symbols(&symbols, 10, 2, false), "Function a @ /w.rs:1:1\nFunction b @ /w.rs:2:1");
    assert_eq!(
        format_workspace_symbols(&symbols, 1, 2, true),
        "Showing 1 of 2 symbols (increase `limit` for more):\nFunction a @ /w.rs:1:1"
    );
}

#[test]
fn a_uri_without_a_scheme_is_shown_as_given() {
    assert_eq!(codex_core::lsp_format::format_uri_position("relative/file.rs", 4, 0), "relative/file.rs:5:1");
    assert_eq!(
        codex_core::lsp_format::format_uri_position("file:///tmp/a.rs", 0, 2),
        "/tmp/a.rs:1:3"
    );
}
