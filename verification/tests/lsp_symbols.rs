use codex_core::lsp_format::{LspLocation, LspPosition, LspRange, SymbolInformation};
use codex_core::lsp_symbols::{
    choose_code_action, collect_document_symbol_candidates, filter_previewable_code_actions, format_document_symbols,
    fuzz_candidates, fuzz_positions, resolved_at_prefix, symbol_name_matches, CallHierarchyDirection,
    CodeActionSummary, DocumentSymbol, DocumentSymbolResponse, check_file_for_query, choose_symbol_position,
    no_server_started_message, resolve_line_char, skip_warmup_dir, PositionSource, FuzzSearch, FuzzStep, workspace_symbol_query, no_lsp_registry_error,
    retry_workspace_symbols, workspace_symbols_outcome,
};

fn range(line: u32, character: u32) -> LspRange {
    LspRange { start: LspPosition { line, character }, end: LspPosition { line, character: character + 3 } }
}

fn node(name: &str, kind: &str, line: u32, children: Option<Vec<DocumentSymbol>>) -> DocumentSymbol {
    DocumentSymbol {
        name: name.to_string(),
        kind_name: kind.to_string(),
        range: range(line, 0),
        selection_range: range(line, 4),
        children,
    }
}

#[test]
fn nested_document_symbols_are_indented() {
    let tree = vec![
        node("Outer", "Struct", 0, Some(vec![node("inner", "Method", 2, Some(vec![node("x", "Variable", 3, None)]))])),
        node("free", "Function", 10, None),
    ];
    assert_eq!(
        format_document_symbols(Some(DocumentSymbolResponse::Nested(tree))),
        "Struct Outer [1:1]\n  Method inner [3:1]\n    Variable x [4:1]\nFunction free [11:1]"
    );
    assert_eq!(format_document_symbols(None), "No symbols found.");
    assert_eq!(format_document_symbols(Some(DocumentSymbolResponse::Nested(vec![]))), "No symbols found.");
}

#[test]
fn flat_document_symbols() {
    let flat = vec![SymbolInformation {
        name: "main".to_string(),
        kind_name: "Function".to_string(),
        location: LspLocation { uri: "file:///m.rs".to_string(), range: range(4, 3) },
    }];
    assert_eq!(format_document_symbols(Some(DocumentSymbolResponse::Flat(flat))), "Function main [5:4]");
}

#[test]
fn resolved_prefix() {
    assert_eq!(resolved_at_prefix("/a.rs", None), "");
    assert_eq!(resolved_at_prefix("/a.rs", Some((0, 6))), "Resolved at /a.rs:1:7\n");
}

#[test]
fn fuzz_positions_start_at_the_position_and_skip_negatives() {
    let all = fuzz_positions(10, 10);
    assert_eq!(all.len(), 85);
    assert_eq!(&all[..5], &[(10, 10), (10, 9), (10, 11), (10, 8), (10, 12)]);
    assert_eq!(all[17], (9, 10));
    let mut seen = std::collections::HashSet::new();
    assert!(all.iter().all(|p| seen.insert(*p)));
    let corner = fuzz_positions(0, 0);
    assert_eq!(&corner[..3], &[(0, 0), (0, 1), (0, 2)]);
    assert_eq!(corner.len(), 27);
    assert!(corner.iter().all(|(l, c)| *l <= 2 && *c <= 8));
}

#[test]
fn fuzz_candidates_skip_the_first_and_are_limited() {
    let c = fuzz_candidates(10, 10, 12);
    assert_eq!(c.len(), 12);
    assert_eq!(c[0], (10, 9));
    assert_eq!(fuzz_candidates(0, 0, 100).len(), 26);
}

#[test]
fn symbol_names_match_exactly_or_by_last_path_segment() {
    assert!(symbol_name_matches("foo", "foo"));
    assert!(symbol_name_matches("foo", " crate::mod::foo "));
    assert!(!symbol_name_matches("foo", "   "));
    assert!(!symbol_name_matches("bar", "foo::baz"));
    assert!(symbol_name_matches("b", "a:::b"));
}

#[test]
fn document_symbol_candidates() {
    let tree = vec![node("Outer", "Struct", 0, Some(vec![node("foo", "Method", 2, None)])), node("foo", "Function", 9, None)];
    let mut out = Vec::new();
    collect_document_symbol_candidates(&Some(DocumentSymbolResponse::Nested(tree)), "Outer::foo", &mut out);
    assert_eq!(
        out,
        vec![(2, 4, "foo".to_string(), "Method".to_string()), (9, 4, "foo".to_string(), "Function".to_string())]
    );
}

#[test]
fn code_actions_are_split_and_chosen() {
    let actions = vec![
        CodeActionSummary::Action { has_command: false, has_edit: true, has_data: false },
        CodeActionSummary::Command,
        CodeActionSummary::Action { has_command: true, has_edit: true, has_data: true },
        CodeActionSummary::Action { has_command: false, has_edit: false, has_data: true },
        CodeActionSummary::Action { has_command: false, has_edit: false, has_data: false },
    ];
    assert_eq!(filter_previewable_code_actions(&actions), (vec![0], vec![3]));
    let titles = vec!["Fix a".to_string(), "Fix b".to_string()];
    assert_eq!(choose_code_action(&titles, Some("Fix b")), Ok(1));
    assert_eq!(
        choose_code_action(&titles, Some("Fix c")),
        Err("no code action titled 'Fix c'. Available:\n- Fix a\n- Fix b".to_string())
    );
    assert_eq!(
        choose_code_action(&titles, None),
        Err("multiple previewable code actions found; pass `title` to select one:\n- Fix a\n- Fix b".to_string())
    );
    assert_eq!(choose_code_action(&titles[..1], None), Ok(0));
    assert_eq!(CallHierarchyDirection::Incoming.operation_name(), "incomingCalls");
    assert_eq!(CallHierarchyDirection::Outgoing.operation_name(), "outgoingCalls");
}

#[test]
fn positions_come_from_line_and_character_or_a_symbol() {
    assert_eq!(resolve_line_char(Some(3), Some(5), None).unwrap(), PositionSource::At(2, 4));
    assert_eq!(resolve_line_char(Some(0), Some(5), Some("x")).unwrap_err(), "`line` and `character` must be 1-based");
    assert_eq!(resolve_line_char(Some(3), None, Some("  run ")).unwrap(), PositionSource::Symbol("run".to_string()));
    assert_eq!(
        resolve_line_char(None, None, Some("   ")).unwrap_err(),
        "position required: provide (`line`, `character`) or `symbol`"
    );
}

#[test]
fn symbol_positions_need_exactly_one_match() {
    let one = vec![(4u32, 2u32, "run".to_string(), "Function".to_string())];
    assert_eq!(choose_symbol_position("run", "/p/a.rs", &one).unwrap(), (4, 2));
    assert_eq!(choose_symbol_position("run", "/p/a.rs", &vec![]).unwrap_err(), "symbol 'run' not found in /p/a.rs");
    let two = vec![
        (4u32, 2u32, "run".to_string(), "Function".to_string()),
        (9u32, 0u32, "Task::run".to_string(), "Method".to_string()),
    ];
    assert_eq!(
        choose_symbol_position("run", "/p/a.rs", &two).unwrap_err(),
        "multiple symbols matching 'run' found in /p/a.rs:\n- Function run @ /p/a.rs:5:3\n- Method Task::run @ /p/a.rs:10:1"
    );
}

#[test]
fn files_are_checked_before_queries() {
    assert_eq!(check_file_for_query("/p/a.rs", "p", false, false, false).unwrap_err(), "file not found: /p/a.rs");
    assert_eq!(check_file_for_query("/p", "p", true, false, true).unwrap_err(), "path is not a file: /p");
    assert!(check_file_for_query("/p/a.rs", "p", true, true, false).unwrap_err().starts_with("no LSP server configured for /p/a.rs under root 'p'."));
    assert!(check_file_for_query("/p/a.rs", "p", true, true, true).is_ok());
    assert_eq!(
        no_server_started_message("/p/a.rs", "p", &vec![]),
        "no LSP server could be started for /p/a.rs under root 'p'\n\nUse `code_intel` for tree-sitter-based analysis or `grep` for text search instead."
    );
    assert!(no_server_started_message("/p/a.rs", "p", &vec!["x failed".to_string()]).contains("\nstartup details:\n- x failed\n\n"));
    assert!(skip_warmup_dir(".git") && skip_warmup_dir("node_modules") && !skip_warmup_dir("src"));
}

fn run_fuzz(fuzz: bool, line: u32, ch: u32, max: usize, answers: &dyn Fn(u32, u32) -> bool) -> (FuzzStep, usize) {
    let mut search = FuzzSearch::new(fuzz, line, ch, max);
    let mut queries = 1;
    let mut step = search.step(!answers(line, ch));
    while let FuzzStep::Query(l, c) = step {
        queries += 1;
        step = search.step(!answers(l, c));
    }
    (step, queries)
}

#[test]
fn fuzz_search_keeps_a_non_empty_first_answer() {
    assert_eq!(run_fuzz(true, 5, 5, 10, &|_, _| true), (FuzzStep::KeepFirst, 1));
    assert_eq!(run_fuzz(false, 5, 5, 10, &|_, _| false), (FuzzStep::KeepFirst, 1));
}

#[test]
fn fuzz_search_takes_the_first_answering_neighbour() {
    // Candidates around (5, 5) run (5,4), (5,6), (5,3), ...
    let (step, queries) = run_fuzz(true, 5, 5, 10, &|l, c| l == 5 && c == 6);
    assert_eq!(step, FuzzStep::UseCandidate(5, 6));
    assert_eq!(queries, 3);
}

#[test]
fn fuzz_search_gives_up_after_max_attempts() {
    let (step, queries) = run_fuzz(true, 5, 5, 2, &|l, c| l == 5 && c == 3);
    assert_eq!(step, FuzzStep::KeepFirst);
    assert_eq!(queries, 3);
}

#[test]
fn workspace_symbol_needs_a_query() {
    assert_eq!(workspace_symbol_query(Some("  Foo ")), Ok("Foo".to_string()));
    let err = Err("workspaceSymbol requires a non-empty `query` string".to_string());
    assert_eq!(workspace_symbol_query(Some("   ")), err);
    assert_eq!(workspace_symbol_query(None), err);
}

#[test]
fn workspace_symbol_registry_errors_and_retries() {
    assert_eq!(no_lsp_registry_error(None), "no LSP roots are configured");
    assert_eq!(no_lsp_registry_error(Some("web")), "unknown root 'web' or root has no LSP registry");
    assert!(retry_workspace_symbols(1, false, true));
    assert!(retry_workspace_symbols(3, false, true));
    assert!(!retry_workspace_symbols(4, false, true));
    assert!(!retry_workspace_symbols(1, true, true));
    assert!(!retry_workspace_symbols(1, false, false));
    assert!(workspace_symbols_outcome(false, false).is_err());
    assert!(workspace_symbols_outcome(false, true).is_ok());
    assert!(workspace_symbols_outcome(true, false).is_ok());
}
