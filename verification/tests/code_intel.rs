use codex_core::code_intel_format::{
    absolute_path, code_intel_limit, collect_limited, defined_file_message, defined_symbol_message, format_callers,
    format_chunk_indices, format_grep, format_load_annotations, format_root_statuses, format_save_annotations,
    format_symbols, format_tests, format_variables, parse_symbol_kind, require_param, AnnotationLoadStats,
    AnnotationSaveStats, ChunkIndices, ChunkRange, CodeSymbol, FileLine, GrepProgress, RootStatus, RootedMatch,
    SymbolKind, TestEntry, marked_file_message, added_root_message, removed_root_message, no_index_error,
    file_outside_roots_error, format_peek, format_implementation_source, Peek,
};
use codex_core::tool_args::{code_intel_output_text, lsp_limit, lsp_output_text, truncate_tool_output, HANDLER_MAX_RESULT_BYTES};

#[test]
fn symbols_listing() {
    assert_eq!(format_symbols(&[]), "No symbols found.");
    let symbols = vec![
        CodeSymbol {
            root: "main".to_string(),
            file: "src/lib.rs".to_string(),
            line: 3,
            kind_name: "Function".to_string(),
            name: "run".to_string(),
            signature: "fn run()".to_string(),
        },
        CodeSymbol {
            root: "main".to_string(),
            file: "src/a.rs".to_string(),
            line: 9,
            kind_name: "Struct".to_string(),
            name: "A".to_string(),
            signature: String::new(),
        },
    ];
    assert_eq!(
        format_symbols(&symbols),
        "Found 2 symbol(s):\n[main] src/lib.rs:3 Function run\n  fn run()\n[main] src/a.rs:9 Struct A"
    );
}

#[test]
fn callers_tests_variables() {
    let c = vec![FileLine { file: "a.rs".to_string(), line: 4, text: "run();".to_string() }];
    assert_eq!(format_callers("r", &c), "Found 1 caller(s) in [r]:\na.rs:4 run();");
    assert_eq!(format_callers("r", &[]), "No callers found.");
    let t = vec![TestEntry { file: "t.rs".to_string(), line: 1, name: "it_works".to_string(), signature: String::new() }];
    assert_eq!(format_tests("r", &t), "Found 1 test(s) in [r]:\nt.rs:1 it_works");
    assert_eq!(format_tests("r", &[]), "No tests found.");
    assert_eq!(format_variables("r", "f", &[]), "No local variables found in 'f' for root [r].");
    assert_eq!(
        format_variables("r", "f", &["x".to_string(), "y".to_string()]),
        "Found 2 variable(s) in 'f' for root [r]:\nx\ny"
    );
}

#[test]
fn grep_listing_and_progress() {
    assert_eq!(format_grep("p", 0, false, &[]), "No matches found for 'p'.");
    let m = vec![RootedMatch {
        root: "r".to_string(),
        place: FileLine { file: "a.rs".to_string(), line: 2, text: "let p".to_string() },
    }];
    assert_eq!(format_grep("p", 7, true, &m), "Found 7 match(es) for 'p' (truncated):\n[r] a.rs:2 let p");
    let mut progress: GrepProgress<u32> = GrepProgress::new();
    assert!(!progress.absorb(3, false, vec![1, 2, 3], 5));
    assert!(!progress.truncated);
    assert!(progress.absorb(4, false, vec![4, 5, 6, 7], 5));
    assert_eq!(progress.matches, vec![1, 2, 3, 4, 5]);
    assert_eq!(progress.total_matches, 7);
    assert!(progress.truncated);
}

#[test]
fn collecting_stops_at_the_limit() {
    assert_eq!(collect_limited(vec![vec![1, 2], vec![3, 4, 5]], 3), vec![1, 2, 3]);
    assert_eq!(collect_limited(vec![vec![1, 2], vec![3]], 10), vec![1, 2, 3]);
    assert_eq!(collect_limited(vec![vec![7, 8], vec![9]], 0), vec![7]);
    assert_eq!(collect_limited(vec![vec![], vec![9]], 0), Vec::<i32>::new());
}

#[test]
fn chunk_and_annotation_listings() {
    let empty = ChunkIndices { file: "f".to_string(), total_bytes: 0, chunk_size: 10, overlap: 2, chunks: vec![] };
    assert_eq!(format_chunk_indices("r", &empty), "[r] f has no chunks (0 bytes total).");
    let some = ChunkIndices {
        file: "f".to_string(),
        total_bytes: 15,
        chunk_size: 10,
        overlap: 2,
        chunks: vec![ChunkRange { index: 0, start: 0, end: 10 }, ChunkRange { index: 1, start: 8, end: 15 }],
    };
    assert_eq!(
        format_chunk_indices("r", &some),
        "[r] f: 2 chunk(s), chunk_size=10, overlap=2, total_bytes=15\n  #0 [0..10)\n  #1 [8..15)"
    );
    assert_eq!(format_save_annotations(&[]), "No TreeSitter roots are configured.");
    let saved = vec![AnnotationSaveStats {
        root: "r".to_string(),
        persisted: true,
        path: "/p".to_string(),
        file_definitions: 1,
        file_marks: 2,
        symbol_definitions: 3,
    }];
    assert_eq!(
        format_save_annotations(&saved),
        "Saved annotations for 1 root(s):\n[r] persisted=true path=/p file_definitions=1 file_marks=2 symbol_definitions=3"
    );
    let loaded = vec![AnnotationLoadStats {
        root: "r".to_string(),
        loaded: false,
        path: "/p".to_string(),
        file_definitions_applied: 0,
        file_marks_applied: 0,
        symbol_definitions_applied: 4,
    }];
    assert_eq!(
        format_load_annotations(&loaded),
        "Loaded annotations for 1 root(s):\n[r] loaded=false path=/p file_definitions_applied=0 file_marks_applied=0 symbol_definitions_applied=4"
    );
}

#[test]
fn arguments() {
    assert_eq!(parse_symbol_kind(None), Ok(None));
    assert_eq!(parse_symbol_kind(Some(" Function ")), Ok(Some(SymbolKind::Function)));
    assert_eq!(parse_symbol_kind(Some("MODULE")), Ok(Some(SymbolKind::Module)));
    assert_eq!(
        parse_symbol_kind(Some(" Widget ")),
        Err("unsupported symbol kind 'widget'. Valid kinds: function, method, class, struct, enum, trait, interface, constant, variable, type, module".to_string())
    );
    assert_eq!(require_param(None, "query"), Err("`query` is required".to_string()));
    assert_eq!(require_param(Some("q"), "query"), Ok("q".to_string()));
    assert_eq!(absolute_path(Some("rel/x"), "file"), Err("`file` must be an absolute path".to_string()));
    assert_eq!(absolute_path(Some("/abs/x"), "file"), Ok("/abs/x".to_string()));
    assert_eq!(code_intel_limit(None), 20);
    assert_eq!(code_intel_limit(Some(500)), 50);
    assert_eq!(code_intel_limit(Some(0)), 0);
    assert_eq!(lsp_limit(None), 10);
    assert_eq!(lsp_limit(Some(0)), 1);
    assert_eq!(lsp_limit(Some(99)), 50);
}

#[test]
fn roots_and_messages() {
    assert_eq!(format_root_statuses(&[]), "No roots registered.");
    let roots = vec![
        RootStatus { name: "main".to_string(), path: "/w".to_string(), is_primary: true, has_lsp: true, has_treesitter: true },
        RootStatus { name: "lib".to_string(), path: "/l".to_string(), is_primary: false, has_lsp: false, has_treesitter: false },
    ];
    assert_eq!(format_root_statuses(&roots), "Registered roots:\n* main -> /w [lsp, treesitter]\n- lib -> /l [none]");
    assert_eq!(defined_symbol_message(true, "f", "r", "a.rs"), "Redefined symbol 'f' in [r] a.rs");
    assert_eq!(defined_file_message(false, "r", "a.rs"), "Defined file [r] 'a.rs'");
}

#[test]
fn tool_output_truncation() {
    assert_eq!(truncate_tool_output("short", 10), ("short".to_string(), false));
    assert_eq!(truncate_tool_output("line one\nline two", 12), ("line one\n\n... truncated".to_string(), true));
    assert_eq!(truncate_tool_output("abcdef", 3), ("abc\n\n... truncated".to_string(), true));
    assert_eq!(truncate_tool_output("éé", 1), ("... truncated".to_string(), true));
    assert_eq!(truncate_tool_output("aé", 2), ("a\n\n... truncated".to_string(), true));
}

#[test]
fn annotation_and_root_replies() {
    assert_eq!(marked_file_message("main", "src/lib.rs", "test"), "Marked file [main] 'src/lib.rs' as test");
    assert_eq!(added_root_message("docs", "/work/docs"), "Added root 'docs' at /work/docs");
    assert_eq!(removed_root_message("docs"), "Removed root 'docs'");
}

#[test]
fn index_errors_name_the_root_or_file() {
    assert_eq!(no_index_error(None), "no TreeSitter roots are configured");
    assert_eq!(no_index_error(Some("x")), "unknown root 'x' or root has no TreeSitter index");
    assert_eq!(
        file_outside_roots_error("/tmp/a.rs", Some("main")),
        "file '/tmp/a.rs' is not inside root 'main', or root has no TreeSitter index"
    );
    assert_eq!(file_outside_roots_error("/tmp/a.rs", None), "no registered root contains file '/tmp/a.rs'");
}

#[test]
fn peek_and_implementation_replies() {
    let peek = Peek {
        file: "src/lib.rs".to_string(),
        start_line: 3,
        end_line: 5,
        total_lines: 40,
        content: "a\nb\nc".to_string(),
    };
    assert_eq!(format_peek("main", &peek), "[main] src/lib.rs:3-5 (40 total lines)\na\nb\nc");
    assert_eq!(format_implementation_source("main", "fn f() {}"), "[main]\nfn f() {}");
}

#[test]
fn handler_output_is_cut_to_eight_kib() {
    assert_eq!(HANDLER_MAX_RESULT_BYTES, 8 * 1024);
    assert_eq!(lsp_output_text("short"), "short");
    assert_eq!(code_intel_output_text("short"), "short");
    let long = format!("{}\n{}", "a".repeat(8000), "b".repeat(500));
    let cut = format!("{}\n\n... truncated", "a".repeat(8000));
    assert_eq!(code_intel_output_text(&long), cut);
    assert_eq!(lsp_output_text(&long), format!("[output truncated to 8KB]\n{cut}"));
    assert_eq!(lsp_limit(None), 10);
    assert_eq!(lsp_limit(Some(0)), 1);
    assert_eq!(lsp_limit(Some(500)), 50);
}
