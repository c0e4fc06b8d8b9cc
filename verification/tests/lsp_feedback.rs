use codex_core::lsp_feedback::{collect_error_lines, errors_feedback, format_diagnostics_xml, DiagnosticEntry};

#[test]
fn format_no_errors() {
    let formatted = format_diagnostics_xml("src/main.rs", &[]);
    assert!(formatted.is_empty());
}

#[test]
fn format_with_errors() {
    let formatted = format_diagnostics_xml(
        "src/main.rs",
        &["ERROR [12:5] Type mismatch".to_string(), "ERROR [15:3] Method not found".to_string()],
    );
    assert!(formatted.contains("<diagnostics file=\"src/main.rs\">"));
    assert!(formatted.contains("ERROR [12:5] Type mismatch"));
    assert!(formatted.contains("ERROR [15:3] Method not found"));
    assert!(formatted.contains("</diagnostics>"));
}

#[test]
fn format_truncates_at_max() {
    let errors: Vec<_> = (0..25).map(|i| format!("ERROR [{i}:0] error {i}")).collect();
    let formatted = format_diagnostics_xml("test.rs", &errors);
    assert!(formatted.contains("... and 5 more"));
}

#[test]
fn format_is_exact_for_a_single_error() {
    let formatted = format_diagnostics_xml("a.rs", &["ERROR [1:1] x".to_string()]);
    assert_eq!(
        formatted,
        "\nLSP errors detected in a.rs, please fix:\n<diagnostics file=\"a.rs\">\nERROR [1:1] x\n</diagnostics>"
    );
}

#[test]
fn format_keeps_exactly_the_first_twenty() {
    let errors: Vec<_> = (0..21).map(|i| format!("e{i}")).collect();
    let formatted = format_diagnostics_xml("t", &errors);
    assert!(formatted.contains("e19\n... and 1 more\n</diagnostics>"));
    assert!(!formatted.contains("e20"));
    let twenty: Vec<_> = (0..20).map(|i| format!("e{i}")).collect();
    let formatted = format_diagnostics_xml("t", &twenty);
    assert!(!formatted.contains("more"));
}

#[test]
fn only_error_diagnostics_are_reported_one_based() {
    let diags = vec![
        DiagnosticEntry { is_error: true, line: 11, character: 4, message: "Type mismatch".to_string() },
        DiagnosticEntry { is_error: false, line: 0, character: 0, message: "unused".to_string() },
        DiagnosticEntry { is_error: true, line: 0, character: 9, message: "boom".to_string() },
    ];
    assert_eq!(
        collect_error_lines(&diags),
        vec!["ERROR [12:5] Type mismatch".to_string(), "ERROR [1:10] boom".to_string()]
    );
    let feedback = errors_feedback("src/lib.rs", &diags);
    assert!(feedback.contains("ERROR [12:5] Type mismatch\nERROR [1:10] boom\n</diagnostics>"));
    let warnings_only = vec![DiagnosticEntry { is_error: false, line: 1, character: 1, message: "w".to_string() }];
    assert_eq!(errors_feedback("src/lib.rs", &warnings_only), "");
}
