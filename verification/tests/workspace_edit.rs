use codex_core::lsp_format::{LspPosition, LspRange};
use codex_core::patch_preview::{
    workspace_edit_to_apply_patch, workspace_ops_to_patch, uri_path_from_lookup, DocumentChange, WorkspaceEdit, WorkspaceOp,
};
use codex_core::virtual_workspace::DiskFile;
use codex_core::workspace_edit::{
    apply_text_edits_utf16, count_files_touched, diff_to_update_chunks, position_to_offset_utf16,
    update_chunks_from_diff, EditFailure, PatchLimits, TextEdit,
};

fn pos(line: u32, character: u32) -> LspPosition {
    LspPosition { line, character }
}

fn edit(start: (u32, u32), end: (u32, u32), text: &str) -> TextEdit {
    TextEdit {
        range: LspRange { start: pos(start.0, start.1), end: pos(end.0, end.1) },
        new_text: text.to_string(),
    }
}

fn disk_file(path: &str, contents: &str) -> DiskFile {
    DiskFile { path: path.to_string(), contents: contents.to_string(), is_file: true }
}

fn message(r: Result<String, EditFailure>) -> String {
    match r {
        Err(EditFailure::Message(m)) => m,
        other => panic!("expected an error message, got {other:?}"),
    }
}

#[test]
fn workspace_edit_to_patch_updates_file() {
    let file_path = std::path::Path::new("/tmp/workspace-edit-test/test.txt");
    let uri = url::Url::from_file_path(file_path).unwrap().as_str().to_string();
    let path = file_path.display().to_string();
    let disk = vec![disk_file(&path, "world\n")];
    let workspace_edit = WorkspaceEdit {
        changes: Some(vec![(uri, vec![edit((0, 0), (0, 0), "hello ")])]),
        document_changes: None,
    };
    let patch = workspace_edit_to_apply_patch(workspace_edit, &disk, PatchLimits::default()).unwrap();
    assert_eq!(
        patch,
        format!("*** Begin Patch\n*** Update File: {path}\n@@\n-world\n+hello world\n*** End Patch")
    );
}

#[test]
fn patch_limits_default() {
    let limits = PatchLimits::default();
    assert_eq!(limits.max_files_touched, 50);
    assert_eq!(limits.max_patch_bytes, 256 * 1024);
}

#[test]
fn position_offsets_count_utf16_units_and_bytes() {
    assert_eq!(position_to_offset_utf16("abc\ndef", pos(1, 1)).unwrap(), 5);
    assert_eq!(position_to_offset_utf16("abc\ndef", pos(0, 0)).unwrap(), 0);
    // The emoji is two UTF-16 units and four bytes.
    assert_eq!(position_to_offset_utf16("a\u{1F600}b", pos(0, 3)).unwrap(), 5);
    assert_eq!(position_to_offset_utf16("\u{e9}x", pos(0, 1)).unwrap(), 2);
    // A column past the end of a line is clamped to the end of that line.
    assert_eq!(position_to_offset_utf16("ab\ncd", pos(0, 10)).unwrap(), 2);
    assert_eq!(position_to_offset_utf16("ab\ncd", pos(0, 7)).unwrap(), 2);
    assert_eq!(position_to_offset_utf16("ab\ncd", pos(0, 3)).unwrap(), 2);
    assert_eq!(position_to_offset_utf16("\u{e9}\u{1F600}x", pos(0, 3)).unwrap(), 6);
    assert_eq!(
        position_to_offset_utf16("ab\ncd", pos(2, 0)).unwrap_err(),
        "position line 2 out of range (max 1)"
    );
    assert_eq!(position_to_offset_utf16("ab\ncd", pos(1, 10)).unwrap(), 5);
    assert_eq!(
        position_to_offset_utf16("abc\ndef", pos(5, 0)).unwrap_err(),
        "position line 5 out of range (max 1)"
    );
}

#[test]
fn text_edits_apply_from_the_end() {
    let out = apply_text_edits_utf16("one two three", &[edit((0, 0), (0, 3), "1"), edit((0, 8), (0, 13), "3")]).unwrap();
    assert_eq!(out, "1 two 3");
    assert_eq!(apply_text_edits_utf16("same", &[]).unwrap(), "same");
    // Two inserts at one place keep their order of application.
    let out = apply_text_edits_utf16("c", &[edit((0, 0), (0, 0), "x"), edit((0, 0), (0, 0), "y")]).unwrap();
    assert_eq!(out, "yxc");
}

#[test]
fn text_edit_errors() {
    assert_eq!(
        message(apply_text_edits_utf16("abc", &[edit((0, 2), (0, 1), "")])),
        "invalid edit range"
    );
    assert_eq!(
        message(apply_text_edits_utf16("abc", &[edit((3, 0), (3, 1), "")])),
        "position line 3 out of range (max 0)"
    );
    // Overlapping edits whose later end falls inside a new multi-byte character.
    let r = apply_text_edits_utf16("a\u{e9}", &[edit((0, 1), (0, 2), "\u{20ac}"), edit((0, 0), (0, 2), "")]);
    assert!(matches!(r, Err(EditFailure::SplitCharacter)));
}

#[test]
fn update_chunks_keep_hunk_lines() {
    let diff = "--- a\n+++ b\n@@ -1,2 +1,2 @@\n a\n-b\n+c\n\\ No newline at end of file\n@@ -9 +9 @@\n-x\n+y\n";
    let chunks = update_chunks_from_diff(diff).unwrap();
    assert_eq!(
        chunks,
        vec![
            vec![" a".to_string(), "-b".to_string(), "+c".to_string()],
            vec!["-x".to_string(), "+y".to_string()],
        ]
    );
    assert_eq!(update_chunks_from_diff("").unwrap_err(), "failed to generate diff chunks for preview");
    let chunks = diff_to_update_chunks("a\nb\n", "a\nc\n").unwrap();
    assert_eq!(chunks, vec![vec![" a".to_string(), "-b".to_string(), "+c".to_string()]]);
    assert!(diff_to_update_chunks("same\n", "same\n").is_err());
}

#[test]
fn count_files_touched_counts_file_headers() {
    let hunks: Vec<String> = ["*** Add File: a", "+x", "*** Update File: b", "*** Move to: c", "@@", "*** Delete File: d"]
        .iter()
        .map(|s| s.to_string())
        .collect();
    assert_eq!(count_files_touched(&hunks), 3);
}

#[test]
fn created_renamed_and_deleted_files() {
    let disk = vec![disk_file("/w/old.txt", "keep\n"), disk_file("/w/gone.txt", "bye\n")];
    let ops = vec![
        WorkspaceOp::Create { path: Ok("/w/new.txt".to_string()) },
        WorkspaceOp::Edit { path: Ok("/w/new.txt".to_string()), edits: vec![edit((0, 0), (0, 0), "a\nb\n")] },
        WorkspaceOp::Rename { old_path: Ok("/w/old.txt".to_string()), new_path: Ok("/w/moved.txt".to_string()) },
        WorkspaceOp::Delete { path: Ok("/w/gone.txt".to_string()) },
    ];
    let patch = workspace_ops_to_patch(&ops, &disk, PatchLimits::default()).unwrap();
    assert_eq!(
        patch,
        "*** Begin Patch\n*** Add File: /w/moved.txt\n+keep\n*** Delete File: /w/old.txt\n\
         *** Delete File: /w/gone.txt\n*** Add File: /w/new.txt\n+a\n+b\n*** End Patch"
    );
}

#[test]
fn renamed_and_changed_file_is_an_update_with_a_move() {
    let disk = vec![disk_file("/w/a.txt", "one\ntwo\n")];
    let ops = vec![
        WorkspaceOp::Rename { old_path: Ok("/w/a.txt".to_string()), new_path: Ok("/w/b.txt".to_string()) },
        WorkspaceOp::Edit { path: Ok("/w//b.txt".to_string()), edits: vec![edit((1, 0), (1, 3), "2")] },
    ];
    let patch = workspace_ops_to_patch(&ops, &disk, PatchLimits::default()).unwrap();
    assert_eq!(
        patch,
        "*** Begin Patch\n*** Update File: /w/a.txt\n*** Move to: /w/b.txt\n@@\n one\n-two\n+2\n*** End Patch"
    );
}

#[test]
fn patch_limits_are_enforced() {
    let disk = vec![disk_file("/w/a.txt", "x\n")];
    let ops = vec![WorkspaceOp::Delete { path: Ok("/w/a.txt".to_string()) }];
    let tight = PatchLimits { max_files_touched: 0, max_patch_bytes: 1000 };
    assert_eq!(
        message(workspace_ops_to_patch(&ops, &disk, tight)),
        "preview touches 1 files, exceeding limit 0"
    );
    let small = PatchLimits { max_files_touched: 5, max_patch_bytes: 10 };
    assert_eq!(
        message(workspace_ops_to_patch(&ops, &disk, small)),
        "preview patch is 55 bytes, exceeding limit 10"
    );
    // An unchanged file that is on disk needs no hunk at all.
    let ops = vec![WorkspaceOp::Edit { path: Ok("/w/a.txt".to_string()), edits: vec![] }];
    assert_eq!(
        workspace_ops_to_patch(&ops, &disk, PatchLimits::default()).unwrap(),
        "*** Begin Patch\n\n*** End Patch"
    );
}

#[test]
fn uri_errors_stop_the_preview() {
    let bad = WorkspaceEdit {
        changes: None,
        document_changes: Some(vec![DocumentChange::Delete { uri: "http://example.com/x".to_string() }]),
    };
    assert_eq!(
        message(workspace_edit_to_apply_patch(bad, &[], PatchLimits::default())),
        "URI is not a file path: http://example.com/x"
    );
    let invalid = WorkspaceEdit {
        changes: None,
        document_changes: Some(vec![DocumentChange::Create { uri: "not a uri".to_string() }]),
    };
    let m = message(workspace_edit_to_apply_patch(invalid, &[], PatchLimits::default()));
    assert!(m.starts_with("invalid URI 'not a uri': "), "{m}");
    let failed_path = vec![WorkspaceOp::Create { path: Err("no path".to_string()) }];
    assert_eq!(message(workspace_ops_to_patch(&failed_path, &[], PatchLimits::default())), "no path");
}

#[test]
fn uri_lookup_results_become_paths_or_errors() {
    assert_eq!(
        uri_path_from_lookup("file:///tmp/a.rs", Ok("/tmp/a.rs".to_string())),
        Ok("/tmp/a.rs".to_string())
    );
    assert_eq!(
        uri_path_from_lookup("::bad", Err(Some("relative URL without a base".to_string()))),
        Err("invalid URI '::bad': relative URL without a base".to_string())
    );
    assert_eq!(
        uri_path_from_lookup("https://example.com/a", Err(None)),
        Err("URI is not a file path: https://example.com/a".to_string())
    );
}
