use codex_core::attachments::{
    is_canonical_path_within_allowed_roots, new_local_pdf_paths, WritableRootCheck, is_pdf_path_token, local_pdf_path_candidates, looks_like_url, max_raw_inline_bytes, resolve_candidate_path,
    split_text_path_tokens, strip_wrapping_quote_pair, upload_base_url_for_provider, accepted_pdf_paths, CandidateCheck,
    attached_paths, text_inputs, inject_local_pdf_paths, UserInputItem,
};

#[test]
fn tokens_split_on_whitespace_and_keep_quoted_paths() {
    assert_eq!(split_text_path_tokens("  read a.pdf  now "), vec!["read", "a.pdf", "now"]);
    assert_eq!(split_text_path_tokens("see \"my file.pdf\" ok"), vec!["see", "\"my file.pdf\"", "ok"]);
    assert_eq!(split_text_path_tokens("x \"a b\"c d"), vec!["x", "\"a b\"c", "d"]);
    assert_eq!(split_text_path_tokens("open 'unterminated file.pdf"), vec!["open", "'unterminated file.pdf"]);
    assert_eq!(split_text_path_tokens(""), Vec::<String>::new());
}

#[test]
fn token_helpers() {
    assert_eq!(strip_wrapping_quote_pair("\"a.pdf\""), "a.pdf");
    assert_eq!(strip_wrapping_quote_pair("'a.pdf'"), "a.pdf");
    assert_eq!(strip_wrapping_quote_pair("\"a.pdf'"), "\"a.pdf'");
    assert_eq!(strip_wrapping_quote_pair("\""), "\"");
    assert!(is_pdf_path_token("Report.PDF"));
    assert!(!is_pdf_path_token("report.pdfx"));
    assert!(!is_pdf_path_token(""));
    assert!(looks_like_url("https://x/a.pdf"));
    assert!(!looks_like_url("/tmp/a.pdf"));
    assert_eq!(resolve_candidate_path("/abs/a.pdf", "/cwd"), "/abs/a.pdf");
    assert_eq!(resolve_candidate_path("rel/a.pdf", "/cwd"), "/cwd/rel/a.pdf");
}

#[test]
fn pdf_candidates_from_text() {
    let found = local_pdf_path_candidates("compare 'docs/a b.pdf' with https://x.org/b.pdf and c.txt or D.PDF", "/w");
    assert_eq!(found, vec!["/w/docs/a b.pdf".to_string(), "/w/D.PDF".to_string()]);
}

#[test]
fn inline_bytes_and_upload_urls() {
    assert_eq!(max_raw_inline_bytes(4), 3);
    assert_eq!(max_raw_inline_bytes(10), 7);
    assert_eq!(max_raw_inline_bytes(u64::MAX), u64::MAX / 4);
    assert_eq!(upload_base_url_for_provider("openai", None), "https://api.openai.com");
    assert_eq!(upload_base_url_for_provider("openai", Some("https://proxy.example/v1//")), "https://proxy.example");
    assert_eq!(upload_base_url_for_provider("gemini", Some("https://g.example/v1beta")), "https://g.example");
    assert_eq!(upload_base_url_for_provider("gemini", Some("https://g.example/v1")), "https://g.example/v1");
    assert_eq!(upload_base_url_for_provider("other", None), "");
    assert_eq!(upload_base_url_for_provider("other", Some("https://o/v1/")), "https://o/v1");
}

#[test]
fn found_paths_must_lie_under_cwd_or_a_writable_root() {
    assert!(is_canonical_path_within_allowed_roots("/work/p/a.pdf", "/work/p", &[]));
    assert!(!is_canonical_path_within_allowed_roots("/other/a.pdf", "/work/p", &[]));
    let root = WritableRootCheck {
        path_writable: false,
        canonical_root: "/data".to_string(),
        canonical_read_only_subpaths: vec!["/data/.git".to_string()],
    };
    assert!(is_canonical_path_within_allowed_roots("/data/x.pdf", "/work/p", &[root.clone()]));
    assert!(!is_canonical_path_within_allowed_roots("/data/.git/x.pdf", "/work/p", &[root.clone()]));
    let writable = WritableRootCheck { path_writable: true, ..root };
    assert!(is_canonical_path_within_allowed_roots("/data/.git/x.pdf", "/work/p", &[writable]));
}

#[test]
fn found_paths_skip_attached_and_repeated_ones() {
    let existing = vec!["/w/a.pdf".to_string()];
    let found = vec!["/w//a.pdf".to_string(), "/w/b.pdf".to_string(), "/w/./b.pdf".to_string(), "/w/c.pdf".to_string()];
    assert_eq!(new_local_pdf_paths(&existing, &found), vec!["/w/b.pdf".to_string(), "/w/c.pdf".to_string()]);
}

#[test]
fn unquoted_text_splits_like_split_whitespace() {
    for text in ["  read ./a.pdf\tand\n/b/c.pdf  ", "", "one", " \u{a0}x\u{3000}y "] {
        let expected: Vec<String> = text.split_whitespace().map(str::to_string).collect();
        assert_eq!(split_text_path_tokens(text), expected);
    }
}

#[test]
fn only_existing_files_inside_allowed_roots_are_accepted() {
    let check = |p: Option<&str>, is_file: bool| CandidateCheck { canonical: p.map(str::to_string), is_file };
    let checks = vec![
        check(Some("/work/p/a.pdf"), true),
        check(None, false),
        check(Some("/work/p/dir.pdf"), false),
        check(Some("/etc/b.pdf"), true),
        check(Some("/work/p/c.pdf"), true),
    ];
    assert_eq!(
        accepted_pdf_paths(&checks, "/work/p", &[]),
        vec!["/work/p/a.pdf".to_string(), "/work/p/c.pdf".to_string()]
    );
}

fn local_paths(inputs: &[UserInputItem]) -> Vec<String> {
    inputs
        .iter()
        .filter_map(|i| match i {
            UserInputItem::LocalFile(p) => Some(p.clone()),
            _ => None,
        })
        .collect()
}

#[test]
fn injection_keeps_the_input_and_appends_each_new_path_once() {
    let mut inputs = vec![
        UserInputItem::Text("see /w/a.pdf and /w/b.pdf".to_string()),
        UserInputItem::LocalFile("/w/a.pdf".to_string()),
        UserInputItem::UploadedFile("/w/up.pdf".to_string()),
        UserInputItem::Other,
    ];
    assert_eq!(text_inputs(&inputs), vec!["see /w/a.pdf and /w/b.pdf".to_string()]);
    let existing = attached_paths(&inputs);
    assert_eq!(existing, vec!["/w/a.pdf".to_string(), "/w/up.pdf".to_string()]);
    let found = vec!["/w/a.pdf".to_string(), "/w/b.pdf".to_string(), "/w/b.pdf".to_string(), "/w/up.pdf".to_string()];
    inject_local_pdf_paths(&mut inputs, &existing, &found);
    assert_eq!(inputs.len(), 5);
    assert_eq!(local_paths(&inputs), vec!["/w/a.pdf".to_string(), "/w/b.pdf".to_string()]);
    // A second injection over the same file system appends nothing.
    let existing = attached_paths(&inputs);
    inject_local_pdf_paths(&mut inputs, &existing, &found);
    assert_eq!(inputs.len(), 5);
}
