use codex_core::attach_url_files::{
    attachment_answer, check_file_count, collect_downloads, render_failure_only_summary, render_summary,
    validate_and_dedup, AttachmentFailure, AttachmentSuccess, CheckedUrl, DownloadOutcome, RequestedFile,
    MAX_URLS_PER_CALL,
};

fn ok_file(url: &str, filename: Option<&str>) -> RequestedFile {
    RequestedFile {
        checked: Ok(CheckedUrl {
            cache_key: url.to_lowercase(),
            redacted_url: url.to_string(),
            default_filename: "derived.pdf".to_string(),
        }),
        filename: filename.map(|f| f.to_string()),
    }
}

fn bad_file(url: &str, reason: &str) -> RequestedFile {
    RequestedFile {
        checked: Err(AttachmentFailure { redacted_url: url.to_string(), reason: reason.to_string() }),
        filename: None,
    }
}

#[test]
fn rejects_empty_and_oversized_calls() {
    assert_eq!(check_file_count(0).unwrap_err(), "attach_url_files requires at least one file");
    assert_eq!(
        check_file_count(MAX_URLS_PER_CALL + 1).unwrap_err(),
        "attach_url_files accepts at most 10 URLs per call"
    );
    assert!(check_file_count(1).is_ok());
    assert!(check_file_count(10).is_ok());
}

#[test]
fn duplicates_are_skipped_with_a_warning() {
    let files = vec![
        ok_file("https://example.com/doc.pdf", Some("  paper.pdf ")),
        bad_file("ftp://example.com/a.pdf", "unsupported scheme"),
        ok_file("https://EXAMPLE.com/doc.pdf", None),
        ok_file("https://example.com/other.pdf", Some("   ")),
    ];
    let (kept, failures, warnings) = validate_and_dedup(&files);
    assert_eq!(kept.len(), 2);
    assert_eq!((kept[0].index, kept[0].filename.as_deref()), (0, Some("paper.pdf")));
    assert_eq!((kept[1].index, kept[1].filename.as_deref()), (3, None));
    assert_eq!(failures.len(), 1);
    assert_eq!(failures[0].reason, "unsupported scheme");
    assert_eq!(warnings, vec!["Skipped duplicate URL: https://EXAMPLE.com/doc.pdf".to_string()]);
}

#[test]
fn downloads_pair_with_kept_files() {
    let files = vec![ok_file("https://example.com/a.pdf", None), ok_file("https://example.com/b.pdf", Some("b.pdf"))];
    let (kept, mut failures, warnings) = validate_and_dedup(&files);
    let outcomes = vec![
        DownloadOutcome::Success("/cache/a.pdf".to_string()),
        DownloadOutcome::Failure(AttachmentFailure {
            redacted_url: "https://example.com/b.pdf".to_string(),
            reason: "not a PDF".to_string(),
        }),
    ];
    let successes = collect_downloads(&files, &kept, &outcomes, &mut failures);
    assert_eq!(successes.len(), 1);
    assert_eq!(successes[0].filename, "derived.pdf");
    assert_eq!(successes[0].cached_path, "/cache/a.pdf");
    let summary = attachment_answer(&successes, &failures, &warnings).unwrap();
    assert_eq!(
        summary,
        "Attached 1 URL file(s) to the local cache. Other tools (document_reader, crop_figure) can now read them by URL or cached path.\nFiles:\n- https://example.com/a.pdf (derived.pdf) -> /cache/a.pdf\nFailures:\n- https://example.com/b.pdf (not a PDF)"
    );
}

#[test]
fn summaries_list_warnings_and_failures() {
    let successes = vec![AttachmentSuccess {
        redacted_url: "https://example.com/doc.pdf".to_string(),
        filename: "doc.pdf".to_string(),
        cached_path: "/c/doc.pdf".to_string(),
    }];
    let warnings = vec!["Skipped duplicate URL: https://example.com/doc.pdf".to_string()];
    let text = render_summary(&successes, &[], &warnings);
    assert!(text.contains("Attached 1 URL file(s)"));
    assert!(text.ends_with("\nWarnings:\n- Skipped duplicate URL: https://example.com/doc.pdf"));
    assert_eq!(render_failure_only_summary(&[]), "No valid URL files to attach.");
    let failures = vec![AttachmentFailure { redacted_url: "http://x/b.pdf".to_string(), reason: "https only".to_string() }];
    assert_eq!(
        render_failure_only_summary(&failures),
        "No URL files were attached.\nFailures:\n- http://x/b.pdf (https only)"
    );
    assert_eq!(
        attachment_answer(&[], &failures, &[]).unwrap_err(),
        "No URL files were attached.\nFailures:\n- http://x/b.pdf (https only)"
    );
}

#[test]
fn every_file_is_kept_failed_or_skipped_once() {
    let files = vec![
        ok_file("https://a.example/x.pdf", None),
        bad_file("ftp://b", "unsupported"),
        ok_file("https://a.example/x.pdf", Some("again.pdf")),
        ok_file("https://c.example/y.pdf", None),
    ];
    let (kept, failures, warnings) = validate_and_dedup(&files);
    assert_eq!(kept.len() + failures.len() + warnings.len(), files.len());
    assert_eq!(kept.len(), 2);
}
