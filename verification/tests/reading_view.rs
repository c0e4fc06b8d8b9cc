use codex_core::document::{CachedSection, MetadataTable};
use codex_core::reading_view::{
    next_streaming_section, parse_reading_view_config_mode, reading_view_config_mode_from_config,
    reading_view_display_mode_from_config, reading_view_display_mode_state, reading_view_tools_enabled,
    strip_citation_markers, CachedDocument, DocumentCache, DocumentEvent, DocumentRequest,
    ReadingViewConfigMode, ReadingViewDisplayMode, reading_view_selection_follow_up_guidance,
    reading_view_section_follow_up_guidance, reading_view_display_mode_guidance,
};
use codex_core::document::metadata_payloads_of;

fn section(heading: &str, content: &str) -> CachedSection {
    CachedSection { heading: heading.to_string(), content: content.to_string(), foldable: false, summary: None }
}

#[test]
fn test_strip_citation_markers() {
    assert_eq!(strip_citation_markers("hello citeturn0view0"), "hello");
    assert_eq!(strip_citation_markers("quality. citeturn1view10turn7view0"), "quality.");
    assert_eq!(strip_citation_markers("text citeturn5search0 more"), "text more");
    assert_eq!(strip_citation_markers("mixed citeturn7view0turn5search0turn1view2"), "mixed");
    assert_eq!(strip_citation_markers("no markers"), "no markers");
}

#[test]
fn next_streaming_section_returns_next_index_and_heading() {
    let doc = CachedDocument {
        title: "Doc".to_string(),
        sections: vec![section("Overview", ""), section("Method", "")],
        streaming_next: Some(1),
    };
    assert_eq!(next_streaming_section(&doc), Some((1, "Method".to_string())));
}

#[test]
fn next_streaming_section_is_none_when_done() {
    let doc = CachedDocument { title: "Doc".to_string(), sections: vec![section("A", "x")], streaming_next: None };
    assert_eq!(next_streaming_section(&doc), None);
}

#[test]
fn parse_reading_view_config_mode_accepts_disabled_and_off() {
    assert_eq!(parse_reading_view_config_mode(Some("browser")), ReadingViewConfigMode::Browser);
    assert_eq!(parse_reading_view_config_mode(Some("disabled")), ReadingViewConfigMode::Disabled);
    assert_eq!(parse_reading_view_config_mode(Some("off")), ReadingViewConfigMode::Disabled);
    assert_eq!(parse_reading_view_config_mode(Some("tui")), ReadingViewConfigMode::Tui);
    assert_eq!(parse_reading_view_config_mode(Some("  BROWSER ")), ReadingViewConfigMode::Browser);
    assert_eq!(parse_reading_view_config_mode(Some("anything")), ReadingViewConfigMode::Tui);
    assert_eq!(parse_reading_view_config_mode(None), ReadingViewConfigMode::Tui);
}

#[test]
fn reading_view_mode_overrides_legacy_feature_flag() {
    let mode = reading_view_config_mode_from_config(Some("disabled"), true);
    assert_eq!(mode, ReadingViewConfigMode::Disabled);
    assert!(!reading_view_tools_enabled(mode));
    assert_eq!(reading_view_display_mode_from_config(mode), ReadingViewDisplayMode::Tui);
    assert_eq!(reading_view_config_mode_from_config(None, false), ReadingViewConfigMode::Disabled);
    assert_eq!(reading_view_config_mode_from_config(None, true), ReadingViewConfigMode::Tui);
    assert_eq!(
        reading_view_display_mode_from_config(reading_view_config_mode_from_config(Some("browser"), false)),
        ReadingViewDisplayMode::Browser
    );
}

#[test]
fn display_mode_is_kept_and_reported() {
    let mut cache = DocumentCache::with_display_mode(ReadingViewDisplayMode::Tui);
    assert_eq!(cache.display_mode(), ReadingViewDisplayMode::Tui);
    cache.set_display_mode(ReadingViewDisplayMode::Browser);
    assert_eq!(cache.display_mode(), ReadingViewDisplayMode::Browser);
    assert_eq!(
        reading_view_display_mode_state(ReadingViewDisplayMode::Browser),
        "Current reading view display mode: Browser. Follow the Browser formatting rules in the reading view tool descriptions."
    );
}

fn present(cache: &mut DocumentCache, id: &str, content: &str) -> Result<codex_core::reading_view::DocumentReply, String> {
    cache.handle_request(
        DocumentRequest::Present {
            document_id: id.to_string(),
            title: Some("Title".to_string()),
            content: Some(content.to_string()),
            metadata: MetadataTable::empty(),
        },
        false,
    )
}

#[test]
fn presenting_caches_the_sections() {
    let mut cache = DocumentCache::with_display_mode(ReadingViewDisplayMode::Tui);
    let reply = present(&mut cache, "d1", "## One\nfirst\n## Two\nsecond").unwrap();
    assert!(reply.message.starts_with("Document displayed in reading mode."));
    assert_eq!(reply.events.len(), 1);
    match &reply.events[0] {
        DocumentEvent::PresentDocument { document_id, title, is_reopen, .. } => {
            assert_eq!(document_id, "d1");
            assert_eq!(title, "Title");
            assert!(!is_reopen);
        }
        _ => panic!("expected a present event"),
    }
    let doc = cache.get("d1").expect("cached");
    assert_eq!(doc.sections.len(), 2);
    assert_eq!(doc.sections[0].heading, "One");
    assert_eq!(doc.sections[1].heading, "Two");
    assert!(cache.contains("d1"));
    assert!(!cache.contains("d2"));
}

#[test]
fn presenting_an_unknown_document_without_content_fails() {
    let mut cache = DocumentCache::with_display_mode(ReadingViewDisplayMode::Tui);
    let err = cache
        .handle_request(
            DocumentRequest::Present {
                document_id: "nope".to_string(),
                title: None,
                content: None,
                metadata: MetadataTable::empty(),
            },
            false,
        )
        .unwrap_err();
    assert_eq!(
        err,
        "No cached document with id \"nope\". Provide title and content when presenting a document for the first time."
    );
    assert!(!cache.contains("nope"));
}

#[test]
fn updating_replaces_one_section_and_rejects_bad_indices() {
    let mut cache = DocumentCache::with_display_mode(ReadingViewDisplayMode::Tui);
    present(&mut cache, "d1", "## One\nfirst\n## Two\nsecond").unwrap();
    cache
        .handle_request(
            DocumentRequest::Update { document_id: "d1".to_string(), section_index: 1, content: "new".to_string() },
            false,
        )
        .unwrap();
    let doc = cache.get("d1").unwrap();
    assert_eq!(doc.sections[1].content, "new");
    assert!(doc.sections[0].content.contains("first"));
    let err = cache
        .handle_request(
            DocumentRequest::Update { document_id: "d1".to_string(), section_index: 5, content: "x".to_string() },
            false,
        )
        .unwrap_err();
    assert_eq!(err, "Section index 5 is out of bounds. Document has 2 section(s) (valid indices: 0\u{2013}1).");
    let err = cache
        .handle_request(
            DocumentRequest::Update { document_id: "zz".to_string(), section_index: 0, content: "x".to_string() },
            false,
        )
        .unwrap_err();
    assert!(err.starts_with("No document with id \"zz\" is currently being viewed."));
}

#[test]
fn patching_replaces_the_first_occurrence() {
    let mut cache = DocumentCache::with_display_mode(ReadingViewDisplayMode::Tui);
    present(&mut cache, "d1", "## One\nab ab").unwrap();
    cache
        .handle_request(
            DocumentRequest::Patch {
                document_id: "d1".to_string(),
                section_index: 0,
                old_text: "ab".to_string(),
                new_text: "cd".to_string(),
                foldable: None,
                summary: None,
            },
            false,
        )
        .unwrap();
    assert!(cache.get("d1").unwrap().sections[0].content.contains("cd ab"));
    let before = cache.get("d1").unwrap().sections[0].content.clone();
    let err = cache
        .handle_request(
            DocumentRequest::Patch {
                document_id: "d1".to_string(),
                section_index: 0,
                old_text: "missing".to_string(),
                new_text: "x".to_string(),
                foldable: None,
                summary: None,
            },
            false,
        )
        .unwrap_err();
    assert!(err.starts_with("old_text not found in section 0."));
    assert_eq!(cache.get("d1").unwrap().sections[0].content, before);
}

#[test]
fn adding_and_appending_sections() {
    let mut cache = DocumentCache::with_display_mode(ReadingViewDisplayMode::Tui);
    present(&mut cache, "d1", "## One\nfirst").unwrap();
    cache
        .handle_request(
            DocumentRequest::Add {
                document_id: "d1".to_string(),
                after_section_index: 0,
                heading: "Two".to_string(),
                content: "second".to_string(),
                foldable: None,
                summary: None,
            },
            false,
        )
        .unwrap();
    assert_eq!(cache.get("d1").unwrap().sections.len(), 2);
    assert_eq!(cache.get("d1").unwrap().sections[1].heading, "Two");
    cache
        .handle_request(
            DocumentRequest::Append {
                document_id: "d1".to_string(),
                section_index: 1,
                content: " more".to_string(),
                foldable: None,
                summary: None,
            },
            false,
        )
        .unwrap();
    assert!(cache.get("d1").unwrap().sections[1].content.starts_with("second"));
    assert!(cache.get("d1").unwrap().sections[1].content.contains("more"));
}

#[test]
fn restore_document_caches_parsed_sections() {
    let mut cache = DocumentCache::with_display_mode(ReadingViewDisplayMode::Browser);
    cache.restore_document("r".to_string(), "T".to_string(), "## A\nx\n## B\ny", &MetadataTable::empty());
    let doc = cache.get("r").unwrap();
    assert_eq!(doc.title, "T");
    assert_eq!(doc.sections.len(), 2);
}

#[test]
fn follow_up_guidance_names_the_tool_and_the_mode() {
    let selection = reading_view_selection_follow_up_guidance(ReadingViewDisplayMode::Browser);
    assert!(selection.starts_with("Preferred tool: patch_document_section on the exact selected text.\n"));
    assert!(selection.contains("Current reading view display mode: Browser."));
    assert!(selection.ends_with("Do NOT output plain text; only tool calls are visible to the user."));
    let section = reading_view_section_follow_up_guidance(ReadingViewDisplayMode::Tui);
    assert!(section.starts_with("Preferred tool: patch_document_section near the most relevant passage.\n"));
    assert!(section.contains("Current reading view display mode: Tui."));
    assert!(section.contains("\n\nDo NOT rewrite the entire section unless the user explicitly asks for a rewrite.\n"));
}

#[test]
fn display_mode_guidance_describes_both_modes() {
    let g = reading_view_display_mode_guidance();
    assert!(g.starts_with("READING VIEW DISPLAY MODES:"));
    assert!(g.contains("- Tui: terminal-safe formatting only."));
    assert!(g.contains("- Browser: full HTML rendering is available."));
}

#[test]
fn metadata_payloads_are_read_from_comment_lines() {
    let content = "# A\n<!-- CODEX_SECTION_META {\"foldable\":true,\"summary\":null} -->\nbody\n<!-- CODEX_SECTION_META {\"foldable\":false,\"summary\":\"s\"} -->";
    assert_eq!(
        metadata_payloads_of(content),
        vec![
            "{\"foldable\":true,\"summary\":null}".to_string(),
            "{\"foldable\":false,\"summary\":\"s\"}".to_string(),
        ]
    );
    assert!(metadata_payloads_of("no comments here").is_empty());
}

#[test]
fn default_cache_is_empty_and_in_terminal_mode() {
    let cache = DocumentCache::default();
    assert_eq!(cache.display_mode(), ReadingViewDisplayMode::Tui);
    assert_eq!(cache.display_mode(), ReadingViewDisplayMode::Tui);
    assert_eq!(DocumentCache::with_display_mode(ReadingViewDisplayMode::Browser).display_mode(), ReadingViewDisplayMode::Browser);
}
