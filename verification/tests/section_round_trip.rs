use codex_core::document::metadata_payloads_of;
use codex_core::document::parse_sections_of;
use codex_core::document::sections_to_markdown;
use codex_core::document::CachedSection;
use codex_core::document::MetadataTable;
use codex_core::document::SectionMetadata;

fn section(heading: &str, content: &str, foldable: bool, summary: Option<&str>) -> CachedSection {
    CachedSection {
        heading: heading.to_string(),
        content: content.to_string(),
        foldable,
        summary: summary.map(|s| s.to_string()),
    }
}

#[test]
fn sections_read_back_from_their_markdown() {
    let sections = vec![
        section("Intro", "first line\n\nthird line", false, None),
        section("Details", "body with \"quotes\"", true, Some("short\nsummary")),
        section("Empty", "", true, None),
    ];
    let markdown = sections_to_markdown(&sections);
    let payloads = metadata_payloads_of(&markdown);
    assert_eq!(payloads.len(), 2);
    let table = MetadataTable {
        entries: vec![
            (
                payloads[0].clone(),
                Some(SectionMetadata { foldable: true, summary: Some("short\nsummary".to_string()) }),
            ),
            (payloads[1].clone(), Some(SectionMetadata { foldable: true, summary: None })),
        ],
    };
    let chars: Vec<char> = markdown.chars().collect();
    let read = parse_sections_of(&chars, &table);
    assert_eq!(read.len(), sections.len());
    for (a, b) in read.iter().zip(sections.iter()) {
        assert_eq!(a.heading, b.heading);
        assert_eq!(a.content, b.content);
        assert_eq!(a.foldable, b.foldable);
        assert_eq!(a.summary, b.summary);
    }
}
