use magi_core::markdown::MarkdownChunker;

fn sections(content: &str, source: &str) -> Vec<(String, String)> {
    MarkdownChunker::chunk_markdown(content, source)
        .into_iter()
        .map(|s| (s.text, s.source))
        .collect()
}

#[test]
fn a_document_without_headings_is_one_section() {
    assert_eq!(
        sections("plain text\nmore", "notes.md"),
        vec![("plain text\nmore".to_string(), "notes.md".to_string())]
    );
}

#[test]
fn sections_are_labelled_by_their_heading_path() {
    let doc = "Intro text\n# Title\nBody one\n## Sub\nBody two\n# Next\nBody three\n";
    assert_eq!(
        sections(doc, "doc.md"),
        vec![
            ("Intro text".to_string(), "doc.md/Intro".to_string()),
            ("# Title\nBody one".to_string(), "doc.md#Title".to_string()),
            ("## Sub\nBody two".to_string(), "doc.md#Title/Sub".to_string()),
            ("# Next\nBody three".to_string(), "doc.md#Next".to_string()),
        ]
    );
}

#[test]
fn deeper_headings_stay_inside_their_section() {
    let doc = "# A\n#### not a heading\ntext";
    assert_eq!(
        sections(doc, "s"),
        vec![("# A\n#### not a heading\ntext".to_string(), "s#A".to_string())]
    );
}
