use std::path::PathBuf;

use obsidian_note::{extract_frontmatter, NoteError, ObsidianNote};
use serde_yaml::{Mapping, Value};

fn one_entry(key: &str, value: Value) -> Value {
    Value::Mapping(Mapping::from_iter(
        vec![(Value::String(key.to_string()), value)].into_iter(),
    ))
}

fn parse(text: &str) -> ObsidianNote {
    ObsidianNote::parse(&PathBuf::from("a-note.md"), text.to_string()).unwrap()
}

#[test]
fn parse_returns_body() {
    let note_content = "---\nsome-property: foo\n---\nThe note body\n";
    let note =
        ObsidianNote::parse(&PathBuf::from("a-note.md"), note_content.to_string()).unwrap();

    assert_eq!(note.file_body.trim(), "The note body");
}

#[test]
fn parse_returns_properties() {
    let note_content = "---\nsome-property: foo\n---\n";
    let note =
        ObsidianNote::parse(&PathBuf::from("a-note.md"), note_content.to_string()).unwrap();

    assert_eq!(
        note.properties,
        Some(Value::Mapping(Mapping::from_iter(
            vec![(
                Value::String("some-property".to_string()),
                Value::String("foo".to_string())
            )]
            .into_iter()
        )))
    );
}

#[test]
fn parse_handles_missing_frontmatter() {
    let note =
        ObsidianNote::parse(&PathBuf::from("a-note.md"), "The note contents".to_string()).unwrap();
    assert_eq!(note.properties, None);
}

#[test]
fn parse_handles_empty_frontmatter() {
    let note_content = "---\n---\nThe note content\n";

    let note =
        ObsidianNote::parse(&PathBuf::from("a-note.md"), note_content.to_string()).unwrap();
    assert_eq!(note.properties, None);
}

#[test]
fn parse_handles_tables() {
    // Markdown tables also contain `---`
    let note_content = "| Col1      | Col2      |\n|-----------|-----------|\n| Row1 Col1 | Row1 Col2 |\n| Row2 Col1 | Row2 Col2 |\n";

    let note =
        ObsidianNote::parse(&PathBuf::from("a-note.md"), note_content.to_string()).unwrap();
    assert_eq!(note.properties, None);
}

#[test]
fn frontmatter_and_body_are_split() {
    let note = parse("---\nsome-property: foo\n---\nThe note body\n");
    assert_eq!(note.file_body, "The note body");
    assert_eq!(note.properties, Some(one_entry("some-property", Value::String("foo".to_string()))));
    assert_eq!(note.file_contents, "---\nsome-property: foo\n---\nThe note body\n");
    assert_eq!(note.file_path, PathBuf::from("a-note.md"));
}

#[test]
fn frontmatter_without_body_gives_empty_body() {
    let note = parse("---\nsome-property: foo\n---\n");
    assert_eq!(note.file_body, "");
    assert_eq!(note.properties, Some(one_entry("some-property", Value::String("foo".to_string()))));
}

#[test]
fn text_without_marker_is_all_body() {
    let note = parse("  The note contents\n\n");
    assert_eq!(note.properties, None);
    assert_eq!(note.file_body, "The note contents");
}

#[test]
fn empty_block_gives_no_properties() {
    let note = parse("---\n---\nThe note content\n");
    assert_eq!(note.properties, None);
    assert_eq!(note.file_body, "The note content");
}

#[test]
fn explicit_null_block_gives_no_properties() {
    let note = parse("---\n~\n---\nbody");
    assert_eq!(note.properties, None);
    assert_eq!(note.file_body, "body");
}

#[test]
fn table_text_is_all_body() {
    let text = "| Col1      | Col2      |\n|-----------|-----------|\n| Row1 Col1 | Row1 Col2 |\n";
    let note = parse(text);
    assert_eq!(note.properties, None);
    assert_eq!(note.file_body, text.trim());
}

#[test]
fn marker_after_content_is_body() {
    let text = "intro\n---\na: 1\n---\nrest";
    let (block, body) = extract_frontmatter(text);
    assert_eq!(block, None);
    assert_eq!(body, Some(text.to_string()));
}

#[test]
fn later_markers_stay_in_body() {
    let (block, body) = extract_frontmatter("---\na: 1\n---\nfirst\n---\nsecond\n");
    assert_eq!(block, Some("a: 1".to_string()));
    assert_eq!(body, Some("first\n---\nsecond".to_string()));
}

#[test]
fn single_marker_at_start_is_all_block() {
    let (block, body) = extract_frontmatter("---\nfoo\n");
    assert_eq!(block, Some("foo".to_string()));
    assert_eq!(body, None);
    let note = parse("---\nfoo\n");
    assert_eq!(note.properties, Some(Value::String("foo".to_string())));
    assert_eq!(note.file_body, "");
}

#[test]
fn empty_text_has_empty_body() {
    let (block, body) = extract_frontmatter("");
    assert_eq!(block, None);
    assert_eq!(body, Some(String::new()));
}

#[test]
fn unicode_whitespace_is_trimmed() {
    let (block, body) = extract_frontmatter("---\u{3000}key: v\u{a0}---\u{2003}text\u{85}");
    assert_eq!(block, Some("key: v".to_string()));
    assert_eq!(body, Some("text".to_string()));
}

#[test]
fn non_ascii_text_splits_at_characters() {
    let (block, body) = extract_frontmatter("---\nnom: été\n---\nüber ---");
    assert_eq!(block, Some("nom: été".to_string()));
    assert_eq!(body, Some("über ---".to_string()));
}

#[test]
fn malformed_block_is_an_error() {
    let r = ObsidianNote::parse(&PathBuf::from("a-note.md"), "---\na: [1, 2\n---\nbody".to_string());
    assert!(matches!(r, Err(NoteError::MetadataSyntax(_))));
}

#[test]
fn reparsing_gives_the_same_note() {
    let note = parse("---\ntags:\n  - one\n  - two\n---\n# Title\n");
    let again = parse(&note.file_contents);
    assert_eq!(note, again);
}

#[test]
fn sequence_at_top_level_is_kept() {
    let note = parse("---\n- a\n- b\n---\nx");
    assert_eq!(
        note.properties,
        Some(Value::Sequence(vec![Value::String("a".to_string()), Value::String("b".to_string())]))
    );
}
