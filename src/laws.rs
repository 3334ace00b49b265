//! What holds of every parse.

use vstd::prelude::*;
use std::path::PathBuf;
use serde_yaml::Value;
use crate::frontmatter::{first_marker_from, frontmatter_parts, marker_at};
use crate::note::{kept_properties, parse_outcome, NoteView};
use crate::text::trimmed;
use crate::yaml::yaml_document;

verus! {

/// The marker that opens and closes a frontmatter block.
pub open spec fn marker() -> Seq<char> {
    seq!['-', '-', '-']
}

/// A text in which the marker does not occur, or occurs once but not at its
/// start, has no frontmatter: its body is the whole text, trimmed.
pub proof fn lemma_at_most_one_marker(path: PathBuf, text: Seq<char>)
    requires
        match first_marker_from(text, 0) {
            None => true,
            Some(i) => i > 0 && first_marker_from(text, i + 3) is None,
        },
    ensures
        parse_outcome(path, text) == Some(
            NoteView { file_path: path, file_contents: text, file_body: trimmed(text), properties: None },
        ),
{
    assert(!marker_at(text, 0));
}

/// A text whose first marker stands after other content, such as a table's
/// separator row, has no frontmatter: its body is the whole text, trimmed.
pub proof fn lemma_marker_after_content(path: PathBuf, text: Seq<char>)
    requires
        first_marker_from(text, 0) matches Some(i) && i > 0,
    ensures
        parse_outcome(path, text) == Some(
            NoteView { file_path: path, file_contents: text, file_body: trimmed(text), properties: None },
        ),
{
    assert(!marker_at(text, 0));
}

/// A text made of the marker, a block, a second marker and a rest parses to
/// the block's YAML value, null dropped, and to the rest trimmed as its body;
/// it fails exactly where the trimmed block is not valid YAML.
pub proof fn lemma_block_then_body(path: PathBuf, block: Seq<char>, rest: Seq<char>)
    requires
        first_marker_from(marker() + block + marker() + rest, 3) == Some(3 + block.len() as int),
    ensures
        ({
            let text = marker() + block + marker() + rest;
            parse_outcome(path, text) == match yaml_document(trimmed(block)) {
                None => None,
                Some(v) => Some(
                    NoteView {
                        file_path: path,
                        file_contents: text,
                        file_body: trimmed(rest),
                        properties: kept_properties(v),
                    },
                ),
            }
        }),
        (yaml_document(trimmed(block)) is Some && !(yaml_document(trimmed(block))->0 is Null))
            ==> (parse_outcome(path, marker() + block + marker() + rest) matches Some(n)
            && n.properties == yaml_document(trimmed(block)) && n.file_body == trimmed(rest)),
{
    let text = marker() + block + marker() + rest;
    let j = 3 + block.len() as int;
    assert(marker_at(text, 0));
    assert(text.subrange(3, j) =~= block);
    assert(text.subrange(j + 3, text.len() as int) =~= rest);
}

/// Parsing the text of a parsed note again, from the same path, gives the same note.
pub proof fn lemma_reparse(path: PathBuf, text: Seq<char>)
    ensures
        parse_outcome(path, text) matches Some(n) ==> parse_outcome(path, n.file_contents)
            == Some(n),
{
}

/// A parsed note never holds null frontmatter, and a block that parses to
/// null leaves the note without frontmatter.
pub proof fn lemma_null_dropped(path: PathBuf, text: Seq<char>)
    ensures
        parse_outcome(path, text) matches Some(n) ==> n.properties != Some(Value::Null),
        (frontmatter_parts(text).0 matches Some(b) && yaml_document(b) == Some(Value::Null))
            ==> (parse_outcome(path, text) matches Some(n) && n.properties is None),
{
}

} // verus!
