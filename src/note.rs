//! A note: its source, its text, its body and its parsed frontmatter.

use vstd::prelude::*;
use std::path::PathBuf;
use serde_yaml::Value;
use crate::frontmatter::{extract_frontmatter, frontmatter_parts};
use crate::yaml::{parse_yaml, yaml_document};

verus! {

#[verifier::external_type_specification]
#[verifier::external_body]
pub struct ExPathBuf(PathBuf);

/// Relies on `PathBuf::clone`: the copy names the same path.
pub assume_specification[ <PathBuf as Clone>::clone ](p: &PathBuf) -> (r: PathBuf)
    ensures
        r == *p,
;

/// The frontmatter of a note: any YAML value but null.
pub type Properties = Value;

/// A parsed note.
#[derive(Debug, PartialEq, Eq)]
pub struct ObsidianNote {
    /// Where the text came from.
    pub file_path: PathBuf,
    /// The whole text, unchanged.
    pub file_contents: String,
    /// The text after the frontmatter, trimmed.
    pub file_body: String,
    /// The frontmatter, absent where there is none or where it is null.
    pub properties: Option<Properties>,
}

/// Why a note could not be loaded.
#[derive(Debug)]
pub enum NoteError {
    /// The text could not be read from its source.
    Io(String),
    /// The frontmatter block is not valid YAML.
    MetadataSyntax(serde_yaml::Error),
}

/// The mathematical content of a note.
pub struct NoteView {
    pub file_path: PathBuf,
    pub file_contents: Seq<char>,
    pub file_body: Seq<char>,
    pub properties: Option<Value>,
}

impl View for ObsidianNote {
    type V = NoteView;

    open spec fn view(&self) -> NoteView {
        NoteView {
            file_path: self.file_path,
            file_contents: self.file_contents@,
            file_body: self.file_body@,
            properties: self.properties,
        }
    }
}

/// The frontmatter kept from a parsed YAML value: nothing for null.
pub open spec fn kept_properties(v: Value) -> Option<Value> {
    if v is Null {
        None
    } else {
        Some(v)
    }
}

/// The note that `text` from `path` parses to, or `None` where its frontmatter
/// block is not valid YAML.
pub open spec fn parse_outcome(path: PathBuf, text: Seq<char>) -> Option<NoteView> {
    let (block, body) = frontmatter_parts(text);
    let file_body = match body {
        Some(b) => b,
        None => Seq::empty(),
    };
    match block {
        None => Some(
            NoteView { file_path: path, file_contents: text, file_body, properties: None },
        ),
        Some(b) => match yaml_document(b) {
            None => None,
            Some(v) => Some(
                NoteView {
                    file_path: path,
                    file_contents: text,
                    file_body,
                    properties: kept_properties(v),
                },
            ),
        },
    }
}

impl ObsidianNote {
    /// Parses `file_contents`, read from `file_path`, into a note.
    pub fn parse(file_path: &PathBuf, file_contents: String) -> (r: Result<ObsidianNote, NoteError>)
        ensures
            match r {
                Ok(note) => parse_outcome(*file_path, file_contents@) == Some(note@),
                Err(e) => parse_outcome(*file_path, file_contents@) is None && e is MetadataSyntax,
            },
    {
        let (block, body) = extract_frontmatter(file_contents.as_str());
        let properties = match block {
            Some(b) => match parse_yaml(b.as_str()) {
                Ok(v) => match v {
                    Value::Null => None,
                    other => Some(other),
                },
                Err(e) => {
                    return Err(NoteError::MetadataSyntax(e));
                },
            },
            None => None,
        };
        let file_body = match body {
            Some(b) => b,
            None => String::new(),
        };
        Ok(ObsidianNote { file_path: file_path.clone(), file_contents, file_body, properties })
    }
}

} // verus!
