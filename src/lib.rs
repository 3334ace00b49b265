//! Splits a note into its YAML frontmatter and its body, and parses the frontmatter.

pub mod frontmatter;
pub mod laws;
pub mod note;
pub mod text;
pub mod yaml;

pub use frontmatter::extract_frontmatter;
pub use note::{NoteError, ObsidianNote, Properties};
