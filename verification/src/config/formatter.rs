//! How an article is formatted.

use vstd::prelude::*;

verus! {

/// How an article is formatted: how far each paragraph is indented, and how
/// many blank lines stand between two paragraphs.
#[derive(Debug, Clone, Copy, PartialEq, Eq, Structural)]
pub struct FormatConfig {
    pub indent_spaces: usize,
    pub blank_lines_between_paragraphs: usize,
}

impl Default for FormatConfig {
    /// Four spaces, and one blank line.
    fn default() -> (c: FormatConfig)
        ensures
            c.indent_spaces == 4,
            c.blank_lines_between_paragraphs == 1,
    {
        FormatConfig { indent_spaces: 4, blank_lines_between_paragraphs: 1 }
    }
}

impl FormatConfig {
    /// The default: four spaces, and one blank line.
    pub fn new() -> (c: FormatConfig)
        ensures
            c.indent_spaces == 4,
            c.blank_lines_between_paragraphs == 1,
    {
        FormatConfig { indent_spaces: 4, blank_lines_between_paragraphs: 1 }
    }

    /// A configuration with these values.
    pub fn with_options(indent_spaces: usize, blank_lines_between_paragraphs: usize) -> (c:
        FormatConfig)
        ensures
            c.indent_spaces == indent_spaces,
            c.blank_lines_between_paragraphs == blank_lines_between_paragraphs,
    {
        FormatConfig { indent_spaces, blank_lines_between_paragraphs }
    }
}

} // verus!
