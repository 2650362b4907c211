//! An article: a text to be formatted.

use crate::config::formatter::FormatConfig;
use crate::library::formatter::{format_text, formatted};
use vstd::prelude::*;
use vstd::string::StringSliceAdditionalSpecFns;

verus! {

/// An article and its text.
#[derive(Debug, Clone)]
pub struct Article {
    content: String,
}

impl View for Article {
    type V = Seq<char>;

    closed spec fn view(&self) -> Seq<char> {
        self.content@
    }
}

impl Article {
    /// The article with the text `content`.
    pub fn new(content: String) -> (a: Article)
        ensures
            a@ == content@,
    {
        Article { content }
    }

    /// The text of the article.
    pub fn content_ref(&self) -> (s: &str)
        ensures
            s@ == self@,
    {
        self.content.as_str()
    }

    /// A copy of the text of the article.
    pub fn content(&self) -> (s: String)
        ensures
            s@ == self@,
    {
        self.content.clone()
    }

    /// The length of the text in bytes, as UTF-8.
    pub fn len(&self) -> (n: usize)
        ensures
            n == vstd::utf8::encode_utf8(self@).len() as usize,
    {
        let s = self.content.as_str();
        assert(s.spec_bytes() == vstd::utf8::encode_utf8(s@));
        s.len()
    }

    /// Whether the text is empty.
    pub fn is_empty(&self) -> (b: bool)
        ensures
            b == (self@.len() == 0),
    {
        self.content.as_str().is_empty()
    }

    /// The article formatted as `config` says.
    pub fn format(&self, config: &FormatConfig) -> (a: Article)
        ensures
            a@ == formatted(self@, *config),
    {
        format_text(self, config)
    }
}

} // verus!
