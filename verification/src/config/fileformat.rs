//! The kinds of configuration file beyond the plain data formats.

use vstd::prelude::*;

verus! {

/// A kind of configuration file.
#[derive(Debug, Clone, Copy, PartialEq, Eq, Structural)]
pub enum NovelSagaFileFormat {
    /// Markdown with front matter.
    Markdown,
    /// A JavaScript module.
    JavaScript,
    /// A TypeScript module.
    TypeScript,
}

/// The file extensions of a format.
pub open spec fn extensions_of(format: NovelSagaFileFormat) -> Seq<Seq<char>> {
    match format {
        NovelSagaFileFormat::Markdown => seq!["md"@, "markdown"@],
        NovelSagaFileFormat::JavaScript => seq!["js"@, "cjs"@, "mjs"@],
        NovelSagaFileFormat::TypeScript => seq!["ts"@, "cts"@, "mts"@],
    }
}

/// The extensions as texts.
pub open spec fn extensions_view(extensions: Seq<&'static str>) -> Seq<Seq<char>> {
    extensions.map_values(|e: &'static str| e@)
}

impl NovelSagaFileFormat {
    /// The file extensions of the format.
    pub fn get_extensions(&self) -> (extensions: Vec<&'static str>)
        ensures
            extensions_view(extensions@) == extensions_of(*self),
    {
        let mut extensions: Vec<&'static str> = Vec::new();
        match self {
            NovelSagaFileFormat::Markdown => {
                extensions.push("md");
                extensions.push("markdown");
            },
            NovelSagaFileFormat::JavaScript => {
                extensions.push("js");
                extensions.push("cjs");
                extensions.push("mjs");
            },
            NovelSagaFileFormat::TypeScript => {
                extensions.push("ts");
                extensions.push("cts");
                extensions.push("mts");
            },
        }
        assert(extensions_view(extensions@) =~= extensions_of(*self));
        extensions
    }
}

} // verus!
