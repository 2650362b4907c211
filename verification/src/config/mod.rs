//! The configuration of a workspace: the part that only the root of a
//! workspace sets, and the part that every directory may override.

pub mod fileformat;
pub mod formatter;
pub mod workspace;

use crate::config::formatter::FormatConfig;
use crate::config::workspace::WorkspaceConfig;
use vstd::prelude::*;

verus! {

/// A configuration.
pub trait Config {

}

/// What every directory may override.
#[derive(Debug, Clone)]
pub struct OverridableConfig {
    pub fmt: FormatConfig,
}

impl Config for OverridableConfig {

}

impl Default for OverridableConfig {
    /// The default formatting.
    fn default() -> (c: OverridableConfig)
        ensures
            c.fmt.indent_spaces == 4,
            c.fmt.blank_lines_between_paragraphs == 1,
    {
        OverridableConfig { fmt: FormatConfig::new() }
    }
}

/// What only the root of a workspace sets.
#[derive(Debug, Clone)]
pub struct RootConfig {
    pub workspace: Option<WorkspaceConfig>,
}

impl Config for RootConfig {

}

impl Default for RootConfig {
    /// Nothing set.
    fn default() -> (c: RootConfig)
        ensures
            c.workspace is None,
    {
        RootConfig { workspace: None }
    }
}

/// Whether two root configurations say the same.
pub open spec fn same_root(a: RootConfig, b: RootConfig) -> bool {
    match (a.workspace, b.workspace) {
        (Some(x), Some(y)) => x.cache_dir@ == y.cache_dir@ && x.novelsaga_dir@ == y.novelsaga_dir@
            && x.respect_git == y.respect_git,
        (None, None) => true,
        _ => false,
    }
}

impl RootConfig {
    /// A copy of the configuration.
    pub fn duplicate(&self) -> (c: RootConfig)
        ensures
            same_root(c, *self),
    {
        match &self.workspace {
            Some(w) => RootConfig { workspace: Some(w.duplicate()) },
            None => RootConfig { workspace: None },
        }
    }

    /// The whole configuration with this root and the default for all
    /// that can be overridden.
    pub fn to_novelsaga_config(&self) -> (c: NovelSagaConfig)
        ensures
            c.root matches Some(root) && same_root(root, *self),
            c.overridable.fmt.indent_spaces == 4,
            c.overridable.fmt.blank_lines_between_paragraphs == 1,
    {
        NovelSagaConfig {
            root: Some(self.duplicate()),
            overridable: OverridableConfig { fmt: FormatConfig::new() },
        }
    }
}

/// The whole configuration.
#[derive(Debug, Clone)]
pub struct NovelSagaConfig {
    pub root: Option<RootConfig>,
    pub overridable: OverridableConfig,
}

impl Config for NovelSagaConfig {

}

impl Default for NovelSagaConfig {
    /// No root, and the default for all that can be overridden.
    fn default() -> (c: NovelSagaConfig)
        ensures
            c.root is None,
            c.overridable.fmt.indent_spaces == 4,
            c.overridable.fmt.blank_lines_between_paragraphs == 1,
    {
        NovelSagaConfig { root: None, overridable: OverridableConfig { fmt: FormatConfig::new() } }
    }
}

impl NovelSagaConfig {
    /// The configuration with this root and these overrides; without
    /// overrides, with the default for all that can be overridden.
    pub fn from_root_and_override(root: Option<RootConfig>, overridable: Option<OverridableConfig>) -> (c:
        NovelSagaConfig)
        ensures
            c.root == root,
            match overridable {
                Some(o) => c.overridable == o,
                None => c.overridable.fmt.indent_spaces == 4
                    && c.overridable.fmt.blank_lines_between_paragraphs == 1,
            },
    {
        let overridable = match overridable {
            Some(o) => o,
            None => OverridableConfig { fmt: FormatConfig::new() },
        };
        NovelSagaConfig { root, overridable }
    }
}

} // verus!
