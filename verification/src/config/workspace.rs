//! Where a workspace keeps its files.

use vstd::prelude::*;

verus! {

/// Where a workspace keeps its files.
#[derive(Debug, Clone)]
pub struct WorkspaceConfig {
    /// The directory of the cache.
    pub cache_dir: String,
    /// The directory of the workspace's own files.
    pub novelsaga_dir: String,
    /// Whether what version control ignores is ignored here too.
    pub respect_git: bool,
}

impl Default for WorkspaceConfig {
    /// The directory `.novelsaga`, the cache in `cache` below it, and
    /// respect for version control.
    fn default() -> (c: WorkspaceConfig)
        ensures
            c.novelsaga_dir@ == ".novelsaga"@,
            c.cache_dir@ == ".novelsaga"@ + "/cache"@,
            c.respect_git,
    {
        let novelsaga_dir = String::from_str(".novelsaga");
        let mut cache_dir = novelsaga_dir.clone();
        cache_dir.append("/cache");
        WorkspaceConfig { cache_dir, novelsaga_dir, respect_git: true }
    }
}

impl WorkspaceConfig {
    /// A copy of the configuration.
    pub fn duplicate(&self) -> (c: WorkspaceConfig)
        ensures
            c.cache_dir@ == self.cache_dir@,
            c.novelsaga_dir@ == self.novelsaga_dir@,
            c.respect_git == self.respect_git,
    {
        WorkspaceConfig {
            cache_dir: self.cache_dir.clone(),
            novelsaga_dir: self.novelsaga_dir.clone(),
            respect_git: self.respect_git,
        }
    }
}

} // verus!
