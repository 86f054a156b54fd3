//! The well-known directories of a project.
use crate::path::{joined, FsPath};
use vstd::prelude::*;

verus! {

/// Finds the directories of the project rooted at `root`.
pub struct Pathfinder {
    pub root: FsPath,
}

impl Pathfinder {
    /// The root directory.
    pub fn root_dir(&self) -> (r: FsPath)
        ensures
            r@ == self.root@,
    {
        self.root.copy()
    }

    /// The backup directory.
    pub fn backup_dir(&self) -> (r: FsPath)
        ensures
            r@ == joined(joined(self.root@, "_renom"@), "Backup"@),
    {
        self.root.join("_renom").join("Backup")
    }

    /// The staging directory.
    pub fn staging_dir(&self) -> (r: FsPath)
        ensures
            r@ == joined(joined(self.root@, "_renom"@), "Staging"@),
    {
        self.root.join("_renom").join("Staging")
    }

    /// The config directory.
    pub fn config_dir(&self) -> (r: FsPath)
        ensures
            r@ == joined(self.root@, "Config"@),
    {
        self.root.join("Config")
    }

    /// The source directory.
    pub fn source_dir(&self) -> (r: FsPath)
        ensures
            r@ == joined(self.root@, "Source"@),
    {
        self.root.join("Source")
    }

    /// The source subdirectory of the project `proj_name`.
    pub fn source_proj_dir(&self, proj_name: &str) -> (r: FsPath)
        ensures
            r@ == joined(joined(self.root@, "Source"@), proj_name@),
    {
        self.source_dir().join(proj_name)
    }
}

} // verus!
