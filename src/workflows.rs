//! The renaming workflows: for each kind of thing that can be renamed, the
//! parameters, the context gathered from the project, the checks on the new
//! name, and the changeset.
use crate::text::owned;
use vstd::prelude::*;

pub mod blueprint;
pub mod rename_module;
pub mod rename_plugin;
pub mod rename_project;
pub mod rename_target;
pub mod validation;

verus! {

/// The workflows on offer.
#[derive(Debug, Clone, Copy, PartialEq, Eq, Structural)]
pub enum Workflow {
    RenameProject,
    RenamePlugin,
    RenameTarget,
    RenameModule,
}

impl Workflow {
    /// The label shown for this workflow.
    pub fn describe(&self) -> (r: String)
        ensures
            r@ == match self {
                Workflow::RenameProject => "Rename a project"@,
                Workflow::RenamePlugin => "Rename a plugin"@,
                Workflow::RenameTarget => "Rename a target"@,
                Workflow::RenameModule => "Rename a module"@,
            },
    {
        match self {
            Workflow::RenameProject => owned("Rename a project"),
            Workflow::RenamePlugin => owned("Rename a plugin"),
            Workflow::RenameTarget => owned("Rename a target"),
            Workflow::RenameModule => owned("Rename a module"),
        }
    }
}

} // verus!
