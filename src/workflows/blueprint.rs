//! Renaming a Blueprint project, described by the kind of project found.
use crate::changes::{changes_view, Change};
use crate::changesets::{
    add_game_name_to_engine_config, add_project_name_to_game_config, game_name_view,
    project_name_view, rename_descriptor_view, rename_project_descriptor, rename_project_root,
    rename_root_view,
};
use crate::path::FsPath;
use vstd::prelude::*;

verus! {

/// Whether a project holds code or Blueprints only.
#[derive(Debug, Clone, Copy, PartialEq, Eq, Structural)]
pub enum ProjectType {
    Blueprint,
    Code,
}

/// What renaming a project needs to know.
pub struct Context {
    /// The root of the project.
    pub project_root: FsPath,
    /// The name of the project.
    pub project_name: String,
    /// The kind of project.
    pub project_type: ProjectType,
    /// The new name for the project.
    pub target_name: String,
}

/// The changeset that renames a Blueprint project: rename the project
/// descriptor, record the new name as the game name and as the project name
/// in the configuration, and rename the project root.
pub fn generate_blueprint_changeset(context: &Context) -> (r: Vec<Change>)
    ensures
        changes_view(r@) == seq![
            rename_descriptor_view(context.project_root@, context.project_name@, context.target_name@),
            game_name_view(context.project_root@, context.target_name@),
            project_name_view(context.project_root@, context.target_name@),
            rename_root_view(context.project_root@, context.target_name@),
        ],
{
    let root = &context.project_root;
    let old = context.project_name.as_str();
    let new = context.target_name.as_str();
    let r = vec![
        rename_project_descriptor(root, old, new),
        add_game_name_to_engine_config(root, new),
        add_project_name_to_game_config(root, new),
        rename_project_root(root, new),
    ];
    assert(changes_view(r@) =~= seq![r@[0]@, r@[1]@, r@[2]@, r@[3]@]);
    r
}

} // verus!
