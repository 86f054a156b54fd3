//! Renaming a project.
use crate::changes::{changes_view, Change};
use crate::changesets::{
    add_game_name_to_engine_config, add_project_name_to_game_config, game_name_view,
    project_name_view, rename_descriptor_view, rename_project_descriptor, rename_project_root,
    rename_root_view,
};
use crate::path::FsPath;
use crate::text::is_blank;
use crate::workflows::validation::{
    is_identifier, validate_new_name_is_concise, validate_new_name_is_not_empty,
    validate_new_name_is_novel, validate_new_name_is_valid_identifier,
};
use vstd::prelude::*;
use vstd::string::*;

verus! {

/// The longest new project name, in bytes.
pub const MAX_PROJECT_NAME_LEN: usize = 20;

/// What the user asks for.
pub struct Params {
    /// The root of the project.
    pub project_root: FsPath,
    /// The new name for the project.
    pub new_name: String,
}

/// What renaming a project needs to know.
pub struct Context {
    /// The root of the project.
    pub project_root: FsPath,
    /// The name of the project.
    pub project_name: String,
    /// The new name for the project.
    pub new_name: String,
}

/// The changeset that renames a project: record the new name as the game
/// name and as the project name in the configuration, then rename the
/// project descriptor and the project root.
pub fn generate_changeset(context: &Context) -> (r: Vec<Change>)
    ensures
        changes_view(r@) == seq![
            game_name_view(context.project_root@, context.new_name@),
            project_name_view(context.project_root@, context.new_name@),
            rename_descriptor_view(context.project_root@, context.project_name@, context.new_name@),
            rename_root_view(context.project_root@, context.new_name@),
        ],
{
    let root = &context.project_root;
    let old = context.project_name.as_str();
    let new = context.new_name.as_str();
    let r = vec![
        add_game_name_to_engine_config(root, new),
        add_project_name_to_game_config(root, new),
        rename_project_descriptor(root, old, new),
        rename_project_root(root, new),
    ];
    assert(changes_view(r@) =~= seq![r@[0]@, r@[1]@, r@[2]@, r@[3]@]);
    r
}

/// Checks the new name against the current project name: it must not be
/// blank, must differ from the current name, must fit in 20 bytes and must
/// be an identifier. The first failing check gives the error.
pub fn validate_new_name(project_name: &str, new_name: &str) -> (r: Result<(), String>)
    ensures
        r is Ok <==> {
            &&& !is_blank(new_name@)
            &&& project_name@ != new_name@
            &&& new_name.len() <= MAX_PROJECT_NAME_LEN
            &&& is_identifier(new_name@)
        },
{
    validate_new_name_is_not_empty(new_name)?;
    validate_new_name_is_novel(project_name, new_name)?;
    validate_new_name_is_concise(new_name, MAX_PROJECT_NAME_LEN)?;
    validate_new_name_is_valid_identifier(new_name)?;
    Ok(())
}

/// The message that reports a successful rename.
pub fn success_message(context: &Context) -> (r: String)
    ensures
        r@ == "Successfully renamed project "@ + context.project_name@ + " to "@
            + context.new_name@ + "."@,
{
    crate::text::cat5(
        "Successfully renamed project ",
        context.project_name.as_str(),
        " to ",
        context.new_name.as_str(),
        ".",
    )
}

/// The message that reports a failed rename.
pub fn failure_message(context: &Context) -> (r: String)
    ensures
        r@ == "Failed to rename project "@ + context.project_name@ + " to "@ + context.new_name@
            + "."@,
{
    crate::text::cat5(
        "Failed to rename project ",
        context.project_name.as_str(),
        " to ",
        context.new_name.as_str(),
        ".",
    )
}

} // verus!
