//! Renaming a build target.
use crate::changes::{changes_view, push_change, Change, ChangeView, RenameFile, ReplaceInFile};
use crate::changesets::{rename_view, replace_view};
use crate::path::{file_name_set, FsPath, PathView};
use crate::text::{cat, cat5, is_blank};
use crate::unreal::{target_names, Target};
use crate::workflows::validation::{
    is_identifier, validate_exists, validate_new_name_is_concise, validate_new_name_is_not_empty,
    validate_new_name_is_unique, validate_new_name_is_valid_identifier,
};
use vstd::prelude::*;
use vstd::string::*;

verus! {

/// The longest new target name, in bytes.
pub const MAX_TARGET_NAME_LEN: usize = 30;

/// What the user asks for.
pub struct Params {
    /// The root of the project.
    pub project_root: FsPath,
    /// The target to rename.
    pub target: String,
    /// The new name for the target.
    pub new_name: String,
}

/// What renaming a target needs to know.
pub struct Context {
    /// The root of the project.
    pub project_root: FsPath,
    /// The build targets of the project.
    pub project_targets: Vec<Target>,
    /// The target to rename.
    pub target: Target,
    /// The new name for the target.
    pub new_name: String,
}

/// Renames the target class `old` to `new` in the target files of
/// `targets` other than `file`.
pub open spec fn cross_target_changes(
    targets: Seq<Target>,
    file: PathView,
    old: Seq<char>,
    new: Seq<char>,
) -> Seq<ChangeView>
    decreases targets.len(),
{
    if targets.len() == 0 {
        Seq::empty()
    } else {
        let rest = cross_target_changes(targets.drop_last(), file, old, new);
        if targets.last().path@ != file {
            rest.push(replace_view(targets.last().path@, old + "Target"@, new + "Target"@))
        } else {
            rest
        }
    }
}

/// The changes that rename the target of `context`.
pub open spec fn target_changeset(context: Context) -> Seq<ChangeView> {
    let file = context.target.path@;
    let old = context.target.name@;
    let new = context.new_name@;
    seq![
        replace_view(file, old + "Target"@, new + "Target"@),
        rename_view(file, file_name_set(file, new + ".Target.cs"@)),
    ] + cross_target_changes(context.project_targets@, file, old, new)
}

/// The changeset that renames a target: the target class in its file, the
/// file itself, then the references to the class in the other targets.
pub fn generate_changeset(context: &Context) -> (r: Vec<Change>)
    ensures
        changes_view(r@) == target_changeset(*context),
{
    let file = &context.target.path;
    let old_class = cat(context.target.name.as_str(), "Target");
    let new_class = cat(context.new_name.as_str(), "Target");
    let mut r: Vec<Change> = Vec::new();
    push_change(
        &mut r,
        Change::ReplaceInFile(ReplaceInFile::new(file.copy(), old_class.as_str(), new_class.as_str())),
    );
    let new_file_name = cat(context.new_name.as_str(), ".Target.cs");
    push_change(
        &mut r,
        Change::RenameFile(RenameFile::new(file.copy(), file.with_file_name(new_file_name.as_str()))),
    );
    let ghost head = changes_view(r@);
    let targets = &context.project_targets;
    let mut i: usize = 0;
    while i < targets.len()
        invariant
            i <= targets@.len(),
            targets == &context.project_targets,
            old_class@ == context.target.name@ + "Target"@,
            new_class@ == context.new_name@ + "Target"@,
            changes_view(r@) == head + cross_target_changes(
                targets@.take(i as int),
                file@,
                context.target.name@,
                context.new_name@,
            ),
        decreases targets@.len() - i,
    {
        proof {
            assert(targets@.take(i + 1).drop_last() =~= targets@.take(i as int));
        }
        if !targets[i].path.same_as(file) {
            push_change(
                &mut r,
                Change::ReplaceInFile(
                    ReplaceInFile::new(targets[i].path.copy(), old_class.as_str(), new_class.as_str()),
                ),
            );
        }
        i = i + 1;
    }
    assert(targets@.take(i as int) =~= targets@);
    r
}

/// The names of `targets`, in order.
pub fn names_of(targets: &Vec<Target>) -> (r: Vec<String>)
    ensures
        r@.map_values(|s: String| s@) == target_names(targets@),
{
    let mut r: Vec<String> = Vec::new();
    let mut i: usize = 0;
    while i < targets.len()
        invariant
            i <= targets@.len(),
            r@.map_values(|s: String| s@) == target_names(targets@.take(i as int)),
        decreases targets@.len() - i,
    {
        let ghost before = r@;
        r.push(targets[i].name.clone());
        proof {
            assert(r@.map_values(|s: String| s@) =~= before.map_values(|s: String| s@).push(
                targets@[i as int].name@,
            ));
            assert(target_names(targets@.take(i + 1)) =~= target_names(targets@.take(i as int)).push(
                targets@[i as int].name@,
            ));
        }
        i = i + 1;
    }
    assert(targets@.take(i as int) =~= targets@);
    r
}

/// Checks the target and the new name: the target must be one of
/// `targets`, and the new name must not be blank, must fit in 30 bytes, must
/// not be taken by another target and must be an identifier. The first
/// failing check gives the error.
pub fn validate_new_name(target: &str, new_name: &str, targets: &Vec<Target>) -> (r: Result<(), String>)
    ensures
        r is Ok <==> {
            &&& target_names(targets@).contains(target@)
            &&& !is_blank(new_name@)
            &&& new_name.len() <= MAX_TARGET_NAME_LEN
            &&& !target_names(targets@).contains(new_name@)
            &&& is_identifier(new_name@)
        },
{
    let names = names_of(targets);
    validate_exists(target, &names, "target")?;
    validate_new_name_is_not_empty(new_name)?;
    validate_new_name_is_concise(new_name, MAX_TARGET_NAME_LEN)?;
    validate_new_name_is_unique(new_name, &names, "target")?;
    validate_new_name_is_valid_identifier(new_name)?;
    Ok(())
}

/// The message that reports a successful rename.
pub fn success_message(context: &Context) -> (r: String)
    ensures
        r@ == "Successfully renamed target "@ + context.target.name@ + " to "@ + context.new_name@
            + "."@,
{
    cat5("Successfully renamed target ", context.target.name.as_str(), " to ", context.new_name.as_str(), ".")
}

/// The message that reports a failed rename.
pub fn failure_message(context: &Context) -> (r: String)
    ensures
        r@ == "Failed to rename target "@ + context.target.name@ + " to "@ + context.new_name@
            + "."@,
{
    cat5("Failed to rename target ", context.target.name.as_str(), " to ", context.new_name.as_str(), ".")
}

} // verus!
