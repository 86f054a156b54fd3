//! Renaming a code module.
use crate::changes::{changes_view, push_change, Change, ChangeView, RenameFile, ReplaceInFile};
use crate::changesets::{
    append_module_redirect, descriptor_at, module_redirect_view, module_redirects_view,
    quoted_view, rename_view, replace_quoted_reference, replace_then_rename, replace_view,
    update_module_redirects,
};
use crate::path::{extension_set, file_name_set, joined, FsPath};
use crate::pattern::{named_captures, regex_named_captures};
use crate::text::{cat, cat5, is_blank, owned, to_upper, upper_of};
use crate::unreal::{module_names, Module};
use crate::workflows::validation::{
    is_identifier, validate_exists, validate_new_name_is_concise, validate_new_name_is_not_empty,
    validate_new_name_is_unique, validate_new_name_is_valid_identifier,
};
use vstd::prelude::*;
use vstd::string::*;

verus! {

/// The longest new module name, in bytes.
pub const MAX_MODULE_NAME_LEN: usize = 30;

/// What the user asks for.
pub struct Params {
    /// The root of the project.
    pub project_root: FsPath,
    /// The module to rename.
    pub module: String,
    /// The new name for the module.
    pub new_name: String,
}

/// A source file and its content.
pub struct SourceFile {
    pub path: FsPath,
    pub content: String,
}

/// What renaming a module needs to know.
pub struct Context {
    /// The root of the project that the module is part of.
    pub project_root: FsPath,
    /// The name of the project.
    pub project_name: String,
    /// The target files of the project.
    pub project_targets: Vec<FsPath>,
    /// The config files of the project.
    pub project_config_files: Vec<FsPath>,
    /// The code modules of the project.
    pub modules: Vec<Module>,
    /// The module to rename.
    pub module: Module,
    /// The new name for the module.
    pub new_name: String,
    /// The source file that holds the module implementation macro.
    pub source_with_implement_macro: Option<SourceFile>,
    /// The header files that use the module export macro.
    pub headers_with_export_macro: Vec<FsPath>,
}

/// The pattern that finds the module implementation macro and its first
/// argument.
pub open spec fn implement_macro_captures() -> Seq<char> {
    "(?P<macro>IMPLEMENT_(GAME_|PRIMARY_GAME_)?MODULE)\\((?P<impl>.+?),"@
}

/// The new arguments of the implementation macro `macro_name`, whose first
/// argument is `implementation`.
pub open spec fn implement_macro_text(macro_name: Seq<char>, implementation: Seq<char>, new: Seq<char>) -> Seq<char> {
    if macro_name == "IMPLEMENT_PRIMARY_GAME_MODULE"@ {
        "_MODULE("@ + implementation + ", "@ + new + ", \""@ + new + "\")"@
    } else {
        "_MODULE("@ + implementation + ", "@ + new + ")"@
    }
}

/// Renames the module in its implementation macro, when `source` holds one.
pub open spec fn implement_macro_changes(source: Option<SourceFile>, new: Seq<char>) -> Seq<ChangeView> {
    match source {
        Some(s) => match regex_named_captures(implement_macro_captures(), s.content@, "macro"@, "impl"@) {
            Some(c) => seq![replace_view(s.path@, "_MODULE\\(.+\\)"@, implement_macro_text(c.0, c.1, new))],
            None => Seq::empty(),
        },
        None => Seq::empty(),
    }
}

/// Replaces `from` with `to` in each of `files`.
pub open spec fn replace_in_each(files: Seq<FsPath>, from: Seq<char>, to: Seq<char>) -> Seq<ChangeView>
    decreases files.len(),
{
    if files.len() == 0 {
        Seq::empty()
    } else {
        replace_in_each(files.drop_last(), from, to).push(replace_view(files.last()@, from, to))
    }
}

/// Replaces quoted references to `old` with ones to `new` in the build
/// files of the modules of `modules` not named `old`.
pub open spec fn cross_module_changes(modules: Seq<Module>, old: Seq<char>, new: Seq<char>) -> Seq<ChangeView>
    decreases modules.len(),
{
    if modules.len() == 0 {
        Seq::empty()
    } else {
        let rest = cross_module_changes(modules.drop_last(), old, new);
        let m = modules.last();
        if m.name@ != old {
            rest.push(
                replace_view(extension_set(joined(m.root@, m.name@), "Build.cs"@), quoted_view(old), quoted_view(new)),
            )
        } else {
            rest
        }
    }
}

/// The changes that rename the module of `context`.
pub open spec fn module_changeset(context: Context) -> Seq<ChangeView> {
    let root = context.project_root@;
    let module_root = context.module.root@;
    let old = context.module.name@;
    let new = context.new_name@;
    let config = joined(joined(root, "Config"@), "DefaultEngine.ini"@);
    seq![
        replace_view(extension_set(joined(module_root, old), "Build.cs"@), old, new),
        rename_view(
            extension_set(joined(module_root, old), "Build.cs"@),
            extension_set(joined(module_root, new), "Build.cs"@),
        ),
    ] + implement_macro_changes(context.source_with_implement_macro, new) + replace_in_each(
        context.headers_with_export_macro@,
        upper_of(old) + "_API"@,
        upper_of(new) + "_API"@,
    ) + seq![rename_view(module_root, file_name_set(module_root, new))] + replace_in_each(
        context.project_targets@,
        quoted_view(old),
        quoted_view(new),
    ) + cross_module_changes(context.modules@, old, new) + seq![
        replace_view(descriptor_at(root, context.project_name@), quoted_view(old), quoted_view(new)),
        module_redirects_view(config, old, new),
        module_redirect_view(config, old, new),
    ]
}

/// Adds a change that replaces `from` with `to` in each of `files`.
fn push_replace_in_each(changeset: &mut Vec<Change>, files: &Vec<FsPath>, from: &str, to: &str)
    ensures
        changes_view(final(changeset)@) == changes_view(old(changeset)@) + replace_in_each(
            files@,
            from@,
            to@,
        ),
{
    let ghost head = changes_view(changeset@);
    let mut i: usize = 0;
    while i < files.len()
        invariant
            i <= files@.len(),
            changes_view(changeset@) == head + replace_in_each(files@.take(i as int), from@, to@),
        decreases files@.len() - i,
    {
        proof {
            assert(files@.take(i + 1).drop_last() =~= files@.take(i as int));
        }
        push_change(changeset, Change::ReplaceInFile(ReplaceInFile::new(files[i].copy(), from, to)));
        i = i + 1;
    }
    assert(files@.take(i as int) =~= files@);
}

/// The change that renames the module in its implementation macro.
fn update_implement_macro(source: &SourceFile, new_name: &str) -> (r: Option<Change>)
    ensures
        r is Some <==> regex_named_captures(implement_macro_captures(), source.content@, "macro"@, "impl"@) is Some,
        r matches Some(c) ==> seq![c@] == implement_macro_changes(
            Some(*source),
            new_name@,
        ),
{
    let captured = named_captures(
        "(?P<macro>IMPLEMENT_(GAME_|PRIMARY_GAME_)?MODULE)\\((?P<impl>.+?),",
        source.content.as_str(),
        "macro",
        "impl",
    );
    match captured {
        Some((macro_name, implementation)) => {
            let text = if macro_name == owned("IMPLEMENT_PRIMARY_GAME_MODULE") {
                let mut t = cat5("_MODULE(", implementation.as_str(), ", ", new_name, ", \"");
                t.append(new_name);
                t.append("\")");
                t
            } else {
                cat5("_MODULE(", implementation.as_str(), ", ", new_name, ")")
            };
            Some(
                Change::ReplaceInFile(
                    ReplaceInFile::new(source.path.copy(), "_MODULE\\(.+\\)", text.as_str()),
                ),
            )
        },
        None => None,
    }
}

/// The changeset that renames a module: its build class and build file, its
/// implementation macro, the export macro in the headers that use it, its
/// folder, the references to it in the targets, the other modules and the
/// project descriptor, and the package redirects.
pub fn generate_changeset(context: &Context) -> (r: Vec<Change>)
    ensures
        changes_view(r@) == module_changeset(*context),
{
    let old = context.module.name.as_str();
    let new = context.new_name.as_str();
    let module_root = &context.module.root;
    let mut r: Vec<Change> = Vec::new();
    replace_then_rename(&mut r, module_root, old, new, "Build.cs", old, new);
    let ghost fixed = changes_view(r@);
    match &context.source_with_implement_macro {
        Some(source) => match update_implement_macro(source, new) {
            Some(c) => push_change(&mut r, c),
            None => {},
        },
        None => {},
    }
    assert(changes_view(r@) =~= fixed + implement_macro_changes(context.source_with_implement_macro, new@));
    let old_api = cat(to_upper(old).as_str(), "_API");
    let new_api = cat(to_upper(new).as_str(), "_API");
    push_replace_in_each(&mut r, &context.headers_with_export_macro, old_api.as_str(), new_api.as_str());
    push_change(&mut r, Change::RenameFile(RenameFile::new(module_root.copy(), module_root.with_file_name(new))));
    let quoted_old = crate::text::quoted(old);
    let quoted_new = crate::text::quoted(new);
    push_replace_in_each(&mut r, &context.project_targets, quoted_old.as_str(), quoted_new.as_str());
    let ghost head = changes_view(r@);
    let modules = &context.modules;
    let mut i: usize = 0;
    while i < modules.len()
        invariant
            i <= modules@.len(),
            modules == &context.modules,
            old@ == context.module.name@,
            new@ == context.new_name@,
            changes_view(r@) == head + cross_module_changes(modules@.take(i as int), old@, new@),
        decreases modules@.len() - i,
    {
        proof {
            assert(modules@.take(i + 1).drop_last() =~= modules@.take(i as int));
        }
        let m = &modules[i];
        if m.name != owned(old) {
            let build_file = m.root.join(m.name.as_str()).with_extension("Build.cs");
            push_change(&mut r, replace_quoted_reference(&build_file, old, new));
        }
        i = i + 1;
    }
    assert(modules@.take(i as int) =~= modules@);
    let root = &context.project_root;
    let descriptor = root.join(context.project_name.as_str()).with_extension("uproject");
    push_change(&mut r, replace_quoted_reference(&descriptor, old, new));
    let config = root.join("Config").join("DefaultEngine.ini");
    push_change(&mut r, update_module_redirects(&config, old, new));
    push_change(&mut r, append_module_redirect(&config, old, new));
    assert(changes_view(r@) =~= module_changeset(*context));
    r
}

/// The names of `modules`, in order.
pub fn names_of(modules: &Vec<Module>) -> (r: Vec<String>)
    ensures
        r@.map_values(|s: String| s@) == module_names(modules@),
{
    let mut r: Vec<String> = Vec::new();
    let mut i: usize = 0;
    while i < modules.len()
        invariant
            i <= modules@.len(),
            r@.map_values(|s: String| s@) == module_names(modules@.take(i as int)),
        decreases modules@.len() - i,
    {
        let ghost before = r@;
        r.push(modules[i].name.clone());
        proof {
            assert(r@.map_values(|s: String| s@) =~= before.map_values(|s: String| s@).push(
                modules@[i as int].name@,
            ));
            assert(module_names(modules@.take(i + 1)) =~= module_names(modules@.take(i as int)).push(
                modules@[i as int].name@,
            ));
        }
        i = i + 1;
    }
    assert(modules@.take(i as int) =~= modules@);
    r
}

/// Checks the module and the new name: the module must be one of
/// `modules`, and the new name must not be blank, must fit in 30 bytes, must
/// not be taken by another module and must be an identifier. The first
/// failing check gives the error.
pub fn validate_new_name(module: &str, new_name: &str, modules: &Vec<Module>) -> (r: Result<(), String>)
    ensures
        r is Ok <==> {
            &&& module_names(modules@).contains(module@)
            &&& !is_blank(new_name@)
            &&& new_name.len() <= MAX_MODULE_NAME_LEN
            &&& !module_names(modules@).contains(new_name@)
            &&& is_identifier(new_name@)
        },
{
    let names = names_of(modules);
    validate_exists(module, &names, "module")?;
    validate_new_name_is_not_empty(new_name)?;
    validate_new_name_is_concise(new_name, MAX_MODULE_NAME_LEN)?;
    validate_new_name_is_unique(new_name, &names, "module")?;
    validate_new_name_is_valid_identifier(new_name)?;
    Ok(())
}

/// The message that reports a successful rename.
pub fn success_message(context: &Context) -> (r: String)
    ensures
        r@ == "Successfully renamed module "@ + context.module.name@ + " to "@ + context.new_name@
            + "."@,
{
    cat5("Successfully renamed module ", context.module.name.as_str(), " to ", context.new_name.as_str(), ".")
}

/// The message that reports a failed rename.
pub fn failure_message(context: &Context) -> (r: String)
    ensures
        r@ == "Failed to rename module "@ + context.module.name@ + " to "@ + context.new_name@
            + "."@,
{
    cat5("Failed to rename module ", context.module.name.as_str(), " to ", context.new_name.as_str(), ".")
}

} // verus!
