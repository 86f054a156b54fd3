//! Renaming a plugin.
use crate::changes::{
    changes_view, push_change, AppendIniEntry, Change, ChangeView, RenameFile, ReplaceInFile,
};
use crate::changesets::{descriptor_at, quoted_view, rename_view, replace_quoted_reference, replace_view};
use crate::path::{extension_set, file_name_set, joined, FsPath, PathView};
use crate::text::{cat, cat3, cat5, is_blank, owned};
use crate::unreal::{plugin_names, Plugin};
use crate::workflows::validation::{
    is_identifier, validate_exists, validate_new_name_is_concise, validate_new_name_is_not_empty,
    validate_new_name_is_unique, validate_new_name_is_valid_identifier,
};
use vstd::prelude::*;
use vstd::string::*;

verus! {

/// The longest new plugin name, in bytes.
pub const MAX_PLUGIN_NAME_LEN: usize = 30;

/// What the user asks for.
pub struct Params {
    /// The root of the project.
    pub project_root: FsPath,
    /// The plugin to rename.
    pub plugin: String,
    /// The new name for the plugin.
    pub new_name: String,
}

/// What renaming a plugin needs to know.
pub struct Context {
    /// The root of the project.
    pub project_root: FsPath,
    /// The name of the project.
    pub project_name: String,
    /// The plugins of the project.
    pub project_plugins: Vec<Plugin>,
    /// The plugin to rename.
    pub plugin: Plugin,
    /// The new name for the plugin.
    pub new_name: String,
}

/// The descriptor of a plugin.
pub open spec fn plugin_descriptor(p: Plugin) -> PathView {
    extension_set(joined(p.root@, p.name@), "uplugin"@)
}

/// Replaces quoted references to `old` with ones to `new` in the
/// descriptors of the plugins of `plugins` not named `old`.
pub open spec fn cross_plugin_changes(plugins: Seq<Plugin>, old: Seq<char>, new: Seq<char>) -> Seq<
    ChangeView,
>
    decreases plugins.len(),
{
    if plugins.len() == 0 {
        Seq::empty()
    } else {
        let rest = cross_plugin_changes(plugins.drop_last(), old, new);
        if plugins.last().name@ != old {
            rest.push(replace_view(plugin_descriptor(plugins.last()), quoted_view(old), quoted_view(new)))
        } else {
            rest
        }
    }
}

/// The pattern that finds existing package redirects to the plugin `old`.
pub open spec fn plugin_redirect_pattern(old: Seq<char>) -> Seq<char> {
    "\\(OldName=\"/(?P<old>.+?)/\",\\s*NewName=\"/"@ + old + "/\",\\s*MatchSubstring=true\\)"@
}

/// The changes that rename the plugin of `context`.
pub open spec fn plugin_changeset(context: Context) -> Seq<ChangeView> {
    let root = context.project_root@;
    let old = context.plugin.name@;
    let new = context.new_name@;
    let descriptor = plugin_descriptor(context.plugin);
    let config = joined(joined(root, "Config"@), "DefaultEngine.ini"@);
    seq![
        rename_view(descriptor, file_name_set(descriptor, new + ".uplugin"@)),
        rename_view(context.plugin.root@, file_name_set(context.plugin.root@, new)),
        replace_view(descriptor_at(root, context.project_name@), quoted_view(old), quoted_view(new)),
    ] + cross_plugin_changes(context.project_plugins@, old, new) + seq![
        replace_view(
            config,
            plugin_redirect_pattern(old),
            "(OldName=\"/$old/\",NewName=\"/"@ + new + "/\",MatchSubstring=true)"@,
        ),
        ChangeView::AppendIniEntry {
            path: config,
            section: "CoreRedirects"@,
            key: "+PackageRedirects"@,
            value: "(OldName=\"/"@ + old + "/\",NewName=\"/"@ + new + "/\",MatchSubstring=true)"@,
        },
    ]
}

/// The changeset that renames a plugin: its descriptor and root folder, the
/// references to it in the project descriptor and in the other plugins, and
/// the package redirects.
pub fn generate_changeset(context: &Context) -> (r: Vec<Change>)
    ensures
        changes_view(r@) == plugin_changeset(*context),
{
    let old = context.plugin.name.as_str();
    let new = context.new_name.as_str();
    let root = &context.project_root;
    let plugin_root = &context.plugin.root;
    let descriptor = plugin_root.join(old).with_extension("uplugin");
    let descriptor_name = cat(new, ".uplugin");
    let mut r: Vec<Change> = Vec::new();
    push_change(
        &mut r,
        Change::RenameFile(
            RenameFile::new(descriptor.copy(), descriptor.with_file_name(descriptor_name.as_str())),
        ),
    );
    push_change(&mut r, Change::RenameFile(RenameFile::new(plugin_root.copy(), plugin_root.with_file_name(new))));
    let project_descriptor = root.join(context.project_name.as_str()).with_extension("uproject");
    push_change(&mut r, replace_quoted_reference(&project_descriptor, old, new));
    let ghost head = changes_view(r@);
    let plugins = &context.project_plugins;
    let mut i: usize = 0;
    while i < plugins.len()
        invariant
            i <= plugins@.len(),
            plugins == &context.project_plugins,
            old@ == context.plugin.name@,
            new@ == context.new_name@,
            changes_view(r@) == head + cross_plugin_changes(plugins@.take(i as int), old@, new@),
        decreases plugins@.len() - i,
    {
        proof {
            assert(plugins@.take(i + 1).drop_last() =~= plugins@.take(i as int));
        }
        let p = &plugins[i];
        if p.name != owned(old) {
            let file = p.root.join(p.name.as_str()).with_extension("uplugin");
            push_change(&mut r, replace_quoted_reference(&file, old, new));
        }
        i = i + 1;
    }
    assert(plugins@.take(i as int) =~= plugins@);
    let config = root.join("Config").join("DefaultEngine.ini");
    let pattern = cat3(
        "\\(OldName=\"/(?P<old>.+?)/\",\\s*NewName=\"/",
        old,
        "/\",\\s*MatchSubstring=true\\)",
    );
    let replacement = cat3("(OldName=\"/$old/\",NewName=\"/", new, "/\",MatchSubstring=true)");
    push_change(
        &mut r,
        Change::ReplaceInFile(ReplaceInFile::new(config.copy(), pattern.as_str(), replacement.as_str())),
    );
    let value = cat5("(OldName=\"/", old, "/\",NewName=\"/", new, "/\",MatchSubstring=true)");
    push_change(
        &mut r,
        Change::AppendIniEntry(
            AppendIniEntry::new(config, "CoreRedirects", "+PackageRedirects", value.as_str()),
        ),
    );
    r
}

/// The names of `plugins`, in order.
pub fn names_of(plugins: &Vec<Plugin>) -> (r: Vec<String>)
    ensures
        r@.map_values(|s: String| s@) == plugin_names(plugins@),
{
    let mut r: Vec<String> = Vec::new();
    let mut i: usize = 0;
    while i < plugins.len()
        invariant
            i <= plugins@.len(),
            r@.map_values(|s: String| s@) == plugin_names(plugins@.take(i as int)),
        decreases plugins@.len() - i,
    {
        let ghost before = r@;
        r.push(plugins[i].name.clone());
        proof {
            assert(r@.map_values(|s: String| s@) =~= before.map_values(|s: String| s@).push(
                plugins@[i as int].name@,
            ));
            assert(plugin_names(plugins@.take(i + 1)) =~= plugin_names(plugins@.take(i as int)).push(
                plugins@[i as int].name@,
            ));
        }
        i = i + 1;
    }
    assert(plugins@.take(i as int) =~= plugins@);
    r
}

/// Checks the plugin and the new name: the plugin must be one of
/// `plugins`, and the new name must not be blank, must fit in 30 bytes, must
/// not be taken by another plugin and must be an identifier. The first
/// failing check gives the error.
pub fn validate_new_name(plugin: &str, new_name: &str, plugins: &Vec<Plugin>) -> (r: Result<(), String>)
    ensures
        r is Ok <==> {
            &&& plugin_names(plugins@).contains(plugin@)
            &&& !is_blank(new_name@)
            &&& new_name.len() <= MAX_PLUGIN_NAME_LEN
            &&& !plugin_names(plugins@).contains(new_name@)
            &&& is_identifier(new_name@)
        },
{
    let names = names_of(plugins);
    validate_exists(plugin, &names, "plugin")?;
    validate_new_name_is_not_empty(new_name)?;
    validate_new_name_is_concise(new_name, MAX_PLUGIN_NAME_LEN)?;
    validate_new_name_is_unique(new_name, &names, "plugin")?;
    validate_new_name_is_valid_identifier(new_name)?;
    Ok(())
}

/// The message that reports a successful rename.
pub fn success_message(context: &Context) -> (r: String)
    ensures
        r@ == "Successfully renamed plugin "@ + context.plugin.name@ + " to "@ + context.new_name@
            + "."@,
{
    cat5("Successfully renamed plugin ", context.plugin.name.as_str(), " to ", context.new_name.as_str(), ".")
}

/// The message that reports a failed rename.
pub fn failure_message(context: &Context) -> (r: String)
    ensures
        r@ == "Failed to rename plugin "@ + context.plugin.name@ + " to "@ + context.new_name@
            + "."@,
{
    cat5("Failed to rename plugin ", context.plugin.name.as_str(), " to ", context.new_name.as_str(), ".")
}

} // verus!
