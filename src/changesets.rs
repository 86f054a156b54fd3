//! Changesets that rename a project, its modules and its targets, laid out
//! as the engine's project template lays them out.
use crate::changes::{
    changes_view, push_change, AppendIniEntry, Change, ChangeView, RenameFile, ReplaceInFile, SetIniEntry,
};
use crate::path::{extension_set, file_name_set, joined, FsPath, PathView};
use crate::pattern::{first_match, regex_first_match};
use crate::text::{cat, cat3, cat5, quoted, replace_text, replaced_text, to_upper, upper_of};
use vstd::prelude::*;

verus! {

/// The project descriptor of the project `name` under `root`.
pub open spec fn descriptor_at(root: PathView, name: Seq<char>) -> PathView {
    extension_set(joined(root, name), "uproject"@)
}

/// Renames the project descriptor.
pub open spec fn rename_descriptor_view(root: PathView, old: Seq<char>, new: Seq<char>) -> ChangeView {
    ChangeView::RenameFile { from: descriptor_at(root, old), to: descriptor_at(root, new) }
}

/// Sets the game name in the engine configuration.
pub open spec fn game_name_view(root: PathView, new: Seq<char>) -> ChangeView {
    ChangeView::SetIniEntry {
        path: joined(root, "Config/DefaultEngine.ini"@),
        section: "URL"@,
        key: "GameName"@,
        value: new,
    }
}

/// Sets the project name in the game configuration.
pub open spec fn project_name_view(root: PathView, new: Seq<char>) -> ChangeView {
    ChangeView::SetIniEntry {
        path: joined(root, "Config/DefaultGame.ini"@),
        section: "/Script/EngineSettings.GeneralProjectSettings"@,
        key: "ProjectName"@,
        value: new,
    }
}

/// Renames the project root directory.
pub open spec fn rename_root_view(root: PathView, new: Seq<char>) -> ChangeView {
    ChangeView::RenameFile { from: root, to: file_name_set(root, new) }
}

pub(crate) fn rename_project_descriptor(root: &FsPath, old: &str, new: &str) -> (r: Change)
    ensures
        r@ == rename_descriptor_view(root@, old@, new@),
{
    Change::RenameFile(
        RenameFile::new(
            root.join(old).with_extension("uproject"),
            root.join(new).with_extension("uproject"),
        ),
    )
}

pub(crate) fn add_game_name_to_engine_config(root: &FsPath, new: &str) -> (r: Change)
    ensures
        r@ == game_name_view(root@, new@),
{
    Change::SetIniEntry(
        SetIniEntry::new(root.join("Config/DefaultEngine.ini"), "URL", "GameName", new),
    )
}

pub(crate) fn add_project_name_to_game_config(root: &FsPath, new: &str) -> (r: Change)
    ensures
        r@ == project_name_view(root@, new@),
{
    Change::SetIniEntry(
        SetIniEntry::new(
            root.join("Config/DefaultGame.ini"),
            "/Script/EngineSettings.GeneralProjectSettings",
            "ProjectName",
            new,
        ),
    )
}

pub(crate) fn rename_project_root(root: &FsPath, new: &str) -> (r: Change)
    ensures
        r@ == rename_root_view(root@, new@),
{
    Change::RenameFile(RenameFile::new(root.copy(), root.with_file_name(new)))
}

/// The changeset that renames a Blueprint project: rename the project
/// descriptor, record the new name as the game name and as the project name
/// in the configuration, and rename the project root.
pub fn generate_blueprint_changeset(old_project_name: &str, new_project_name: &str, project_root: &FsPath) -> (r: Vec<Change>)
    ensures
        changes_view(r@) == seq![
            rename_descriptor_view(project_root@, old_project_name@, new_project_name@),
            game_name_view(project_root@, new_project_name@),
            project_name_view(project_root@, new_project_name@),
            rename_root_view(project_root@, new_project_name@),
        ],
{
    let r = vec![
        rename_project_descriptor(project_root, old_project_name, new_project_name),
        add_game_name_to_engine_config(project_root, new_project_name),
        add_project_name_to_game_config(project_root, new_project_name),
        rename_project_root(project_root, new_project_name),
    ];
    assert(changes_view(r@) =~= seq![r@[0]@, r@[1]@, r@[2]@, r@[3]@]);
    r
}

/// `dir/name.ext` under `root`.
pub open spec fn file_at(root: PathView, dir: Seq<char>, name: Seq<char>, ext: Seq<char>) -> PathView {
    extension_set(joined(joined(root, dir), name), ext)
}

/// Replaces `from` with `to` in `path`.
pub open spec fn replace_view(path: PathView, from: Seq<char>, to: Seq<char>) -> ChangeView {
    ChangeView::ReplaceInFile { path, pattern: from, replacement: to }
}

/// Renames `from` to `to`.
pub open spec fn rename_view(from: PathView, to: PathView) -> ChangeView {
    ChangeView::RenameFile { from, to }
}

/// The pattern that finds existing game name redirects.
pub open spec fn game_redirect_pattern() -> Seq<char> {
    "\\(OldGameName=\"(?P<old>.+?)\",\\s*NewGameName=\".+?\"\\)"@
}

/// Points the existing game name redirects at the new name.
pub open spec fn update_game_redirects_view(root: PathView, new: Seq<char>) -> ChangeView {
    replace_view(
        joined(root, "Config/DefaultEngine.ini"@),
        game_redirect_pattern(),
        "(OldGameName=\"$old\", NewGameName=\"/Script/"@ + new + "\")"@,
    )
}

/// Adds a game name redirect from the old name to the new one.
pub open spec fn append_game_redirect_view(root: PathView, old: Seq<char>, new: Seq<char>) -> ChangeView {
    ChangeView::AppendIniEntry {
        path: joined(root, "Config/DefaultEngine.ini"@),
        section: "/Script/Engine.Engine"@,
        key: "+ActiveGameNameRedirects"@,
        value: "(OldGameName=\"/Script/"@ + old + "\", NewGameName=\"/Script/"@ + new + "\")"@,
    }
}

/// The changes that rename a code project laid out as the project template
/// lays it out (one primary module and its game mode, an executable target
/// and an editor target, all named after the project).
pub open spec fn code_changeset(root: PathView, old: Seq<char>, new: Seq<char>) -> Seq<ChangeView> {
    let module_dir = joined(joined(root, "Source"@), old);
    seq![
        replace_view(descriptor_at(root, old), old, new),
        rename_descriptor_view(root, old, new),
        replace_view(file_at(root, "Source"@, old, "Target.cs"@), old, new),
        rename_view(
            file_at(root, "Source"@, old, "Target.cs"@),
            file_at(root, "Source"@, new, "Target.cs"@),
        ),
        replace_view(file_at(root, "Source"@, old + "Editor"@, "Target.cs"@), old, new),
        rename_view(
            file_at(root, "Source"@, old + "Editor"@, "Target.cs"@),
            file_at(root, "Source"@, new + "Editor"@, "Target.cs"@),
        ),
        replace_view(extension_set(joined(module_dir, old), "Build.cs"@), old, new),
        rename_view(
            extension_set(joined(module_dir, old), "Build.cs"@),
            extension_set(joined(module_dir, new), "Build.cs"@),
        ),
        replace_view(
            extension_set(joined(module_dir, old + "GameModeBase"@), "h"@),
            upper_of(old) + "_API"@,
            upper_of(new) + "_API"@,
        ),
        rename_view(
            extension_set(joined(module_dir, old), "h"@),
            extension_set(joined(module_dir, new), "h"@),
        ),
        replace_view(extension_set(joined(module_dir, old), "cpp"@), old, new),
        rename_view(
            extension_set(joined(module_dir, old), "cpp"@),
            extension_set(joined(module_dir, new), "cpp"@),
        ),
        rename_view(module_dir, joined(joined(root, "Source"@), new)),
        update_game_redirects_view(root, new),
        append_game_redirect_view(root, old, new),
        game_name_view(root, new),
        project_name_view(root, new),
        rename_root_view(root, new),
    ]
}

/// Replaces `from` with `to` in `dir/name.ext`, then renames that file to
/// `dir/new_name.ext`.
pub(crate) fn replace_then_rename(
    changeset: &mut Vec<Change>,
    dir: &FsPath,
    name: &str,
    new_name: &str,
    ext: &str,
    from: &str,
    to: &str,
)
    ensures
        changes_view(final(changeset)@) == changes_view(old(changeset)@).push(
            replace_view(extension_set(joined(dir@, name@), ext@), from@, to@),
        ).push(
            rename_view(
                extension_set(joined(dir@, name@), ext@),
                extension_set(joined(dir@, new_name@), ext@),
            ),
        ),
{
    let ghost before = changes_view(changeset@);
    let file = dir.join(name).with_extension(ext);
    push_change(changeset, Change::ReplaceInFile(ReplaceInFile::new(file.copy(), from, to)));
    push_change(
        changeset,
        Change::RenameFile(RenameFile::new(file, dir.join(new_name).with_extension(ext))),
    );
}

/// The changeset that renames a code project laid out as the project
/// template lays it out: the project descriptor, the executable and editor
/// targets, the primary module's build file, export macro, header, source
/// and folder, the game name redirects and configuration, and the root.
pub fn generate_code_changeset(old_project_name: &str, new_project_name: &str, project_root: &FsPath) -> (r: Vec<Change>)
    ensures
        changes_view(r@) == code_changeset(project_root@, old_project_name@, new_project_name@),
{
    let old = old_project_name;
    let new = new_project_name;
    let root = project_root;
    let source = root.join("Source");
    let module_dir = source.join(old);
    let old_editor = cat(old, "Editor");
    let new_editor = cat(new, "Editor");
    let mut r: Vec<Change> = Vec::new();
    push_change(&mut r, Change::ReplaceInFile(ReplaceInFile::new(root.join(old).with_extension("uproject"), old, new)));
    push_change(&mut r, rename_project_descriptor(root, old, new));
    replace_then_rename(&mut r, &source, old, new, "Target.cs", old, new);
    replace_then_rename(&mut r, &source, old_editor.as_str(), new_editor.as_str(), "Target.cs", old, new);
    replace_then_rename(&mut r, &module_dir, old, new, "Build.cs", old, new);
    let header = module_dir.join(cat(old, "GameModeBase").as_str()).with_extension("h");
    let old_api = cat(to_upper(old).as_str(), "_API");
    let new_api = cat(to_upper(new).as_str(), "_API");
    push_change(&mut r, Change::ReplaceInFile(ReplaceInFile::new(header, old_api.as_str(), new_api.as_str())));
    push_change(&mut r, 
        Change::RenameFile(
            RenameFile::new(module_dir.join(old).with_extension("h"), module_dir.join(new).with_extension("h")),
        ),
    );
    replace_then_rename(&mut r, &module_dir, old, new, "cpp", old, new);
    push_change(&mut r, Change::RenameFile(RenameFile::new(module_dir.copy(), source.join(new))));
    push_change(&mut r, update_redirects_in_engine_config(root, new));
    push_change(&mut r, append_redirect_to_engine_config(root, old, new));
    push_change(&mut r, add_game_name_to_engine_config(root, new));
    push_change(&mut r, add_project_name_to_game_config(root, new));
    push_change(&mut r, rename_project_root(root, new));
    let ghost v = changes_view(r@);
    let ghost e = code_changeset(project_root@, old_project_name@, new_project_name@);
    assert(v.len() == e.len());
    assert forall|i: int| 0 <= i < v.len() implies v[i] == e[i] by {
        assert(v[i] == r@[i]@);
    }
    assert(v =~= e);
    r
}

fn update_redirects_in_engine_config(root: &FsPath, new: &str) -> (r: Change)
    ensures
        r@ == update_game_redirects_view(root@, new@),
{
    let replacement = cat3("(OldGameName=\"$old\", NewGameName=\"/Script/", new, "\")");
    Change::ReplaceInFile(
        ReplaceInFile::new(
            root.join("Config/DefaultEngine.ini"),
            "\\(OldGameName=\"(?P<old>.+?)\",\\s*NewGameName=\".+?\"\\)",
            replacement.as_str(),
        ),
    )
}

fn append_redirect_to_engine_config(root: &FsPath, old: &str, new: &str) -> (r: Change)
    ensures
        r@ == append_game_redirect_view(root@, old@, new@),
{
    let value = cat5(
        "(OldGameName=\"/Script/",
        old,
        "\", NewGameName=\"/Script/",
        new,
        "\")",
    );
    Change::AppendIniEntry(
        AppendIniEntry::new(
            root.join("Config/DefaultEngine.ini"),
            "/Script/Engine.Engine",
            "+ActiveGameNameRedirects",
            value.as_str(),
        ),
    )
}

/// The changes that rename the target `old` of the project under `root`.
pub open spec fn target_changeset(root: PathView, old: Seq<char>, new: Seq<char>) -> Seq<ChangeView> {
    seq![
        replace_view(file_at(root, "Source"@, old, "Target.cs"@), old + "Target"@, new + "Target"@),
        rename_view(
            file_at(root, "Source"@, old, "Target.cs"@),
            file_at(root, "Source"@, new, "Target.cs"@),
        ),
    ]
}

/// The changeset that renames a target: the target class in the target
/// file, then the target file.
pub fn generate_target_changeset(old_name: &str, new_name: &str, project_root: &FsPath) -> (r: Vec<Change>)
    ensures
        changes_view(r@) == target_changeset(project_root@, old_name@, new_name@),
{
    let source = project_root.join("Source");
    let file = source.join(old_name).with_extension("Target.cs");
    let old_class = cat(old_name, "Target");
    let new_class = cat(new_name, "Target");
    let r = vec![
        Change::ReplaceInFile(ReplaceInFile::new(file.copy(), old_class.as_str(), new_class.as_str())),
        Change::RenameFile(RenameFile::new(file, source.join(new_name).with_extension("Target.cs"))),
    ];
    assert(changes_view(r@) =~= target_changeset(project_root@, old_name@, new_name@));
    r
}

/// `s` quoted: replaces a quoted reference to `old` with one to `new`.
pub open spec fn quoted_view(s: Seq<char>) -> Seq<char> {
    "\""@ + s + "\""@
}

/// `text` with its parentheses escaped for a regular expression.
pub open spec fn parens_escaped(text: Seq<char>) -> Seq<char> {
    replaced_text(replaced_text(text, "("@, "\\("@), ")"@, "\\)"@)
}

/// The pattern that finds the module implementation macro.
pub open spec fn implement_macro_pattern() -> Seq<char> {
    "_MODULE\\(.+\\)"@
}

/// The change that renames the module in its implementation macro, found in
/// `content`, the content of `source`; none when the macro is not there.
pub open spec fn implementation_changes(
    source: PathView,
    content: Seq<char>,
    old: Seq<char>,
    new: Seq<char>,
) -> Seq<ChangeView> {
    match regex_first_match(implement_macro_pattern(), content) {
        Some(m) => seq![
            replace_view(source, parens_escaped(m), replaced_text(m, old, new)),
        ],
        None => Seq::empty(),
    }
}

/// The changes that rename the module `old` of the project `project` under
/// `root`, given its implementation source and content (if any), the
/// headers (relative to `root`) that use its export macro, and the names of
/// the project's targets.
pub open spec fn module_changeset(
    root: PathView,
    old: Seq<char>,
    new: Seq<char>,
    project: Seq<char>,
    implementation: Seq<ChangeView>,
    headers: Seq<PathView>,
    targets: Seq<Seq<char>>,
) -> Seq<ChangeView> {
    let build_file = extension_set(joined(joined(joined(root, "Source"@), old), old), "Build.cs"@);
    seq![
        replace_view(build_file, old, new),
        rename_view(
            build_file,
            extension_set(joined(joined(joined(root, "Source"@), old), new), "Build.cs"@),
        ),
    ] + implementation + headers.map_values(
        |h: PathView|
            replace_view(
                PathView { rooted: root.rooted, parts: root.parts + h.parts },
                upper_of(old) + "_API"@,
                upper_of(new) + "_API"@,
            ),
    ) + seq![rename_view(joined(joined(root, "Source"@), old), joined(joined(root, "Source"@), new))]
        + targets.map_values(
        |t: Seq<char>|
            replace_view(file_at(root, "Source"@, t, "Target.cs"@), quoted_view(old), quoted_view(new)),
    ) + seq![
        replace_view(descriptor_at(root, project), quoted_view(old), quoted_view(new)),
        module_redirects_view(joined(joined(root, "Config"@), "DefaultEngine.ini"@), old, new),
        module_redirect_view(joined(joined(root, "Config"@), "DefaultEngine.ini"@), old, new),
    ]
}

/// Points the existing package redirects to `old` at `new`, in `config`.
pub open spec fn module_redirects_view(config: PathView, old: Seq<char>, new: Seq<char>) -> ChangeView {
    replace_view(
        config,
        "\\(OldName=\"(?P<old>.+?)\",\\s*NewName=\"/Script/"@ + old + "\"\\)"@,
        "(OldName=\"$old\", NewName=\"/Script/"@ + new + "\")"@,
    )
}

/// Adds a package redirect from `old` to `new`, in `config`.
pub open spec fn module_redirect_view(config: PathView, old: Seq<char>, new: Seq<char>) -> ChangeView {
    ChangeView::AppendIniEntry {
        path: config,
        section: "CoreRedirects"@,
        key: "+PackageRedirects"@,
        value: "(OldName=\"/Script/"@ + old + "\",NewName=\"/Script/"@ + new + "\")"@,
    }
}

pub(crate) fn update_module_redirects(config: &FsPath, old: &str, new: &str) -> (r: Change)
    ensures
        r@ == module_redirects_view(config@, old@, new@),
{
    let pattern = cat3("\\(OldName=\"(?P<old>.+?)\",\\s*NewName=\"/Script/", old, "\"\\)");
    let replacement = cat3("(OldName=\"$old\", NewName=\"/Script/", new, "\")");
    Change::ReplaceInFile(ReplaceInFile::new(config.copy(), pattern.as_str(), replacement.as_str()))
}

pub(crate) fn append_module_redirect(config: &FsPath, old: &str, new: &str) -> (r: Change)
    ensures
        r@ == module_redirect_view(config@, old@, new@),
{
    let value = cat5("(OldName=\"/Script/", old, "\",NewName=\"/Script/", new, "\")");
    Change::AppendIniEntry(
        AppendIniEntry::new(config.copy(), "CoreRedirects", "+PackageRedirects", value.as_str()),
    )
}

/// Replaces a quoted reference to `old` with one to `new` in `file`.
pub(crate) fn replace_quoted_reference(file: &FsPath, old: &str, new: &str) -> (r: Change)
    ensures
        r@ == replace_view(file@, quoted_view(old@), quoted_view(new@)),
{
    Change::ReplaceInFile(
        ReplaceInFile::new(file.copy(), quoted(old).as_str(), quoted(new).as_str()),
    )
}

/// The changeset that renames a module: its build class and build file, its
/// implementation macro, the export macro in the headers that use it, its
/// source folder, the references to it in the targets and the project
/// descriptor, and the package redirects.
///
/// `implementation` is the source file that implements the module, with its
/// content; `headers` are relative to `project_root`; `target_names` are the
/// names of the project's targets.
pub fn generate_module_changeset(
    old_name: &str,
    new_name: &str,
    project_root: &FsPath,
    project_name: &str,
    implementation: &Option<(FsPath, String)>,
    headers: &Vec<FsPath>,
    target_names: &Vec<String>,
) -> (r: Vec<Change>)
    ensures
        changes_view(r@) == module_changeset(
            project_root@,
            old_name@,
            new_name@,
            project_name@,
            match implementation {
                Some(i) => implementation_changes(i.0@, i.1@, old_name@, new_name@),
                None => Seq::empty(),
            },
            headers@.map_values(|h: FsPath| h@),
            target_names@.map_values(|t: String| t@),
        ),
{
    let root = project_root;
    let source = root.join("Source");
    let module_dir = source.join(old_name);
    let mut r: Vec<Change> = Vec::new();
    replace_then_rename(&mut r, &module_dir, old_name, new_name, "Build.cs", old_name, new_name);
    let ghost fixed = changes_view(r@);
    match implementation {
        Some(i) => {
            match first_match("_MODULE\\(.+\\)", i.1.as_str()) {
                Some(m) => {
                    let escaped = replace_text(replace_text(m.as_str(), "(", "\\(").as_str(), ")", "\\)");
                    let renamed = replace_text(m.as_str(), old_name, new_name);
                    push_change(
                        &mut r,
                        Change::ReplaceInFile(ReplaceInFile::new(i.0.copy(), escaped.as_str(), renamed.as_str())),
                    );
                },
                None => {},
            }
        },
        None => {},
    }
    let ghost with_impl = changes_view(r@);
    let old_api = cat(to_upper(old_name).as_str(), "_API");
    let new_api = cat(to_upper(new_name).as_str(), "_API");
    let ghost hs = headers@.map_values(|h: FsPath| h@);
    let mut k: usize = 0;
    while k < headers.len()
        invariant
            k <= headers@.len(),
            hs == headers@.map_values(|h: FsPath| h@),
            old_api@ == upper_of(old_name@) + "_API"@,
            new_api@ == upper_of(new_name@) + "_API"@,
            changes_view(r@) == with_impl + hs.take(k as int).map_values(
                |h: PathView|
                    replace_view(
                        PathView { rooted: root@.rooted, parts: root@.parts + h.parts },
                        upper_of(old_name@) + "_API"@,
                        upper_of(new_name@) + "_API"@,
                    ),
            ),
        decreases headers@.len() - k,
    {
        let ghost before = changes_view(r@);
        push_change(
            &mut r,
            Change::ReplaceInFile(
                ReplaceInFile::new(root.join_path(&headers[k]), old_api.as_str(), new_api.as_str()),
            ),
        );
        proof {
            assert(hs.take(k + 1) =~= hs.take(k as int).push(hs[k as int]));
        }
        k = k + 1;
    }
    assert(hs.take(k as int) =~= hs);
    let ghost with_headers = changes_view(r@);
    push_change(&mut r, Change::RenameFile(RenameFile::new(module_dir.copy(), source.join(new_name))));
    let ghost before_targets = changes_view(r@);
    let ghost ts = target_names@.map_values(|t: String| t@);
    let mut j: usize = 0;
    while j < target_names.len()
        invariant
            j <= target_names@.len(),
            ts == target_names@.map_values(|t: String| t@),
            source@ == joined(root@, "Source"@),
            changes_view(r@) == before_targets + ts.take(j as int).map_values(
                |t: Seq<char>|
                    replace_view(
                        file_at(root@, "Source"@, t, "Target.cs"@),
                        quoted_view(old_name@),
                        quoted_view(new_name@),
                    ),
            ),
        decreases target_names@.len() - j,
    {
        let file = source.join(target_names[j].as_str()).with_extension("Target.cs");
        push_change(&mut r, replace_quoted_reference(&file, old_name, new_name));
        proof {
            assert(ts.take(j + 1) =~= ts.take(j as int).push(ts[j as int]));
        }
        j = j + 1;
    }
    assert(ts.take(j as int) =~= ts);
    let descriptor = root.join(project_name).with_extension("uproject");
    push_change(&mut r, replace_quoted_reference(&descriptor, old_name, new_name));
    let config = root.join("Config").join("DefaultEngine.ini");
    push_change(&mut r, update_module_redirects(&config, old_name, new_name));
    push_change(&mut r, append_module_redirect(&config, old_name, new_name));
    proof {
        let e = module_changeset(
            project_root@,
            old_name@,
            new_name@,
            project_name@,
            match implementation {
                Some(i) => implementation_changes(i.0@, i.1@, old_name@, new_name@),
                None => Seq::empty(),
            },
            hs,
            ts,
        );
        assert(with_impl =~= fixed + match implementation {
            Some(i) => implementation_changes(i.0@, i.1@, old_name@, new_name@),
            None => Seq::empty(),
        });
        assert(changes_view(r@) =~= e);
    }
    r
}

} // verus!
