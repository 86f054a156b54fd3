//! The edits of the staged project renamer: each takes the text of one
//! project file and returns its new text.
use crate::changes::ChangeError;
use crate::ini_doc::{
    ini_append, ini_ensure_section, ini_text_of, ini_text_values, ini_parses, ini_sections, ini_set,
    ini_take_all, ini_to_text, ini_values, parse_ini, values_of,
};
use crate::pattern::{regex_replaced_first, replace_first_match};
use crate::path::{extension_set, joined, FsPath, PathView};
use crate::pathfinder::Pathfinder;
use crate::text::{cat, cat3, cat5, owned, replace_text, replaced_text, to_upper, upper_of};
use vstd::prelude::*;
use vstd::string::*;

verus! {

/// The pattern that finds the new name of a game name redirect.
pub open spec fn redirect_target_pattern() -> Seq<char> {
    "NewGameName=\"/Script/(.+)\""@
}

/// A game name redirect pointed at `new_name`; left as it is when the
/// pattern finds nothing to replace.
pub open spec fn retargeted(redirect: Seq<char>, new_name: Seq<char>) -> Seq<char> {
    match regex_replaced_first(
        redirect_target_pattern(),
        "NewGameName=\"/Script/"@ + new_name + "\""@,
        redirect,
    ) {
        Some(t) => t,
        None => redirect,
    }
}

/// The game name redirects pointed at `new_name`, in order.
pub open spec fn all_retargeted(redirects: Seq<Seq<char>>, new_name: Seq<char>) -> Seq<Seq<char>>
    decreases redirects.len(),
{
    if redirects.len() == 0 {
        Seq::empty()
    } else {
        all_retargeted(redirects.drop_last(), new_name).push(retargeted(redirects.last(), new_name))
    }
}

/// The redirect from the old game name to the new one.
pub open spec fn game_redirect(old_name: Seq<char>, new_name: Seq<char>) -> Seq<char> {
    "(OldGameName=\"/Script/"@ + old_name + "\", NewGameName=\"/Script/"@ + new_name + "\")"@
}

/// The values `after` are the engine configuration values `before` updated
/// for a project renamed from `old_name` to `new_name`.
pub open spec fn engine_config_updated(
    before: Map<(Option<Seq<char>>, Seq<char>), Seq<Seq<char>>>,
    after: Map<(Option<Seq<char>>, Seq<char>), Seq<Seq<char>>>,
    old_name: Seq<char>,
    new_name: Seq<char>,
    is_code: bool,
) -> bool {
    &&& values_of(after, Some("URL"@), "GameName"@) == seq![new_name]
    &&& is_code ==> values_of(after, Some("/Script/Engine.Engine"@), "+ActiveGameNameRedirects"@)
        == all_retargeted(
        values_of(before, Some("/Script/Engine.Engine"@), "+ActiveGameNameRedirects"@),
        new_name,
    ).push(game_redirect(old_name, new_name))
    &&& !is_code ==> after == before.insert((Some("URL"@), "GameName"@), seq![new_name])
}

/// Updates the engine configuration for a project renamed from `old_name`
/// to `new_name`: the game name becomes `new_name`; for a code project the
/// existing game name redirects are pointed at `new_name`, in order, and a
/// redirect from `old_name` to `new_name` is added after them.
pub fn update_engine_config(doc: &mut ini::Ini, old_name: &str, new_name: &str, is_code: bool)
    ensures
        engine_config_updated(
            ini_values(*old(doc)),
            ini_values(*final(doc)),
            old_name@,
            new_name@,
            is_code,
        ),
{
    proof {
        reveal_strlit("URL");
        reveal_strlit("/Script/Engine.Engine");
    }
    let ghost original = ini_values(*doc);
    assert("URL"@.len() == 3);
    assert("URL"@ != "/Script/Engine.Engine"@);
    ini_set(doc, "URL", "GameName", new_name);
    if !is_code {
        return;
    }
    let section = "/Script/Engine.Engine";
    let key = "+ActiveGameNameRedirects";
    ini_ensure_section(doc, section);
    let redirects = ini_take_all(doc, section, key);
    let ghost old_values = values_of(original, Some(section@), key@);
    assert(redirects@.map_values(|v: String| v@) == old_values);
    assert(old_values.take(0) =~= Seq::<Seq<char>>::empty());
    assert(values_of(ini_values(*doc), Some(section@), key@) =~= Seq::<Seq<char>>::empty());
    let replacement = cat3("NewGameName=\"/Script/", new_name, "\"");
    let mut i: usize = 0;
    while i < redirects.len()
        invariant
            i <= redirects@.len(),
            section@ == "/Script/Engine.Engine"@,
            "URL"@ != "/Script/Engine.Engine"@,
            replacement@ == "NewGameName=\"/Script/"@ + new_name@ + "\""@,
            redirects@.map_values(|v: String| v@) == old_values,
            ini_sections(*doc).contains(Some(section@)),
            values_of(ini_values(*doc), Some(section@), key@) == all_retargeted(
                old_values.take(i as int),
                new_name@,
            ),
            values_of(ini_values(*doc), Some("URL"@), "GameName"@) == seq![new_name@],
        decreases redirects@.len() - i,
    {
        proof {
            assert(old_values.take(i + 1).drop_last() =~= old_values.take(i as int));
            assert(old_values[i as int] == redirects@[i as int]@);
        }
        let value = match replace_first_match("NewGameName=\"/Script/(.+)\"", replacement.as_str(), redirects[i].as_str()) {
            Some(t) => t,
            None => redirects[i].clone(),
        };
        ini_append(doc, section, key, value.as_str());
        i = i + 1;
    }
    assert(old_values.take(i as int) =~= old_values);
    let redirect = cat5("(OldGameName=\"/Script/", old_name, "\", NewGameName=\"/Script/", new_name, "\")");
    ini_append(doc, section, key, redirect.as_str());
}

/// The engine configuration `text` updated as `update_engine_config` does;
/// fails when `text` is not a well-formed INI document.
pub fn update_engine_config_text(text: &str, old_name: &str, new_name: &str, is_code: bool) -> (r: Result<String, ChangeError>)
    ensures
        r is Ok <==> ini_parses(text@),
        r matches Err(e) ==> e is Parse,
        r matches Ok(t) ==> exists|d: ini::Ini|
            #[trigger] ini_text_of(d) == t@ && engine_config_updated(
                ini_text_values(text@),
                ini_values(d),
                old_name@,
                new_name@,
                is_code,
            ),
{
    match parse_ini(text) {
        Ok(mut doc) => {
            update_engine_config(&mut doc, old_name, new_name, is_code);
            let t = ini_to_text(&doc);
            assert(ini_text_of(doc) == t@);
            Ok(t)
        },
        Err(_) => Err(ChangeError::Parse),
    }
}

/// `data` with every occurrence of `old_name` replaced by `new_name`.
pub fn rename_references(data: &str, old_name: &str, new_name: &str) -> (r: String)
    ensures
        r@ == replaced_text(data@, old_name@, new_name@),
{
    replace_text(data, old_name, new_name)
}

/// `data` with the export macro of `old_name` replaced by that of
/// `new_name`.
pub fn rename_api_references(data: &str, old_name: &str, new_name: &str) -> (r: String)
    ensures
        r@ == replaced_text(data@, upper_of(old_name@) + "_API"@, upper_of(new_name@) + "_API"@),
{
    let old_api = cat(to_upper(old_name).as_str(), "_API");
    let new_api = cat(to_upper(new_name).as_str(), "_API");
    replace_text(data, old_api.as_str(), new_api.as_str())
}

/// How a staged file is edited.
#[derive(Debug, Clone, Copy, PartialEq, Eq, Structural)]
pub enum StagedEdit {
    /// The project descriptor: the primary module is renamed.
    Descriptor,
    /// The engine configuration: the game name and its redirects.
    EngineConfig,
    /// Every occurrence of the old project name is replaced.
    Names,
}

/// A project file that is backed up, staged, edited and emplaced.
pub struct StagedFile {
    /// What the file is, for people.
    pub description: String,
    /// The live file before the rename.
    pub original: FsPath,
    /// The staged copy, under its original name.
    pub staged_original: FsPath,
    /// The staged copy, under its new name.
    pub staged: FsPath,
    /// The live file after the rename.
    pub final_path: FsPath,
    /// How the staged copy is edited.
    pub edit: StagedEdit,
}

/// The paths of a staged file: live, staged under the old name, staged under
/// the new name, live after the rename.
pub open spec fn staged_paths(f: StagedFile) -> (PathView, PathView, PathView, PathView) {
    (f.original@, f.staged_original@, f.staged@, f.final_path@)
}

/// The staged file `dir/old_stem.ext` of `root` that becomes
/// `final_dir/new_stem.ext`, staged as `staging/<its name>` and then
/// `staging/new_stem.ext`.
pub open spec fn staged_at(
    dir: PathView,
    final_dir: PathView,
    staging: PathView,
    old_stem: Seq<char>,
    new_stem: Seq<char>,
    ext: Seq<char>,
) -> (PathView, PathView, PathView, PathView) {
    (
        extension_set(joined(dir, old_stem), ext),
        extension_set(joined(staging, old_stem), ext),
        extension_set(joined(staging, new_stem), ext),
        extension_set(joined(final_dir, new_stem), ext),
    )
}

fn staged_file(
    description: &str,
    dir: &FsPath,
    final_dir: &FsPath,
    staging: &FsPath,
    old_stem: &str,
    new_stem: &str,
    ext: &str,
    edit: StagedEdit,
) -> (r: StagedFile)
    ensures
        staged_paths(r) == staged_at(dir@, final_dir@, staging@, old_stem@, new_stem@, ext@),
        r.description@ == description@,
        r.edit == edit,
{
    StagedFile {
        description: owned(description),
        original: dir.join(old_stem).with_extension(ext),
        staged_original: staging.join(old_stem).with_extension(ext),
        staged: staging.join(new_stem).with_extension(ext),
        final_path: final_dir.join(new_stem).with_extension(ext),
        edit,
    }
}

/// The files that the staged renamer handles for a project renamed from
/// `old_name` to `new_name`: the project descriptor and the engine
/// configuration, and for a code project the executable and editor
/// targets and the primary module's build file, header and source.
pub fn staged_files(pathfinder: &Pathfinder, old_name: &str, new_name: &str, is_code: bool) -> (r: Vec<StagedFile>)
    ensures
        r@.len() == if is_code { 7int } else { 2int },
        staged_paths(r@[0]) == staged_at(
            pathfinder.root@,
            pathfinder.root@,
            joined(joined(pathfinder.root@, "_renom"@), "Staging"@),
            old_name@,
            new_name@,
            "uproject"@,
        ),
        r@[0].edit == StagedEdit::Descriptor,
        staged_paths(r@[1]) == staged_at(
            joined(pathfinder.root@, "Config"@),
            joined(pathfinder.root@, "Config"@),
            joined(joined(pathfinder.root@, "_renom"@), "Staging"@),
            "DefaultEngine"@,
            "DefaultEngine"@,
            "ini"@,
        ),
        r@[1].edit == StagedEdit::EngineConfig,
        is_code ==> {
            let source = joined(pathfinder.root@, "Source"@);
            let module = joined(source, old_name@);
            let staging = joined(joined(pathfinder.root@, "_renom"@), "Staging"@);
            &&& staged_paths(r@[2]) == staged_at(source, source, staging, old_name@, new_name@, "Target.cs"@)
            &&& staged_paths(r@[3]) == staged_at(
                source,
                source,
                staging,
                old_name@ + "Editor"@,
                new_name@ + "Editor"@,
                "Target.cs"@,
            )
            &&& staged_paths(r@[4]) == staged_at(module, module, staging, old_name@, new_name@, "Build.cs"@)
            &&& staged_paths(r@[5]) == staged_at(module, module, staging, old_name@, new_name@, "h"@)
            &&& staged_paths(r@[6]) == staged_at(module, module, staging, old_name@, new_name@, "cpp"@)
            &&& forall|i: int| 2 <= i < 7 ==> (#[trigger] r@[i]).edit == StagedEdit::Names
        },
{
    let root = pathfinder.root_dir();
    let staging = pathfinder.staging_dir();
    let config = pathfinder.config_dir();
    let mut r: Vec<StagedFile> = Vec::new();
    let descriptor = StagedEdit::Descriptor;
    let names = StagedEdit::Names;
    let (old, new) = (old_name, new_name);
    r.push(staged_file("Project Descriptor", &root, &root, &staging, old, new, "uproject", descriptor));
    let (ini_name, ini) = ("DefaultEngine", "ini");
    let engine_config = StagedEdit::EngineConfig;
    r.push(staged_file("Engine Config", &config, &config, &staging, ini_name, ini_name, ini, engine_config));
    if is_code {
        let source = pathfinder.source_dir();
        let module = pathfinder.source_proj_dir(old_name);
        let old_editor = cat(old_name, "Editor");
        let new_editor = cat(new_name, "Editor");
        let (old_ed, new_ed) = (old_editor.as_str(), new_editor.as_str());
        r.push(staged_file("Executable Target", &source, &source, &staging, old, new, "Target.cs", names));
        r.push(staged_file("Editor Target", &source, &source, &staging, old_ed, new_ed, "Target.cs", names));
        let build = "Primary Game Module Build File";
        let header = "Primary Game Module Header File";
        let cpp = "Primary Game Module Source File";
        r.push(staged_file(build, &module, &module, &staging, old, new, "Build.cs", names));
        r.push(staged_file(header, &module, &module, &staging, old, new, "h", names));
        r.push(staged_file(cpp, &module, &module, &staging, old, new, "cpp", names));
    }
    r
}

/// Checks the final project name: at most 20 bytes, and not the original
/// name.
pub fn validate_final_name(original_name: &str, final_name: &str) -> (r: Result<(), String>)
    ensures
        r is Ok <==> final_name.len() <= 20 && original_name@ != final_name@,
        r matches Err(m) ==> m@ == if final_name.len() > 20 {
            "Name is too long."@
        } else {
            "Final name is identical to original name."@
        },
{
    if final_name.len() > 20 {
        return Err(owned("Name is too long."));
    }
    if owned(final_name) == owned(original_name) {
        return Err(owned("Final name is identical to original name."));
    }
    Ok(())
}

} // verus!
