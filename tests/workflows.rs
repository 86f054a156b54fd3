use renom::changes::{AppendIniEntry, Change, RenameFile, ReplaceInFile, SetIniEntry};
use renom::path::FsPath;
use renom::unreal::{export_macro_of, target_name_of, Module, ModuleType, Plugin, Target};
use renom::workflows::rename_module::{self, SourceFile};
use renom::workflows::rename_plugin;
use renom::workflows::rename_project;
use renom::workflows::rename_target;
use renom::workflows::validation::{
    validate_exists, validate_new_name_is_concise, validate_new_name_is_not_empty,
    validate_new_name_is_novel, validate_new_name_is_unique, validate_new_name_is_valid_identifier,
    validate_project_root_is_not_special,
};
use renom::workflows::Workflow;

fn p(s: &str) -> FsPath {
    FsPath::new(s)
}

#[test]
fn project_changeset_sets_names_then_renames() {
    let context = rename_project::Context {
        project_root: p("Work/Start"),
        project_name: "Start".into(),
        new_name: "Finish".into(),
    };
    let expected = vec![
        Change::SetIniEntry(SetIniEntry::new(p("Work/Start/Config/DefaultEngine.ini"), "URL", "GameName", "Finish")),
        Change::SetIniEntry(SetIniEntry::new(
            p("Work/Start/Config/DefaultGame.ini"),
            "/Script/EngineSettings.GeneralProjectSettings",
            "ProjectName",
            "Finish",
        )),
        Change::RenameFile(RenameFile::new(p("Work/Start/Start.uproject"), p("Work/Start/Finish.uproject"))),
        Change::RenameFile(RenameFile::new(p("Work/Start"), p("Work/Finish"))),
    ];
    assert_eq!(rename_project::generate_changeset(&context), expected);
    assert_eq!(rename_project::success_message(&context), "Successfully renamed project Start to Finish.");
    assert_eq!(rename_project::failure_message(&context), "Failed to rename project Start to Finish.");
}

#[test]
fn target_changeset_updates_other_targets() {
    let game = Target { name: "Game".into(), path: p("R/Source/Game.Target.cs") };
    let editor = Target { name: "GameEditor".into(), path: p("R/Source/GameEditor.Target.cs") };
    let context = rename_target::Context {
        project_root: p("R"),
        project_targets: vec![game.clone(), editor.clone()],
        target: game.clone(),
        new_name: "Shooter".into(),
    };
    let expected = vec![
        Change::ReplaceInFile(ReplaceInFile::new(p("R/Source/Game.Target.cs"), "GameTarget", "ShooterTarget")),
        Change::RenameFile(RenameFile::new(p("R/Source/Game.Target.cs"), p("R/Source/Shooter.Target.cs"))),
        Change::ReplaceInFile(ReplaceInFile::new(p("R/Source/GameEditor.Target.cs"), "GameTarget", "ShooterTarget")),
    ];
    assert_eq!(rename_target::generate_changeset(&context), expected);
}

#[test]
fn plugin_changeset_covers_descriptor_root_and_redirects() {
    let plugin = Plugin { name: "Tools".into(), root: p("R/Plugins/Tools") };
    let other = Plugin { name: "Extra".into(), root: p("R/Plugins/Extra") };
    let context = rename_plugin::Context {
        project_root: p("R"),
        project_name: "Game".into(),
        project_plugins: vec![plugin.clone(), other],
        plugin,
        new_name: "Kit".into(),
    };
    let expected = vec![
        Change::RenameFile(RenameFile::new(p("R/Plugins/Tools/Tools.uplugin"), p("R/Plugins/Tools/Kit.uplugin"))),
        Change::RenameFile(RenameFile::new(p("R/Plugins/Tools"), p("R/Plugins/Kit"))),
        Change::ReplaceInFile(ReplaceInFile::new(p("R/Game.uproject"), "\"Tools\"", "\"Kit\"")),
        Change::ReplaceInFile(ReplaceInFile::new(p("R/Plugins/Extra/Extra.uplugin"), "\"Tools\"", "\"Kit\"")),
        Change::ReplaceInFile(ReplaceInFile::new(
            p("R/Config/DefaultEngine.ini"),
            r#"\(OldName="/(?P<old>.+?)/",\s*NewName="/Tools/",\s*MatchSubstring=true\)"#,
            r#"(OldName="/$old/",NewName="/Kit/",MatchSubstring=true)"#,
        )),
        Change::AppendIniEntry(AppendIniEntry::new(
            p("R/Config/DefaultEngine.ini"),
            "CoreRedirects",
            "+PackageRedirects",
            r#"(OldName="/Tools/",NewName="/Kit/",MatchSubstring=true)"#,
        )),
    ];
    assert_eq!(rename_plugin::generate_changeset(&context), expected);
}

fn module(name: &str, root: &str) -> Module {
    Module { name: name.into(), root: p(root), module_type: ModuleType::Project, plugin: None }
}

#[test]
fn module_workflow_changeset_covers_every_reference() {
    let core = module("Core", "R/Source/Core");
    let context = rename_module::Context {
        project_root: p("R"),
        project_name: "Game".into(),
        project_targets: vec![p("R/Source/Game.Target.cs")],
        project_config_files: vec![p("R/Config/DefaultEngine.ini")],
        modules: vec![core.clone(), module("Ui", "R/Source/Ui")],
        module: core,
        new_name: "Base".into(),
        source_with_implement_macro: Some(SourceFile {
            path: p("R/Source/Core/Core.cpp"),
            content: "IMPLEMENT_PRIMARY_GAME_MODULE(FDefaultGameModuleImpl, Core, \"Core\");\n".into(),
        }),
        headers_with_export_macro: vec![p("R/Source/Core/Core.h")],
    };
    let expected = vec![
        Change::ReplaceInFile(ReplaceInFile::new(p("R/Source/Core/Core.Build.cs"), "Core", "Base")),
        Change::RenameFile(RenameFile::new(p("R/Source/Core/Core.Build.cs"), p("R/Source/Core/Base.Build.cs"))),
        Change::ReplaceInFile(ReplaceInFile::new(
            p("R/Source/Core/Core.cpp"),
            r#"_MODULE\(.+\)"#,
            r#"_MODULE(FDefaultGameModuleImpl, Base, "Base")"#,
        )),
        Change::ReplaceInFile(ReplaceInFile::new(p("R/Source/Core/Core.h"), "CORE_API", "BASE_API")),
        Change::RenameFile(RenameFile::new(p("R/Source/Core"), p("R/Source/Base"))),
        Change::ReplaceInFile(ReplaceInFile::new(p("R/Source/Game.Target.cs"), "\"Core\"", "\"Base\"")),
        Change::ReplaceInFile(ReplaceInFile::new(p("R/Source/Ui/Ui.Build.cs"), "\"Core\"", "\"Base\"")),
        Change::ReplaceInFile(ReplaceInFile::new(p("R/Game.uproject"), "\"Core\"", "\"Base\"")),
        Change::ReplaceInFile(ReplaceInFile::new(
            p("R/Config/DefaultEngine.ini"),
            r#"\(OldName="(?P<old>.+?)",\s*NewName="/Script/Core"\)"#,
            r#"(OldName="$old", NewName="/Script/Base")"#,
        )),
        Change::AppendIniEntry(AppendIniEntry::new(
            p("R/Config/DefaultEngine.ini"),
            "CoreRedirects",
            "+PackageRedirects",
            r#"(OldName="/Script/Core",NewName="/Script/Base")"#,
        )),
    ];
    assert_eq!(rename_module::generate_changeset(&context), expected);
}

#[test]
fn game_module_macro_takes_two_arguments() {
    let core = module("Core", "R/Source/Core");
    let context = rename_module::Context {
        project_root: p("R"),
        project_name: "Game".into(),
        project_targets: vec![],
        project_config_files: vec![],
        modules: vec![core.clone()],
        module: core,
        new_name: "Base".into(),
        source_with_implement_macro: Some(SourceFile {
            path: p("R/Source/Core/Core.cpp"),
            content: "IMPLEMENT_GAME_MODULE(FDefaultGameModuleImpl, Core);\n".into(),
        }),
        headers_with_export_macro: vec![],
    };
    let changeset = rename_module::generate_changeset(&context);
    assert_eq!(
        changeset[2],
        Change::ReplaceInFile(ReplaceInFile::new(
            p("R/Source/Core/Core.cpp"),
            r#"_MODULE\(.+\)"#,
            "_MODULE(FDefaultGameModuleImpl, Base)",
        ))
    );
}

#[test]
fn new_name_checks() {
    assert_eq!(validate_new_name_is_not_empty(" \t"), Err("new name must not be empty".into()));
    assert_eq!(validate_new_name_is_not_empty("a"), Ok(()));
    assert_eq!(validate_new_name_is_not_empty("\u{3000}\u{85}\n"), Err("new name must not be empty".into()));
    assert_eq!(validate_new_name_is_not_empty("\u{200b}"), Ok(()));
    assert_eq!(
        validate_new_name_is_concise("abcdef", 5),
        Err("new name must not be longer than 5 characters".into())
    );
    assert_eq!(validate_new_name_is_concise("abcde", 5), Ok(()));
    assert_eq!(
        validate_new_name_is_valid_identifier("a-b"),
        Err("new name must be comprised of alphanumeric characters and underscores only".into())
    );
    assert_eq!(validate_new_name_is_valid_identifier("a_B9"), Ok(()));
    assert_eq!(
        validate_new_name_is_novel("Same", "Same"),
        Err("new name must be different than current name".into())
    );
    let names = vec![String::from("Game"), String::from("Tools")];
    assert_eq!(
        validate_new_name_is_unique("Tools", &names, "plugin"),
        Err("new name must not conflict with another plugin".into())
    );
    assert_eq!(validate_exists("Other", &names, "plugin"), Err("plugin must be part of project".into()));
    assert_eq!(validate_exists("Game", &names, "plugin"), Ok(()));
    assert_eq!(
        validate_project_root_is_not_special(&p(".")),
        Err("project root cannot be '.'".into())
    );
    assert_eq!(
        validate_project_root_is_not_special(&p("..")),
        Err("project root cannot be '..'".into())
    );
    assert_eq!(validate_project_root_is_not_special(&p("Game")), Ok(()));
}

#[test]
fn workflow_checks_run_in_order() {
    assert_eq!(rename_project::validate_new_name("Start", "Start"), Err("new name must be different than current name".into()));
    assert_eq!(
        rename_project::validate_new_name("Start", "ANameThatIsFarTooLong"),
        Err("new name must not be longer than 20 characters".into())
    );
    assert_eq!(rename_project::validate_new_name("Start", "Finish"), Ok(()));
    let targets = vec![Target { name: "Game".into(), path: p("Source/Game.Target.cs") }];
    assert_eq!(
        rename_target::validate_new_name("Nope", "X", &targets),
        Err("target must be part of project".into())
    );
    assert_eq!(
        rename_target::validate_new_name("Game", "Game", &targets),
        Err("new name must not conflict with another target".into())
    );
    let plugins = vec![Plugin { name: "Tools".into(), root: p("Plugins/Tools") }];
    assert_eq!(rename_plugin::validate_new_name("Tools", "Kit", &plugins), Ok(()));
    let modules = vec![module("Core", "Source/Core")];
    assert_eq!(
        rename_module::validate_new_name("Core", "", &modules),
        Err("new name must not be empty".into())
    );
}

#[test]
fn workflows_are_described() {
    assert_eq!(Workflow::RenameProject.describe(), "Rename a project");
    assert_eq!(Workflow::RenamePlugin.describe(), "Rename a plugin");
    assert_eq!(Workflow::RenameTarget.describe(), "Rename a target");
    assert_eq!(Workflow::RenameModule.describe(), "Rename a module");
    assert_eq!(module("Core", "x").describe(), "Core");
}

#[test]
fn target_names_come_from_target_files() {
    assert_eq!(target_name_of("GameEditor.Target.cs"), Some(String::from("GameEditor")));
    assert_eq!(target_name_of(".Target.cs"), Some(String::new()));
    assert_eq!(target_name_of("Game.Build.cs"), None);
    assert_eq!(target_name_of("cs"), None);
    assert_eq!(export_macro_of("Core"), "CORE_API");
}
