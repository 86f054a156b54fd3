use renom::changes::{AppendIniEntry, Change, RenameFile, ReplaceInFile, SetIniEntry};
use renom::changesets::{
    generate_blueprint_changeset, generate_code_changeset, generate_module_changeset,
    generate_target_changeset,
};
use renom::path::FsPath;
use renom::workflows::blueprint::{self, Context, ProjectType};

fn p(s: &str) -> FsPath {
    FsPath::new(s)
}

#[test]
fn blueprint_changeset_is_correct() {
    let old_project_name = "Start";
    let new_project_name = "Finish";
    let project_root = p("");
    let changeset =
        generate_blueprint_changeset(old_project_name, new_project_name, &project_root);
    let expected = vec![
        // Rename project descriptor
        Change::RenameFile(RenameFile::new(p("Start.uproject"), p("Finish.uproject"))),
        // Add Game Name entry to ini file
        Change::SetIniEntry(SetIniEntry::new(
            p("Config/DefaultEngine.ini"),
            "URL",
            "GameName",
            "Finish",
        )),
        // Add Project Name entry to ini file
        Change::SetIniEntry(SetIniEntry::new(
            p("Config/DefaultGame.ini"),
            "/Script/EngineSettings.GeneralProjectSettings",
            "ProjectName",
            "Finish",
        )),
        // Rename project root
        Change::RenameFile(RenameFile::new(p(""), p("Finish"))),
    ];

    assert_eq!(changeset, expected);
}

#[test]
fn blueprint_blueprint_changeset_is_correct() {
    let changeset = blueprint::generate_blueprint_changeset(&Context {
        project_root: FsPath::new(""),
        project_name: "Start".into(),
        project_type: ProjectType::Blueprint,
        target_name: "Finish".into(),
    });
    let expected = vec![
        // Rename project descriptor
        Change::RenameFile(RenameFile::new(p("Start.uproject"), p("Finish.uproject"))),
        // Add Game Name entry to ini file
        Change::SetIniEntry(SetIniEntry::new(
            p("Config/DefaultEngine.ini"),
            "URL",
            "GameName",
            "Finish",
        )),
        // Add Project Name entry to ini file
        Change::SetIniEntry(SetIniEntry::new(
            p("Config/DefaultGame.ini"),
            "/Script/EngineSettings.GeneralProjectSettings",
            "ProjectName",
            "Finish",
        )),
        // Rename project root
        Change::RenameFile(RenameFile::new(p(""), p("Finish"))),
    ];

    assert_eq!(changeset, expected);
}

#[test]
fn code_changeset_is_correct() {
    let old_project_name = "Start";
    let new_project_name = "Finish";
    let project_root = p("");
    let changeset = generate_code_changeset(old_project_name, new_project_name, &project_root);
    let expected = vec![
        // Replace old name with new name in project descriptor
        Change::ReplaceInFile(ReplaceInFile::new(
            p("Start.uproject"),
            old_project_name,
            new_project_name,
        )),
        // Rename project descriptor
        Change::RenameFile(RenameFile::new(p("Start.uproject"), p("Finish.uproject"))),
        // Replace old name with new name in executable target file
        Change::ReplaceInFile(ReplaceInFile::new(
            p("Source/Start.Target.cs"),
            old_project_name,
            new_project_name,
        )),
        // Rename executable target file
        Change::RenameFile(RenameFile::new(
            p("Source/Start.Target.cs"),
            p("Source/Finish.Target.cs"),
        )),
        // Replace old name with new name in editor target file
        Change::ReplaceInFile(ReplaceInFile::new(
            p("Source/StartEditor.Target.cs"),
            old_project_name,
            new_project_name,
        )),
        // Rename editor target file
        Change::RenameFile(RenameFile::new(
            p("Source/StartEditor.Target.cs"),
            p("Source/FinishEditor.Target.cs"),
        )),
        // Replace old name with new name in game module build file
        Change::ReplaceInFile(ReplaceInFile::new(
            p("Source/Start/Start.Build.cs"),
            old_project_name,
            new_project_name,
        )),
        // Rename game module build file
        Change::RenameFile(RenameFile::new(
            p("Source/Start/Start.Build.cs"),
            p("Source/Start/Finish.Build.cs"),
        )),
        // Replace old name with new name api references in header files
        Change::ReplaceInFile(ReplaceInFile::new(
            p("Source/Start/StartGameModeBase.h"),
            "START_API",
            "FINISH_API",
        )),
        // Rename game module header file
        Change::RenameFile(RenameFile::new(
            p("Source/Start/Start.h"),
            p("Source/Start/Finish.h"),
        )),
        // Replace old name with new name api references in header files
        Change::ReplaceInFile(ReplaceInFile::new(
            p("Source/Start/Start.cpp"),
            old_project_name,
            new_project_name,
        )),
        // Rename game module source file
        Change::RenameFile(RenameFile::new(
            p("Source/Start/Start.cpp"),
            p("Source/Start/Finish.cpp"),
        )),
        // Rename source subfolder
        Change::RenameFile(RenameFile::new(p("Source/Start"), p("Source/Finish"))),
        // Update existing redirect entries in ini file
        Change::ReplaceInFile(ReplaceInFile::new(
            p("Config/DefaultEngine.ini"),
            r#"\(OldGameName="(?P<old>.+?)",\s*NewGameName=".+?"\)"#,
            r#"(OldGameName="$old", NewGameName="/Script/Finish")"#,
        )),
        // Append redirect entry to ini file
        Change::AppendIniEntry(AppendIniEntry::new(
            p("Config/DefaultEngine.ini"),
            "/Script/Engine.Engine",
            "+ActiveGameNameRedirects",
            r#"(OldGameName="/Script/Start", NewGameName="/Script/Finish")"#,
        )),
        // Add Game Name entry to ini file
        Change::SetIniEntry(SetIniEntry::new(
            p("Config/DefaultEngine.ini"),
            "URL",
            "GameName",
            "Finish",
        )),
        // Add Project Name entry to ini file
        Change::SetIniEntry(SetIniEntry::new(
            p("Config/DefaultGame.ini"),
            "/Script/EngineSettings.GeneralProjectSettings",
            "ProjectName",
            "Finish",
        )),
        // Rename project root
        Change::RenameFile(RenameFile::new(p(""), p("Finish"))),
    ];

    assert_eq!(changeset, expected);
}

#[test]
fn target_changeset_renames_class_then_file() {
    let changeset = generate_target_changeset("Start", "Finish", &p("Root"));
    let expected = vec![
        Change::ReplaceInFile(ReplaceInFile::new(
            p("Root/Source/Start.Target.cs"),
            "StartTarget",
            "FinishTarget",
        )),
        Change::RenameFile(RenameFile::new(
            p("Root/Source/Start.Target.cs"),
            p("Root/Source/Finish.Target.cs"),
        )),
    ];
    assert_eq!(changeset, expected);
}

#[test]
fn module_changeset_covers_every_reference() {
    let implementation = Some((
        p("Source/Core/Core.cpp"),
        String::from("#include \"Core.h\"\nIMPLEMENT_MODULE(FDefaultModuleImpl, Core);\n"),
    ));
    let headers = vec![p("Source/Core/Public/Core.h")];
    let targets = vec![String::from("Game"), String::from("GameEditor")];
    let changeset = generate_module_changeset(
        "Core",
        "Engine2",
        &p("Root"),
        "Game",
        &implementation,
        &headers,
        &targets,
    );
    let expected = vec![
        Change::ReplaceInFile(ReplaceInFile::new(p("Root/Source/Core/Core.Build.cs"), "Core", "Engine2")),
        Change::RenameFile(RenameFile::new(
            p("Root/Source/Core/Core.Build.cs"),
            p("Root/Source/Core/Engine2.Build.cs"),
        )),
        Change::ReplaceInFile(ReplaceInFile::new(
            p("Source/Core/Core.cpp"),
            r#"_MODULE\(FDefaultModuleImpl, Core\)"#,
            "_MODULE(FDefaultModuleImpl, Engine2)",
        )),
        Change::ReplaceInFile(ReplaceInFile::new(
            p("Root/Source/Core/Public/Core.h"),
            "CORE_API",
            "ENGINE2_API",
        )),
        Change::RenameFile(RenameFile::new(p("Root/Source/Core"), p("Root/Source/Engine2"))),
        Change::ReplaceInFile(ReplaceInFile::new(p("Root/Source/Game.Target.cs"), "\"Core\"", "\"Engine2\"")),
        Change::ReplaceInFile(ReplaceInFile::new(
            p("Root/Source/GameEditor.Target.cs"),
            "\"Core\"",
            "\"Engine2\"",
        )),
        Change::ReplaceInFile(ReplaceInFile::new(p("Root/Game.uproject"), "\"Core\"", "\"Engine2\"")),
        Change::ReplaceInFile(ReplaceInFile::new(
            p("Root/Config/DefaultEngine.ini"),
            r#"\(OldName="(?P<old>.+?)",\s*NewName="/Script/Core"\)"#,
            r#"(OldName="$old", NewName="/Script/Engine2")"#,
        )),
        Change::AppendIniEntry(AppendIniEntry::new(
            p("Root/Config/DefaultEngine.ini"),
            "CoreRedirects",
            "+PackageRedirects",
            r#"(OldName="/Script/Core",NewName="/Script/Engine2")"#,
        )),
    ];
    assert_eq!(changeset, expected);
}

#[test]
fn module_changeset_without_implementation_skips_macro() {
    let changeset = generate_module_changeset("A", "B", &p(""), "P", &None, &vec![], &vec![]);
    assert_eq!(changeset.len(), 6);
    assert_eq!(
        changeset[2],
        Change::RenameFile(RenameFile::new(p("Source/A"), p("Source/B")))
    );
}
