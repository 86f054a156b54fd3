use renom::descriptor::rename_module_in_descriptor;
use renom::path::FsPath;
use renom::pathfinder::Pathfinder;
use renom::renamer::{
    rename_api_references, rename_references, staged_files, update_engine_config_text,
    validate_final_name, StagedEdit,
};

#[test]
fn descriptor_renames_first_matching_module_only() {
    let text = r#"{"Modules":[{"Name":"Other"},{"Name":"Start","Type":"Runtime"},{"Name":"Start"}]}"#;
    let renamed = rename_module_in_descriptor(text, "Start", "Finish").unwrap();
    assert_eq!(
        renamed,
        r#"{"Modules":[{"Name":"Other"},{"Name":"Finish","Type":"Runtime"},{"Name":"Start"}]}"#
    );
}

#[test]
fn descriptor_without_module_is_unchanged() {
    let text = r#"{"FileVersion":3}"#;
    assert_eq!(rename_module_in_descriptor(text, "Start", "Finish").unwrap(), text);
    assert_eq!(rename_module_in_descriptor("not json", "Start", "Finish"), None);
}

#[test]
fn engine_config_points_redirects_at_new_name() {
    let text = "[/Script/Engine.Engine]\n+ActiveGameNameRedirects=(OldGameName=\"/Script/A\", NewGameName=\"/Script/Start\")\n";
    let updated = update_engine_config_text(text, "Start", "Finish", true).unwrap();
    let lines: Vec<&str> = updated.lines().collect();
    assert_eq!(
        lines,
        vec![
            "[/Script/Engine.Engine]",
            "+ActiveGameNameRedirects=(OldGameName=\"/Script/A\", NewGameName=\"/Script/Finish\")",
            "+ActiveGameNameRedirects=(OldGameName=\"/Script/Start\", NewGameName=\"/Script/Finish\")",
            "",
            "[URL]",
            "GameName=Finish",
        ]
    );
}

#[test]
fn blueprint_engine_config_only_sets_game_name() {
    let updated = update_engine_config_text("[URL]\nGameName=Start\n", "Start", "Finish", false).unwrap();
    assert_eq!(updated.lines().collect::<Vec<_>>(), vec!["[URL]", "GameName=Finish"]);
    assert!(update_engine_config_text("=x\n", "Start", "Finish", false).is_err());
}

#[test]
fn names_and_api_macros_are_replaced() {
    assert_eq!(rename_references("Start StartEditor", "Start", "Finish"), "Finish FinishEditor");
    assert_eq!(
        rename_api_references("class START_API AStart", "Start", "Finish"),
        "class FINISH_API AStart"
    );
}

#[test]
fn staged_files_of_code_project() {
    let pathfinder = Pathfinder { root: FsPath::new("Root") };
    let files = staged_files(&pathfinder, "Start", "Finish", true);
    assert_eq!(files.len(), 7);
    assert_eq!(files[0].original, FsPath::new("Root/Start.uproject"));
    assert_eq!(files[0].staged_original, FsPath::new("Root/_renom/Staging/Start.uproject"));
    assert_eq!(files[0].staged, FsPath::new("Root/_renom/Staging/Finish.uproject"));
    assert_eq!(files[0].final_path, FsPath::new("Root/Finish.uproject"));
    assert_eq!(files[1].final_path, FsPath::new("Root/Config/DefaultEngine.ini"));
    assert_eq!(files[1].edit, StagedEdit::EngineConfig);
    assert_eq!(files[3].original, FsPath::new("Root/Source/StartEditor.Target.cs"));
    assert_eq!(files[4].final_path, FsPath::new("Root/Source/Start/Finish.Build.cs"));
    assert_eq!(files[6].staged, FsPath::new("Root/_renom/Staging/Finish.cpp"));
    assert_eq!(staged_files(&pathfinder, "Start", "Finish", false).len(), 2);
}

#[test]
fn final_name_checks() {
    assert_eq!(validate_final_name("Start", "Start"), Err("Final name is identical to original name.".into()));
    assert_eq!(validate_final_name("Start", "AVeryLongProjectName21"), Err("Name is too long.".into()));
    assert_eq!(validate_final_name("Start", "Finish"), Ok(()));
}
