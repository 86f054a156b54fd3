use std::collections::HashMap;

use renom::changes::{
    backup_file_path, changeset_is_valid, snapshot, AppendIniEntry, Change, ChangeError, FileOp, RenameFile,
    ReplaceInFile, Revert, SetIniEntry,
};
use renom::engine::{Engine, EngineState};
use renom::path::FsPath;

fn p(s: &str) -> FsPath {
    FsPath::new(s)
}

/// An in-memory file tree that carries out file operations.
struct Tree {
    files: HashMap<String, String>,
}

impl Tree {
    fn new(files: &[(&str, &str)]) -> Tree {
        Tree {
            files: files
                .iter()
                .map(|(k, v)| (p(k).to_text(), v.to_string()))
                .collect(),
        }
    }

    fn read(&self, path: &FsPath) -> Option<String> {
        self.files.get(&path.to_text()).cloned()
    }

    fn perform(&mut self, op: &FileOp) -> Result<(), String> {
        match op {
            FileOp::Write { path, content } => {
                self.files.insert(path.to_text(), content.clone());
                Ok(())
            }
            FileOp::Copy { from, to } => match self.read(from) {
                Some(c) => {
                    self.files.insert(to.to_text(), c);
                    Ok(())
                }
                None => Err(format!("{} does not exist", from.to_text())),
            },
            FileOp::Rename { from, to } => match self.files.remove(&from.to_text()) {
                Some(c) => {
                    self.files.insert(to.to_text(), c);
                    Ok(())
                }
                None => Err(format!("{} does not exist", from.to_text())),
            },
        }
    }

    /// Runs the engine over the changeset, as a caller does.
    fn run(&mut self, engine: &mut Engine) {
        while engine.state() == EngineState::Applying {
            let text = match engine.next_read() {
                Some(path) => match self.read(&path) {
                    Some(t) => t,
                    None => {
                        engine.fail_next(format!("{} does not exist", path.to_text()));
                        break;
                    }
                },
                None => String::new(),
            };
            let ops = match engine.plan_next(&text) {
                Ok(ops) => ops,
                Err(_) => break,
            };
            let mut outcome = Ok(());
            for op in &ops {
                outcome = self.perform(op);
                if outcome.is_err() {
                    break;
                }
            }
            engine.finish_next(outcome);
        }
    }

    fn revert(&mut self, engine: &mut Engine) {
        engine.revert();
        while engine.state() == EngineState::Reverting {
            let op = engine.next_revert();
            let outcome = self.perform(&op);
            engine.finish_revert(outcome);
        }
    }
}

fn first_line(text: &str) -> &str {
    text.lines().next().unwrap()
}

fn ini_content(ops: &[FileOp]) -> String {
    match &ops[1] {
        FileOp::Write { content, .. } => content.clone(),
        other => panic!("unexpected operation {:?}", other),
    }
}

#[test]
fn ini_append_should_not_strip_quotes() {
    let change = Change::AppendIniEntry(AppendIniEntry::new(p("quoted_value.ini"), "test", "test", "test"));
    let applied = change.apply(&p("backup"), "key=\"value\"\n").unwrap();
    let content = ini_content(&applied.ops);
    assert_eq!(first_line(&content), r#"key="value""#);
}

#[test]
fn ini_set_should_not_strip_quotes() {
    let change = Change::SetIniEntry(SetIniEntry::new(p("quoted_value.ini"), "test", "test", "test"));
    let applied = change.apply(&p("backup"), "key=\"value\"\n").unwrap();
    let content = ini_content(&applied.ops);
    assert_eq!(first_line(&content), r#"key="value""#);
}

#[test]
fn append_to_empty_section_name_keeps_quoted_first_line() {
    let change = Change::AppendIniEntry(AppendIniEntry::new(p("a.ini"), "", "other_key", "other_value"));
    let applied = change.apply(&p("backup"), "key=\"value\"\n").unwrap();
    let content = ini_content(&applied.ops);
    assert_eq!(first_line(&content), r#"key="value""#);
    assert!(content.contains("other_key=other_value"));
}

#[test]
fn append_keeps_earlier_values() {
    let change = Change::AppendIniEntry(AppendIniEntry::new(p("a.ini"), "S", "key", "V2"));
    let applied = change.apply(&p("backup"), "[S]\nkey=V1\n").unwrap();
    let content = ini_content(&applied.ops);
    assert_eq!(content.lines().collect::<Vec<_>>(), vec!["[S]", "key=V1", "key=V2"]);
}

#[test]
fn set_creates_missing_section() {
    let change = Change::SetIniEntry(SetIniEntry::new(p("a.ini"), "New", "key", "value"));
    let applied = change.apply(&p("backup"), "[Old]\nother=1\n").unwrap();
    let content = ini_content(&applied.ops);
    assert_eq!(
        content.lines().collect::<Vec<_>>(),
        vec!["[Old]", "other=1", "", "[New]", "key=value"]
    );
}

#[test]
fn set_replaces_every_earlier_value() {
    let change = Change::SetIniEntry(SetIniEntry::new(p("a.ini"), "S", "key", "V3"));
    let applied = change.apply(&p("backup"), "[S]\nkey=V1\nkey=V2\nother=x\n").unwrap();
    let content = ini_content(&applied.ops);
    assert_eq!(content.lines().collect::<Vec<_>>(), vec!["[S]", "other=x", "key=V3"]);
}

#[test]
fn malformed_ini_is_a_parse_error() {
    let change = Change::SetIniEntry(SetIniEntry::new(p("a.ini"), "S", "key", "v"));
    assert!(matches!(change.apply(&p("backup"), "=no key\n"), Err(ChangeError::Parse)));
}

#[test]
fn invalid_pattern_makes_change_invalid() {
    let bad = Change::ReplaceInFile(ReplaceInFile::new(p("a.txt"), "(", "x"));
    let good = Change::ReplaceInFile(ReplaceInFile::new(p("a.txt"), "\\(x\\)", "y"));
    let rename = Change::RenameFile(RenameFile::new(p("a"), p("b")));
    assert!(!bad.is_valid());
    assert!(good.is_valid());
    assert!(rename.is_valid());
    assert!(changeset_is_valid(&vec![good.clone(), rename.clone()]));
    assert!(!changeset_is_valid(&vec![good, bad, rename]));
}

#[test]
fn replace_uses_capture_groups() {
    let change = Change::ReplaceInFile(ReplaceInFile::new(
        p("a.ini"),
        r#"\(OldGameName="(?P<old>.+?)",\s*NewGameName=".+?"\)"#,
        r#"(OldGameName="$old", NewGameName="/Script/Finish")"#,
    ));
    let text = "+R=(OldGameName=\"/Script/A\", NewGameName=\"/Script/Start\")\n";
    let applied = change.apply(&p("b"), text).unwrap();
    assert_eq!(
        ini_content(&applied.ops),
        "+R=(OldGameName=\"/Script/A\", NewGameName=\"/Script/Finish\")\n"
    );
}

#[test]
fn backup_is_named_by_sha256_of_content() {
    assert_eq!(
        backup_file_path(&p("backup"), ""),
        p("backup/e3b0c44298fc1c149afbf4c8996fb92427ae41e4649b934ca495991b7852b855")
    );
    assert_eq!(
        backup_file_path(&p("backup"), "abc"),
        p("backup/ba7816bf8f01cfea414140de5dae2223b00361a396177a9cb410ff61f20015ad")
    );
}

#[test]
fn snapshot_twice_stores_one_file() {
    let mut tree = Tree::new(&[("a.txt", "same"), ("b.txt", "same")]);
    tree.perform(&snapshot(&p("backup"), "same")).unwrap();
    let after_one = tree.files.clone();
    tree.perform(&snapshot(&p("backup"), "same")).unwrap();
    assert_eq!(tree.files, after_one);
    assert_eq!(tree.files.len(), 3);
    assert_eq!(backup_file_path(&p("backup"), "same"), backup_file_path(&p("backup"), "same"));
}

#[test]
fn replace_then_revert_restores_content() {
    let mut tree = Tree::new(&[("Source/A.cpp", "int Start = 1; // Start\n")]);
    let mut engine = Engine::new();
    engine.execute(
        vec![Change::ReplaceInFile(ReplaceInFile::new(p("Source/A.cpp"), "Start", "Finish"))],
        p("backup"),
    );
    tree.run(&mut engine);
    assert_eq!(engine.state(), EngineState::Applied);
    assert_eq!(tree.read(&p("Source/A.cpp")).unwrap(), "int Finish = 1; // Finish\n");
    tree.revert(&mut engine);
    assert_eq!(engine.state(), EngineState::Reverted);
    assert_eq!(tree.read(&p("Source/A.cpp")).unwrap(), "int Start = 1; // Start\n");
}

#[test]
fn execution_halts_at_first_failure() {
    let mut tree = Tree::new(&[("a.txt", "x"), ("b.ini", "=x\n"), ("c.txt", "x")]);
    let mut engine = Engine::new();
    engine.execute(
        vec![
            Change::ReplaceInFile(ReplaceInFile::new(p("a.txt"), "x", "y")),
            Change::SetIniEntry(SetIniEntry::new(p("b.ini"), "S", "k", "v")),
            Change::ReplaceInFile(ReplaceInFile::new(p("c.txt"), "x", "y")),
        ],
        p("backup"),
    );
    tree.run(&mut engine);
    assert_eq!(engine.state(), EngineState::Failed);
    assert_eq!(engine.history_len(), 1);
    assert_eq!(tree.read(&p("a.txt")).unwrap(), "y");
    assert_eq!(tree.read(&p("b.ini")).unwrap(), "=x\n");
    assert_eq!(tree.read(&p("c.txt")).unwrap(), "x");
    assert!(engine.error().is_some());
}

#[test]
fn missing_file_fails_the_rename() {
    let mut tree = Tree::new(&[("a.txt", "x")]);
    let mut engine = Engine::new();
    engine.execute(
        vec![
            Change::RenameFile(RenameFile::new(p("a.txt"), p("b.txt"))),
            Change::RenameFile(RenameFile::new(p("missing.txt"), p("c.txt"))),
            Change::RenameFile(RenameFile::new(p("b.txt"), p("d.txt"))),
        ],
        p("backup"),
    );
    tree.run(&mut engine);
    assert_eq!(engine.state(), EngineState::Failed);
    assert_eq!(engine.history_len(), 1);
    assert!(tree.read(&p("b.txt")).is_some());
    assert!(tree.read(&p("d.txt")).is_none());
    tree.revert(&mut engine);
    assert_eq!(engine.state(), EngineState::Reverted);
    assert_eq!(tree.read(&p("a.txt")).unwrap(), "x");
}

#[test]
fn revert_runs_last_in_first_out() {
    let mut tree = Tree::new(&[("A", "x marks")]);
    let original = tree.files.clone();
    let mut engine = Engine::new();
    engine.execute(
        vec![
            Change::RenameFile(RenameFile::new(p("A"), p("B"))),
            Change::ReplaceInFile(ReplaceInFile::new(p("B"), "x", "y")),
        ],
        p("backup"),
    );
    tree.run(&mut engine);
    assert_eq!(tree.read(&p("B")).unwrap(), "y marks");
    engine.revert();
    let first = engine.next_revert();
    assert!(matches!(first, FileOp::Copy { .. }));
    tree.perform(&first).unwrap();
    engine.finish_revert(Ok(()));
    let second = engine.next_revert();
    assert_eq!(second, FileOp::Rename { from: p("B"), to: p("A") });
    tree.perform(&second).unwrap();
    engine.finish_revert(Ok(()));
    assert_eq!(engine.state(), EngineState::Reverted);
    assert_eq!(tree.read(&p("A")).unwrap(), "x marks");
    assert!(tree.read(&p("B")).is_none());
    let backup = backup_file_path(&p("backup"), "x marks");
    tree.files.remove(&backup.to_text());
    assert_eq!(tree.files, original);
}

#[test]
fn revert_in_forward_order_is_wrong() {
    let mut tree = Tree::new(&[("A", "x marks")]);
    let original = tree.files.clone();
    let rename = Change::RenameFile(RenameFile::new(p("A"), p("B")));
    let replace = Change::ReplaceInFile(ReplaceInFile::new(p("B"), "x", "y"));
    let first = rename.apply(&p("backup"), "").unwrap();
    for op in &first.ops {
        tree.perform(op).unwrap();
    }
    let text = tree.read(&p("B")).unwrap();
    let second = replace.apply(&p("backup"), &text).unwrap();
    for op in &second.ops {
        tree.perform(op).unwrap();
    }
    tree.perform(&first.revert.op()).unwrap();
    tree.perform(&second.revert.op()).unwrap();
    let backup = backup_file_path(&p("backup"), "x marks");
    tree.files.remove(&backup.to_text());
    assert_ne!(tree.files, original);
    assert_eq!(tree.read(&p("B")).unwrap(), "x marks");
}

#[test]
fn unreadable_file_halts_execution() {
    let mut tree = Tree::new(&[("a.txt", "x")]);
    let mut engine = Engine::new();
    engine.execute(
        vec![
            Change::ReplaceInFile(ReplaceInFile::new(p("a.txt"), "x", "y")),
            Change::ReplaceInFile(ReplaceInFile::new(p("gone.txt"), "x", "y")),
        ],
        p("backup"),
    );
    tree.run(&mut engine);
    assert_eq!(engine.state(), EngineState::Failed);
    assert_eq!(engine.history_len(), 1);
    assert_eq!(engine.error(), Some(String::from("gone.txt does not exist")));
}

#[test]
fn failed_revert_pops_the_entry_and_stops() {
    let mut tree = Tree::new(&[("A", "1"), ("C", "2")]);
    let mut engine = Engine::new();
    engine.execute(
        vec![
            Change::RenameFile(RenameFile::new(p("A"), p("B"))),
            Change::RenameFile(RenameFile::new(p("C"), p("D"))),
            Change::RenameFile(RenameFile::new(p("B"), p("E"))),
        ],
        p("backup"),
    );
    tree.run(&mut engine);
    assert_eq!(engine.history_len(), 3);
    tree.files.remove(&p("E").to_text());
    engine.revert();
    let op = engine.next_revert();
    let outcome = tree.perform(&op);
    assert!(outcome.is_err());
    engine.finish_revert(outcome);
    assert_eq!(engine.state(), EngineState::Failed);
    assert_eq!(engine.history_len(), 2);
    assert_eq!(engine.error(), Some(String::from("E does not exist")));
    assert!(tree.read(&p("D")).is_some());
    assert!(tree.read(&p("C")).is_none());
}

#[test]
fn failed_change_is_named_after_failure() {
    let mut tree = Tree::new(&[("a.txt", "x"), ("b.ini", "=x\n")]);
    let mut engine = Engine::new();
    engine.execute(
        vec![
            Change::ReplaceInFile(ReplaceInFile::new(p("a.txt"), "x", "y")),
            Change::SetIniEntry(SetIniEntry::new(p("b.ini"), "S", "k", "v")),
        ],
        p("backup"),
    );
    tree.run(&mut engine);
    assert_eq!(engine.state(), EngineState::Failed);
    assert_eq!(engine.pending_len(), 1);
    assert_eq!(engine.describe_next(), "set [S] k = v in config file b.ini");
    assert_eq!(engine.error(), Some(String::from("file is not a well-formed INI document")));
}

#[test]
fn revert_actions_undo_their_change() {
    let rename = Change::RenameFile(RenameFile::new(p("a"), p("b")));
    let applied = rename.apply(&p("backup"), "").unwrap();
    assert_eq!(applied.revert, Revert::ReverseRename { from: p("a"), to: p("b") });
    assert_eq!(applied.revert.op(), FileOp::Rename { from: p("b"), to: p("a") });
    assert_eq!(rename.file_to_read(), None);
    let replace = Change::ReplaceInFile(ReplaceInFile::new(p("c"), "q", "r"));
    assert_eq!(replace.file_to_read(), Some(p("c")));
}

#[test]
fn empty_changeset_is_applied_at_once() {
    let mut engine = Engine::new();
    assert_eq!(engine.state(), EngineState::Idle);
    engine.execute(vec![], p("backup"));
    assert_eq!(engine.state(), EngineState::Applied);
    engine.revert();
    assert_eq!(engine.state(), EngineState::Reverted);
}

#[test]
fn error_messages_describe_the_failure() {
    assert_eq!(ChangeError::Parse.message(), "file is not a well-formed INI document");
}

#[test]
fn checked_entry_points_refuse_ill_formed_changes() {
    let bad = Change::ReplaceInFile(ReplaceInFile::new(p("a.txt"), "[", "x"));
    assert!(bad.try_apply(&p("backup"), "text").is_none());
    let good = Change::ReplaceInFile(ReplaceInFile::new(p("a.txt"), "t", "T"));
    let applied = good.try_apply(&p("backup"), "text").unwrap().unwrap();
    assert_eq!(ini_content(&applied.ops), "TexT");
    let mut engine = Engine::new();
    assert!(!engine.try_execute(vec![good.clone(), bad], p("backup")));
    assert_eq!(engine.state(), EngineState::Idle);
    assert!(engine.try_execute(vec![good], p("backup")));
    assert_eq!(engine.state(), EngineState::Applying);
}
