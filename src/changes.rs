//! Changes: declarative descriptions of one mutation each, the file
//! operations that carry one out, and the action that undoes it.
use crate::digest::{is_hex_digit, sha256_hex, sha256_hex_of};
use crate::ini_doc::{
    append_ini_entry_in, ini_parses, ini_text_of, ini_text_values, ini_to_text, ini_values, parse_ini,
    set_ini_entry_in, values_of,
};
use crate::path::{is_sep, joined, lemma_components_plain, text_of, FsPath, PathView};
use crate::pattern::{regex_compiles, regex_replaced, replace_all_matches};
use crate::text::{cat, cat5, owned};
use vstd::string::*;
use vstd::prelude::*;

verus! {

/// Move a file or directory from one path to another.
#[derive(Debug, Clone, PartialEq, Eq)]
pub struct RenameFile {
    pub from: FsPath,
    pub to: FsPath,
}

/// Replace every match of a regular expression in a text file.
#[derive(Debug, Clone, PartialEq, Eq)]
pub struct ReplaceInFile {
    pub path: FsPath,
    /// The pattern to look for.
    pub from: String,
    /// The replacement template; `$name` refers to a capture group.
    pub to: String,
}

/// Set a single-valued key of an INI file.
#[derive(Debug, Clone, PartialEq, Eq)]
pub struct SetIniEntry {
    pub path: FsPath,
    pub section: String,
    pub key: String,
    pub value: String,
}

/// Add one more value to a multi-valued key of an INI file.
#[derive(Debug, Clone, PartialEq, Eq)]
pub struct AppendIniEntry {
    pub path: FsPath,
    pub section: String,
    pub key: String,
    pub value: String,
}

/// One mutation of a project tree.
#[derive(Debug, Clone, PartialEq, Eq)]
pub enum Change {
    RenameFile(RenameFile),
    ReplaceInFile(ReplaceInFile),
    SetIniEntry(SetIniEntry),
    AppendIniEntry(AppendIniEntry),
}

/// The mathematical value of a change.
pub enum ChangeView {
    RenameFile { from: PathView, to: PathView },
    ReplaceInFile { path: PathView, pattern: Seq<char>, replacement: Seq<char> },
    SetIniEntry { path: PathView, section: Seq<char>, key: Seq<char>, value: Seq<char> },
    AppendIniEntry { path: PathView, section: Seq<char>, key: Seq<char>, value: Seq<char> },
}

impl View for Change {
    type V = ChangeView;

    open spec fn view(&self) -> ChangeView {
        match self {
            Change::RenameFile(c) => ChangeView::RenameFile { from: c.from@, to: c.to@ },
            Change::ReplaceInFile(c) => ChangeView::ReplaceInFile {
                path: c.path@,
                pattern: c.from@,
                replacement: c.to@,
            },
            Change::SetIniEntry(c) => ChangeView::SetIniEntry {
                path: c.path@,
                section: c.section@,
                key: c.key@,
                value: c.value@,
            },
            Change::AppendIniEntry(c) => ChangeView::AppendIniEntry {
                path: c.path@,
                section: c.section@,
                key: c.key@,
                value: c.value@,
            },
        }
    }
}

/// The views of a sequence of changes.
pub open spec fn changes_view(v: Seq<Change>) -> Seq<ChangeView> {
    v.map_values(|c: Change| c@)
}

/// Whether every change of `changeset` is well-formed.
pub fn changeset_is_valid(changeset: &Vec<Change>) -> (r: bool)
    ensures
        r == all_valid(changes_view(changeset@)),
{
    let mut i: usize = 0;
    while i < changeset.len()
        invariant
            i <= changeset@.len(),
            forall|k: int| 0 <= k < i ==> is_valid_change(#[trigger] changes_view(changeset@)[k]),
        decreases changeset@.len() - i,
    {
        if !changeset[i].is_valid() {
            assert(!is_valid_change(changes_view(changeset@)[i as int]));
            return false;
        }
        i = i + 1;
    }
    true
}

/// Adds `c` at the end of `changeset`.
pub fn push_change(changeset: &mut Vec<Change>, c: Change)
    ensures
        changes_view(final(changeset)@) == changes_view(old(changeset)@).push(c@),
{
    let ghost before = changeset@;
    changeset.push(c);
    assert(changes_view(changeset@) =~= changes_view(before).push(c@));
}

impl RenameFile {
    pub fn new(from: FsPath, to: FsPath) -> (r: Self)
        ensures
            r.from@ == from@,
            r.to@ == to@,
    {
        RenameFile { from, to }
    }
}

impl ReplaceInFile {
    pub fn new(path: FsPath, from: &str, to: &str) -> (r: Self)
        ensures
            r.path@ == path@,
            r.from@ == from@,
            r.to@ == to@,
    {
        ReplaceInFile { path, from: owned(from), to: owned(to) }
    }
}

impl SetIniEntry {
    pub fn new(path: FsPath, section: &str, key: &str, value: &str) -> (r: Self)
        ensures
            r.path@ == path@,
            r.section@ == section@,
            r.key@ == key@,
            r.value@ == value@,
    {
        SetIniEntry { path, section: owned(section), key: owned(key), value: owned(value) }
    }
}

impl AppendIniEntry {
    pub fn new(path: FsPath, section: &str, key: &str, value: &str) -> (r: Self)
        ensures
            r.path@ == path@,
            r.section@ == section@,
            r.key@ == key@,
            r.value@ == value@,
    {
        AppendIniEntry { path, section: owned(section), key: owned(key), value: owned(value) }
    }
}

/// One whole-file operation on the file system.
#[derive(Debug, Clone, PartialEq, Eq)]
pub enum FileOp {
    /// Move `from` to `to`.
    Rename { from: FsPath, to: FsPath },
    /// Replace the content of `path` (creating the file when absent).
    Write { path: FsPath, content: String },
    /// Replace the content of `to` with that of `from`.
    Copy { from: FsPath, to: FsPath },
}

/// The mathematical value of a file operation.
pub enum FileOpView {
    Rename { from: PathView, to: PathView },
    Write { path: PathView, content: Seq<char> },
    Copy { from: PathView, to: PathView },
}

impl View for FileOp {
    type V = FileOpView;

    open spec fn view(&self) -> FileOpView {
        match self {
            FileOp::Rename { from, to } => FileOpView::Rename { from: from@, to: to@ },
            FileOp::Write { path, content } => FileOpView::Write { path: path@, content: content@ },
            FileOp::Copy { from, to } => FileOpView::Copy { from: from@, to: to@ },
        }
    }
}

/// The views of a sequence of file operations.
pub open spec fn ops_view(v: Seq<FileOp>) -> Seq<FileOpView> {
    v.map_values(|o: FileOp| o@)
}

/// The action that undoes one applied change.
#[derive(Debug, Clone, PartialEq, Eq)]
pub enum Revert {
    /// Undo a rename of `from` to `to` by moving `to` back to `from`.
    ReverseRename { from: FsPath, to: FsPath },
    /// Copy the snapshot `backup` back onto `target`.
    RestoreFromBackup { backup: FsPath, target: FsPath },
}

/// The mathematical value of a revert action.
pub enum RevertView {
    ReverseRename { from: PathView, to: PathView },
    RestoreFromBackup { backup: PathView, target: PathView },
}

impl View for Revert {
    type V = RevertView;

    open spec fn view(&self) -> RevertView {
        match self {
            Revert::ReverseRename { from, to } => RevertView::ReverseRename {
                from: from@,
                to: to@,
            },
            Revert::RestoreFromBackup { backup, target } => RevertView::RestoreFromBackup {
                backup: backup@,
                target: target@,
            },
        }
    }
}

/// The file operation that carries out a revert action.
pub open spec fn revert_op(r: RevertView) -> FileOpView {
    match r {
        RevertView::ReverseRename { from, to } => FileOpView::Rename { from: to, to: from },
        RevertView::RestoreFromBackup { backup, target } => FileOpView::Copy {
            from: backup,
            to: target,
        },
    }
}

impl Revert {
    /// The file operation that carries out this action.
    pub fn op(&self) -> (r: FileOp)
        ensures
            r@ == revert_op(self@),
    {
        match self {
            Revert::ReverseRename { from, to } => FileOp::Rename { from: to.copy(), to: from.copy() },
            Revert::RestoreFromBackup { backup, target } => FileOp::Copy {
                from: backup.copy(),
                to: target.copy(),
            },
        }
    }
}

/// Why a change could not be planned.
#[derive(Debug, Clone, PartialEq, Eq)]
pub enum ChangeError {
    /// The file is not a well-formed INI document.
    Parse,
}

impl ChangeError {
    /// A description for people.
    pub fn message(&self) -> (r: String)
        ensures
            r@ == "file is not a well-formed INI document"@,
    {
        match self {
            ChangeError::Parse => owned("file is not a well-formed INI document"),
        }
    }
}

/// Where the snapshot of a file whose content is `text` is stored.
pub open spec fn backup_path(backup_dir: PathView, text: Seq<char>) -> PathView {
    joined(backup_dir, sha256_hex(text))
}

/// The operation that stores a snapshot of `text` under `backup_dir`.
pub open spec fn snapshot_op(backup_dir: PathView, text: Seq<char>) -> FileOpView {
    FileOpView::Write { path: backup_path(backup_dir, text), content: text }
}

/// The file whose current content a change reads, if any.
pub open spec fn read_target(c: ChangeView) -> Option<PathView> {
    match c {
        ChangeView::RenameFile { .. } => None,
        ChangeView::ReplaceInFile { path, .. } => Some(path),
        ChangeView::SetIniEntry { path, .. } => Some(path),
        ChangeView::AppendIniEntry { path, .. } => Some(path),
    }
}

/// Whether a change is well-formed: the pattern of a replacement is a
/// regular expression. Changes are made by trusted generators, so an
/// ill-formed one is a mistake of its maker, not a condition to recover from.
pub open spec fn is_valid_change(c: ChangeView) -> bool {
    match c {
        ChangeView::ReplaceInFile { pattern, .. } => regex_compiles(pattern),
        _ => true,
    }
}

/// Whether every change of a changeset is well-formed.
pub open spec fn all_valid(v: Seq<ChangeView>) -> bool {
    forall|i: int| 0 <= i < v.len() ==> is_valid_change(#[trigger] v[i])
}

/// Whether a change, given the current content `text` of the file it reads,
/// can be carried out.
pub open spec fn can_apply(c: ChangeView, text: Seq<char>) -> bool {
    match c {
        ChangeView::RenameFile { .. } => true,
        ChangeView::ReplaceInFile { .. } => true,
        ChangeView::SetIniEntry { .. } => ini_parses(text),
        ChangeView::AppendIniEntry { .. } => ini_parses(text),
    }
}

/// Whether `content` is the text of a document whose values are `values`.
pub open spec fn written_doc(
    content: Seq<char>,
    values: Map<(Option<Seq<char>>, Seq<char>), Seq<Seq<char>>>,
) -> bool {
    exists|d: ini::Ini| ini_values(d) == values && #[trigger] ini_text_of(d) == content
}

/// What applying a change produces: the operations to perform, in order, and
/// the action that undoes them.
pub struct Applied {
    pub ops: Vec<FileOp>,
    pub revert: Revert,
}

/// Whether `ops` and `revert` carry out the change `c` on a file whose
/// content is `text`, with snapshots under `backup_dir`.
pub open spec fn plans(
    c: ChangeView,
    backup_dir: PathView,
    text: Seq<char>,
    ops: Seq<FileOpView>,
    revert: RevertView,
) -> bool {
    match c {
        ChangeView::RenameFile { from, to } => {
            &&& ops == seq![FileOpView::Rename { from, to }]
            &&& revert == RevertView::ReverseRename { from, to }
        },
        ChangeView::ReplaceInFile { path, pattern, replacement } => {
            &&& ops == seq![
                snapshot_op(backup_dir, text),
                FileOpView::Write { path, content: regex_replaced(pattern, replacement, text) },
            ]
            &&& revert == RevertView::RestoreFromBackup {
                backup: backup_path(backup_dir, text),
                target: path,
            }
        },
        ChangeView::SetIniEntry { path, section, key, value } => {
            &&& ops.len() == 2
            &&& ops[0] == snapshot_op(backup_dir, text)
            &&& ops[1] is Write
            &&& ops[1]->Write_path == path
            &&& written_doc(
                ops[1]->Write_content,
                ini_text_values(text).insert((Some(section), key), seq![value]),
            )
            &&& revert == RevertView::RestoreFromBackup {
                backup: backup_path(backup_dir, text),
                target: path,
            }
        },
        ChangeView::AppendIniEntry { path, section, key, value } => {
            &&& ops.len() == 2
            &&& ops[0] == snapshot_op(backup_dir, text)
            &&& ops[1] is Write
            &&& ops[1]->Write_path == path
            &&& written_doc(
                ops[1]->Write_content,
                ini_text_values(text).insert(
                    (Some(section), key),
                    values_of(ini_text_values(text), Some(section), key).push(value),
                ),
            )
            &&& revert == RevertView::RestoreFromBackup {
                backup: backup_path(backup_dir, text),
                target: path,
            }
        },
    }
}

/// The description of a change shown to people.
pub open spec fn description(c: ChangeView) -> Seq<char> {
    match c {
        ChangeView::RenameFile { from, to } => "rename file "@ + text_of(from) + " to "@ + text_of(to),
        ChangeView::ReplaceInFile { path, pattern, replacement } => "replace "@ + pattern + " with "@
            + replacement + " in file "@ + text_of(path),
        ChangeView::SetIniEntry { path, section, key, value } => "set ["@ + section + "] "@ + key
            + " = "@ + value + " in config file "@ + text_of(path),
        ChangeView::AppendIniEntry { path, section, key, value } => "append ["@ + section + "] "@
            + key + " = "@ + value + " in config file "@ + text_of(path),
    }
}

impl Change {
    /// The description of this change shown to people.
    pub fn describe(&self) -> (r: String)
        ensures
            r@ == description(self@),
    {
        match self {
            Change::RenameFile(c) => {
                let mut r = cat("rename file ", c.from.to_text().as_str());
                r.append(" to ");
                r.append(c.to.to_text().as_str());
                r
            },
            Change::ReplaceInFile(c) => {
                let mut r = cat5("replace ", c.from.as_str(), " with ", c.to.as_str(), " in file ");
                r.append(c.path.to_text().as_str());
                r
            },
            Change::SetIniEntry(c) => {
                let mut r = cat5("set [", c.section.as_str(), "] ", c.key.as_str(), " = ");
                r.append(c.value.as_str());
                r.append(" in config file ");
                r.append(c.path.to_text().as_str());
                r
            },
            Change::AppendIniEntry(c) => {
                let mut r = cat5("append [", c.section.as_str(), "] ", c.key.as_str(), " = ");
                r.append(c.value.as_str());
                r.append(" in config file ");
                r.append(c.path.to_text().as_str());
                r
            },
        }
    }

    /// Whether this change is well-formed: the pattern of a replacement
    /// compiles.
    pub fn is_valid(&self) -> (r: bool)
        ensures
            r == is_valid_change(self@),
    {
        match self {
            Change::ReplaceInFile(c) => replace_all_matches(c.from.as_str(), "", "").is_some(),
            _ => true,
        }
    }

    /// The file whose current content must be read before the change is
    /// applied; a rename reads none.
    pub fn file_to_read(&self) -> (r: Option<FsPath>)
        ensures
            r is None <==> read_target(self@) is None,
            r is Some ==> r->Some_0@ == read_target(self@)->Some_0,
    {
        match self {
            Change::RenameFile(_) => None,
            Change::ReplaceInFile(c) => Some(c.path.copy()),
            Change::SetIniEntry(c) => Some(c.path.copy()),
            Change::AppendIniEntry(c) => Some(c.path.copy()),
        }
    }

    /// Plans this change against the current content `text` of the file it
    /// reads (ignored for a rename): a snapshot of that content under
    /// `backup_dir`, then the mutation; or a rename.
    pub fn apply(&self, backup_dir: &FsPath, text: &str) -> (r: Result<Applied, ChangeError>)
        requires
            is_valid_change(self@),
        ensures
            r is Ok <==> can_apply(self@, text@),
            r is Ok ==> plans(self@, backup_dir@, text@, ops_view(r->Ok_0.ops@), r->Ok_0.revert@),
    {
        match self {
            Change::RenameFile(c) => Change::rename_file(c),
            Change::ReplaceInFile(c) => Change::replace_in_file(c, backup_dir, text),
            Change::SetIniEntry(c) => Change::set_ini_entry(c, backup_dir, text),
            Change::AppendIniEntry(c) => Change::append_ini_entry(c, backup_dir, text),
        }
    }

    /// Plans this change as `apply` does when it is well-formed; `None`,
    /// planning nothing, when it is not.
    pub fn try_apply(&self, backup_dir: &FsPath, text: &str) -> (r: Option<Result<Applied, ChangeError>>)
        ensures
            r is None <==> !is_valid_change(self@),
            r matches Some(a) ==> {
                &&& (a is Ok <==> can_apply(self@, text@))
                &&& (a is Ok ==> plans(self@, backup_dir@, text@, ops_view(a->Ok_0.ops@), a->Ok_0.revert@))
            },
    {
        if self.is_valid() {
            Some(self.apply(backup_dir, text))
        } else {
            None
        }
    }

    fn rename_file(c: &RenameFile) -> (r: Result<Applied, ChangeError>)
        ensures
            r is Ok,
            plans(
                Change::RenameFile(*c)@,
                PathView { rooted: false, parts: Seq::empty() },
                Seq::empty(),
                ops_view(r->Ok_0.ops@),
                r->Ok_0.revert@,
            ),
    {
        let ops = vec![FileOp::Rename { from: c.from.copy(), to: c.to.copy() }];
        let revert = Revert::ReverseRename { from: c.from.copy(), to: c.to.copy() };
        assert(ops_view(ops@) =~= seq![FileOpView::Rename { from: c.from@, to: c.to@ }]);
        Ok(Applied { ops, revert })
    }

    fn replace_in_file(c: &ReplaceInFile, backup_dir: &FsPath, text: &str) -> (r: Result<
        Applied,
        ChangeError,
    >)
        requires
            regex_compiles(c.from@),
        ensures
            r is Ok,
            plans(
                Change::ReplaceInFile(*c)@,
                backup_dir@,
                text@,
                ops_view(r->Ok_0.ops@),
                r->Ok_0.revert@,
            ),
    {
        let replaced = match replace_all_matches(c.from.as_str(), c.to.as_str(), text) {
            Some(t) => t,
            None => {
                proof {
                    assert(false);
                }
                String::new()
            },
        };
        let backup = backup_file_path(backup_dir, text);
        let ops = vec![
            FileOp::Write { path: backup.copy(), content: owned(text) },
            FileOp::Write { path: c.path.copy(), content: replaced },
        ];
        let revert = Revert::RestoreFromBackup { backup, target: c.path.copy() };
        assert(ops_view(ops@) =~= seq![ops@[0]@, ops@[1]@]);
        Ok(Applied { ops, revert })
    }

    fn set_ini_entry(c: &SetIniEntry, backup_dir: &FsPath, text: &str) -> (r: Result<
        Applied,
        ChangeError,
    >)
        ensures
            r is Ok <==> ini_parses(text@),
            r matches Err(e) ==> e is Parse,
            r is Ok ==> plans(
                Change::SetIniEntry(*c)@,
                backup_dir@,
                text@,
                ops_view(r->Ok_0.ops@),
                r->Ok_0.revert@,
            ),
    {
        let mut doc = match parse_ini(text) {
            Ok(d) => d,
            Err(_) => return Err(ChangeError::Parse),
        };
        set_ini_entry_in(&mut doc, c.section.as_str(), c.key.as_str(), c.value.as_str());
        let content = ini_to_text(&doc);
        assert(ini_values(doc) == ini_text_values(text@).insert((Some(c.section@), c.key@), seq![c.value@]) && ini_text_of(doc) == content@);
        Change::write_with_backup(&c.path, backup_dir, text, content)
    }

    fn append_ini_entry(c: &AppendIniEntry, backup_dir: &FsPath, text: &str) -> (r: Result<
        Applied,
        ChangeError,
    >)
        ensures
            r is Ok <==> ini_parses(text@),
            r matches Err(e) ==> e is Parse,
            r is Ok ==> plans(
                Change::AppendIniEntry(*c)@,
                backup_dir@,
                text@,
                ops_view(r->Ok_0.ops@),
                r->Ok_0.revert@,
            ),
    {
        let mut doc = match parse_ini(text) {
            Ok(d) => d,
            Err(_) => return Err(ChangeError::Parse),
        };
        append_ini_entry_in(&mut doc, c.section.as_str(), c.key.as_str(), c.value.as_str());
        let content = ini_to_text(&doc);
        assert(ini_text_of(doc) == content@);
        Change::write_with_backup(&c.path, backup_dir, text, content)
    }

    /// A snapshot of `text`, then `content` written to `path`.
    fn write_with_backup(path: &FsPath, backup_dir: &FsPath, text: &str, content: String) -> (r:
        Result<Applied, ChangeError>)
        ensures
            r is Ok,
            ops_view(r->Ok_0.ops@) == seq![
                snapshot_op(backup_dir@, text@),
                FileOpView::Write { path: path@, content: content@ },
            ],
            r->Ok_0.revert@ == (RevertView::RestoreFromBackup {
                backup: backup_path(backup_dir@, text@),
                target: path@,
            }),
    {
        let backup = backup_file_path(backup_dir, text);
        let ops = vec![
            FileOp::Write { path: backup.copy(), content: owned(text) },
            FileOp::Write { path: path.copy(), content },
        ];
        let revert = Revert::RestoreFromBackup { backup, target: path.copy() };
        assert(ops_view(ops@) =~= seq![ops@[0]@, ops@[1]@]);
        Ok(Applied { ops, revert })
    }
}

/// Where the snapshot of a file whose content is `text` is stored: the file
/// in `backup_dir` named by the SHA-256 hex digest of the content.
pub fn backup_file_path(backup_dir: &FsPath, text: &str) -> (r: FsPath)
    ensures
        r@ == backup_path(backup_dir@, text@),
        r@.rooted == backup_dir@.rooted,
        r@.parts == backup_dir@.parts.push(sha256_hex(text@)),
        sha256_hex(text@).len() == 64,
        forall|i: int| 0 <= i < 64 ==> is_hex_digit(#[trigger] sha256_hex(text@)[i]),
{
    let digest = sha256_hex_of(text);
    proof {
        assert forall|i: int| 0 <= i < digest@.len() implies !is_sep(#[trigger] digest@[i]) by {
            assert(is_hex_digit(digest@[i]));
        }
        lemma_components_plain(digest@);
    }
    backup_dir.join(digest.as_str())
}

/// The operation that stores a snapshot of `text` under `backup_dir`.
pub fn snapshot(backup_dir: &FsPath, text: &str) -> (r: FileOp)
    ensures
        r@ == snapshot_op(backup_dir@, text@),
        r is Write,
        r->Write_path@.parts == backup_dir@.parts.push(sha256_hex(text@)),
        sha256_hex(text@).len() == 64,
        forall|i: int| 0 <= i < 64 ==> is_hex_digit(#[trigger] sha256_hex(text@)[i]),
{
    FileOp::Write { path: backup_file_path(backup_dir, text), content: owned(text) }
}

} // verus!
