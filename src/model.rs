//! A model of the file system as a map from paths to file contents, the
//! effect of each file operation on it, and the laws that applying and
//! reverting changes obey there.
use crate::changes::{backup_path, plans, revert_op, snapshot_op, ChangeView, FileOpView, RevertView};
use crate::path::PathView;
use crate::pattern::regex_replaced;
use vstd::prelude::*;

verus! {

/// The files of a project tree and their contents.
pub type Disk = Map<PathView, Seq<char>>;

/// The disk after one operation, or `None` when the operation fails
/// because the file it reads does not exist.
pub open spec fn run_op(d: Disk, op: FileOpView) -> Option<Disk> {
    match op {
        FileOpView::Write { path, content } => Some(d.insert(path, content)),
        FileOpView::Copy { from, to } => if d.contains_key(from) {
            Some(d.insert(to, d[from]))
        } else {
            None
        },
        FileOpView::Rename { from, to } => if d.contains_key(from) {
            Some(d.remove(from).insert(to, d[from]))
        } else {
            None
        },
    }
}

/// The disk after a sequence of operations, stopping at the first failure.
pub open spec fn run_ops(d: Disk, ops: Seq<FileOpView>) -> Option<Disk>
    decreases ops.len(),
{
    if ops.len() == 0 {
        Some(d)
    } else {
        match run_op(d, ops[0]) {
            Some(d1) => run_ops(d1, ops.drop_first()),
            None => None,
        }
    }
}

proof fn lemma_run_two(d: Disk, a: FileOpView, b: FileOpView)
    requires
        run_op(d, a) is Some,
    ensures
        run_ops(d, seq![a, b]) == run_op(run_op(d, a)->Some_0, b),
{
    let d1 = run_op(d, a)->Some_0;
    assert(seq![a, b].drop_first() =~= seq![b]);
    assert(seq![b].drop_first() =~= Seq::<FileOpView>::empty());
    match run_op(d1, b) {
        Some(d2) => {
            assert(run_ops(d1, seq![b]) == run_ops(d2, Seq::<FileOpView>::empty()));
        },
        None => {},
    }
}

proof fn lemma_run_one(d: Disk, a: FileOpView)
    ensures
        run_ops(d, seq![a]) == run_op(d, a),
{
    assert(seq![a].drop_first() =~= Seq::<FileOpView>::empty());
    match run_op(d, a) {
        Some(d1) => {
            assert(run_ops(d1, Seq::<FileOpView>::empty()) == Some(d1));
        },
        None => {},
    }
}

/// Replacing text in a file and then reverting restores the file's content
/// exactly, provided the snapshot is not stored at the file's own path.
pub proof fn lemma_replace_round_trip(
    d: Disk,
    path: PathView,
    pattern: Seq<char>,
    replacement: Seq<char>,
    backup_dir: PathView,
    ops: Seq<FileOpView>,
    revert: RevertView,
)
    requires
        d.contains_key(path),
        backup_path(backup_dir, d[path]) != path,
        plans(ChangeView::ReplaceInFile { path, pattern, replacement }, backup_dir, d[path], ops, revert),
    ensures
        run_ops(d, ops) is Some,
        run_op(run_ops(d, ops)->Some_0, revert_op(revert)) is Some,
        run_op(run_ops(d, ops)->Some_0, revert_op(revert))->Some_0[path] == d[path],
{
    assert(ops =~= seq![ops[0], ops[1]]);
    lemma_run_two(d, ops[0], ops[1]);
    let bp = backup_path(backup_dir, d[path]);
    let d1 = d.insert(bp, d[path]);
    let d2 = d1.insert(path, regex_replaced(pattern, replacement, d[path]));
    assert(run_ops(d, ops) == Some(d2));
    assert(d2.contains_key(bp));
    assert(d2[bp] == d[path]);
}

/// Snapshotting the same content twice, from one file or from two, stores
/// one backup file under one name: the second snapshot changes nothing.
pub proof fn lemma_backup_idempotent(d: Disk, backup_dir: PathView, first: Seq<char>, second: Seq<char>)
    requires
        first == second,
    ensures
        backup_path(backup_dir, first) == backup_path(backup_dir, second),
        run_op(d, snapshot_op(backup_dir, first)) is Some,
        run_op(d, snapshot_op(backup_dir, first))->Some_0.dom() == d.dom().insert(
            backup_path(backup_dir, first),
        ),
        run_op(run_op(d, snapshot_op(backup_dir, first))->Some_0, snapshot_op(backup_dir, second))
            == run_op(d, snapshot_op(backup_dir, first)),
{
    let d1 = run_op(d, snapshot_op(backup_dir, first))->Some_0;
    assert(d1.insert(backup_path(backup_dir, second), second) =~= d1);
}

/// A file renamed from `a` to `b` and then edited at `b`: undoing the edit
/// first and the rename second restores the original tree, with the snapshot
/// left beside it; undoing the rename first leaves `b` in place, so the tree
/// differs from the original.
pub proof fn lemma_lifo_revert(
    d: Disk,
    a: PathView,
    b: PathView,
    pattern: Seq<char>,
    replacement: Seq<char>,
    backup_dir: PathView,
    rename_ops: Seq<FileOpView>,
    rename_revert: RevertView,
    replace_ops: Seq<FileOpView>,
    replace_revert: RevertView,
)
    requires
        d.contains_key(a),
        !d.contains_key(b),
        a != b,
        backup_path(backup_dir, d[a]) != a,
        backup_path(backup_dir, d[a]) != b,
        plans(ChangeView::RenameFile { from: a, to: b }, backup_dir, Seq::empty(), rename_ops, rename_revert),
        plans(
            ChangeView::ReplaceInFile { path: b, pattern, replacement },
            backup_dir,
            d[a],
            replace_ops,
            replace_revert,
        ),
    ensures
        run_ops(d, rename_ops) is Some,
        run_ops(d, rename_ops)->Some_0[b] == d[a],
        run_ops(run_ops(d, rename_ops)->Some_0, replace_ops) is Some,
        ({
            let applied = run_ops(run_ops(d, rename_ops)->Some_0, replace_ops)->Some_0;
            &&& run_op(applied, revert_op(replace_revert)) is Some
            &&& run_op(run_op(applied, revert_op(replace_revert))->Some_0, revert_op(rename_revert))
                == Some(d.insert(backup_path(backup_dir, d[a]), d[a]))
            &&& run_op(applied, revert_op(rename_revert)) is Some
            &&& run_op(run_op(applied, revert_op(rename_revert))->Some_0, revert_op(replace_revert))
                is Some
            &&& run_op(run_op(applied, revert_op(rename_revert))->Some_0, revert_op(replace_revert))->Some_0.contains_key(b)
        }),
{
    let bp = backup_path(backup_dir, d[a]);
    lemma_run_one(d, rename_ops[0]);
    assert(rename_ops =~= seq![rename_ops[0]]);
    let d1 = d.remove(a).insert(b, d[a]);
    assert(run_ops(d, rename_ops) == Some(d1));
    lemma_run_two(d1, replace_ops[0], replace_ops[1]);
    assert(replace_ops =~= seq![replace_ops[0], replace_ops[1]]);
    let applied = run_ops(d1, replace_ops)->Some_0;
    let restored = applied.insert(b, applied[bp]);
    let back = restored.remove(b).insert(a, restored[b]);
    assert(back =~= d.insert(bp, d[a]));
}

} // verus!
