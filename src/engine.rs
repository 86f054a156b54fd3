//! The engine: applies a changeset strictly in order, halting at the first
//! failure, and keeps a history of applied changes with their revert actions,
//! which it unwinds last-in first-out.
//!
//! The engine decides; it performs no I/O. Its caller reads the files it
//! names, carries out the file operations it hands out, and reports back.
use crate::changes::{
    all_valid, can_apply, changeset_is_valid, is_valid_change, changes_view, description, ops_view, plans, read_target, revert_op, Change,
    ChangeView, FileOp, Revert, RevertView,
};
use crate::path::{FsPath, PathView};
use vstd::prelude::*;

verus! {

/// Where the engine stands.
#[derive(Debug, Clone, Copy, PartialEq, Eq, Structural)]
pub enum EngineState {
    /// Nothing has been executed yet.
    Idle,
    /// Changes of a changeset remain to be applied.
    Applying,
    /// Every change of the last changeset was applied.
    Applied,
    /// A change, or a revert action, failed.
    Failed,
    /// Applied changes remain to be reverted.
    Reverting,
    /// Every applied change was reverted.
    Reverted,
}

/// Executes changesets and reverts them.
pub struct Engine {
    history: Vec<(Change, Revert)>,
    pending: Vec<Change>,
    backup_dir: FsPath,
    state: EngineState,
    in_flight: Option<Revert>,
    error: Option<String>,
    /// Whether a run of `execute` is under way or ended (applied or
    /// failed) and has not been reverted since.
    in_run: Ghost<bool>,
    /// How many entries the history held when the run started.
    run_start: Ghost<nat>,
    /// The changeset of the run.
    scheduled: Ghost<Seq<ChangeView>>,
}

/// The changes of a history, in the order they were applied.
pub open spec fn history_changes(h: Seq<(ChangeView, RevertView)>) -> Seq<ChangeView> {
    h.map_values(|e: (ChangeView, RevertView)| e.0)
}

impl Engine {
    /// The applied changes with their revert actions, oldest first.
    pub closed spec fn history(&self) -> Seq<(ChangeView, RevertView)> {
        self.history@.map_values(|e: (Change, Revert)| (e.0@, e.1@))
    }

    /// The changes still to be applied, next first.
    pub closed spec fn pending(&self) -> Seq<ChangeView> {
        changes_view(self.pending@)
    }

    /// Where the engine stands.
    pub closed spec fn state_spec(&self) -> EngineState {
        self.state
    }

    /// Where snapshots of the current run are stored.
    pub closed spec fn backup_dir_spec(&self) -> PathView {
        self.backup_dir@
    }

    /// The revert action of the change whose operations are being carried
    /// out, if any.
    pub closed spec fn in_flight(&self) -> Option<RevertView> {
        match self.in_flight {
            Some(r) => Some(r@),
            None => None,
        }
    }

    /// Whether a run of `execute` is under way, or ended and has not been
    /// reverted since.
    pub closed spec fn in_run(&self) -> bool {
        self.in_run@
    }

    /// The changeset of the current run.
    pub closed spec fn scheduled(&self) -> Seq<ChangeView> {
        self.scheduled@
    }

    /// The changes that the current run has applied, in order.
    pub closed spec fn run_applied(&self) -> Seq<ChangeView> {
        history_changes(self.history()).skip(self.run_start@ as int)
    }

    /// The state is coherent: changes remain while applying, history
    /// remains while reverting, and during a run the changes applied so far
    /// followed by those still pending make up its changeset.
    pub closed spec fn wf(&self) -> bool {
        &&& (self.state == EngineState::Applying ==> self.pending@.len() > 0)
        &&& all_valid(self.pending())
        &&& (self.in_flight is Some ==> self.state == EngineState::Applying)
        &&& (self.state == EngineState::Reverting ==> self.history@.len() > 0)
        &&& (self.in_run@ ==> {
            &&& self.run_start@ <= self.history@.len()
            &&& self.run_applied() + self.pending() == self.scheduled@
            &&& (self.state == EngineState::Applying || self.state == EngineState::Applied
                || self.state == EngineState::Failed)
            &&& (self.state == EngineState::Failed ==> self.pending@.len() > 0)
        })
    }

    /// An engine with an empty history.
    pub fn new() -> (r: Engine)
        ensures
            r.wf(),
            r.state_spec() == EngineState::Idle,
            r.history() == Seq::<(ChangeView, RevertView)>::empty(),
            r.pending() == Seq::<ChangeView>::empty(),
            r.in_flight() is None,
    {
        let r = Engine {
            history: Vec::new(),
            pending: Vec::new(),
            backup_dir: FsPath::new(""),
            state: EngineState::Idle,
            in_flight: None,
            error: None,
            in_run: Ghost(false),
            run_start: Ghost(0),
            scheduled: Ghost(Seq::empty()),
        };
        assert(r.history() =~= Seq::<(ChangeView, RevertView)>::empty());
        assert(r.pending() =~= Seq::<ChangeView>::empty());
        r
    }

    /// Where the engine stands.
    pub fn state(&self) -> (r: EngineState)
        ensures
            r == self.state_spec(),
    {
        self.state
    }

    /// How many changes are still pending; after a failed run, the failed
    /// change and those after it.
    pub fn pending_len(&self) -> (r: usize)
        ensures
            r == self.pending().len(),
    {
        self.pending.len()
    }

    /// How many applied changes the history holds.
    pub fn history_len(&self) -> (r: usize)
        ensures
            r == self.history().len(),
    {
        self.history.len()
    }

    /// The message of the last failure, if any.
    pub closed spec fn error_spec(&self) -> Option<Seq<char>> {
        match self.error {
            Some(e) => Some(e@),
            None => None,
        }
    }

    /// The message of the last failure, if any.
    pub fn error(&self) -> (r: Option<String>)
        ensures
            r is None <==> self.error_spec() is None,
            r is Some ==> self.error_spec() == Some(r->Some_0@),
    {
        match &self.error {
            Some(e) => Some(e.clone()),
            None => None,
        }
    }

    /// The description of the next change to apply; after a failed run,
    /// of the change that failed.
    pub fn describe_next(&self) -> (r: String)
        requires
            self.wf(),
            self.pending().len() > 0,
        ensures
            r@ == description(self.pending()[0]),
    {
        self.pending[0].describe()
    }

    /// The description of the newest change still in the history.
    pub fn describe_last(&self) -> (r: String)
        requires
            self.wf(),
            self.state_spec() == EngineState::Reverting,
        ensures
            r@ == description(self.history().last().0),
    {
        self.history[self.history.len() - 1].0.describe()
    }

    /// Starts executing `changeset`, in order, with snapshots stored under
    /// `backup_dir`. The history of earlier runs is kept.
    pub fn execute(&mut self, changeset: Vec<Change>, backup_dir: FsPath)
        requires
            old(self).wf(),
            old(self).state_spec() == EngineState::Idle || old(self).state_spec()
                == EngineState::Applied,
            all_valid(changes_view(changeset@)),
        ensures
            final(self).wf(),
            final(self).history() == old(self).history(),
            final(self).pending() == changes_view(changeset@),
            final(self).backup_dir_spec() == backup_dir@,
            final(self).in_flight() is None,
            final(self).state_spec() == (if changeset@.len() == 0 {
                EngineState::Applied
            } else {
                EngineState::Applying
            }),
            final(self).in_run(),
            final(self).scheduled() == changes_view(changeset@),
            final(self).run_applied() == Seq::<ChangeView>::empty(),
    {
        let ghost scheduled = changes_view(changeset@);
        self.state = if changeset.len() == 0 {
            EngineState::Applied
        } else {
            EngineState::Applying
        };
        self.pending = changeset;
        self.backup_dir = backup_dir;
        self.in_flight = None;
        self.in_run = Ghost(true);
        self.run_start = Ghost(self.history@.len());
        self.scheduled = Ghost(scheduled);
        assert(self.run_applied() =~= Seq::<ChangeView>::empty());
        assert(self.run_applied() + self.pending() =~= scheduled);
    }

    /// Starts executing `changeset` as `execute` does when every change of it
    /// is well-formed, and says so; otherwise leaves the engine as it is and
    /// returns false.
    pub fn try_execute(&mut self, changeset: Vec<Change>, backup_dir: FsPath) -> (r: bool)
        requires
            old(self).wf(),
            old(self).state_spec() == EngineState::Idle || old(self).state_spec()
                == EngineState::Applied,
        ensures
            final(self).wf(),
            r == all_valid(changes_view(changeset@)),
            final(self).history() == old(self).history(),
            !r ==> final(self).pending() == old(self).pending() && final(self).state_spec()
                == old(self).state_spec(),
            r ==> {
                &&& final(self).pending() == changes_view(changeset@)
                &&& final(self).backup_dir_spec() == backup_dir@
                &&& final(self).in_flight() is None
                &&& final(self).state_spec() == (if changeset@.len() == 0 {
                    EngineState::Applied
                } else {
                    EngineState::Applying
                })
                &&& final(self).in_run()
                &&& final(self).scheduled() == changes_view(changeset@)
                &&& final(self).run_applied() == Seq::<ChangeView>::empty()
            },
    {
        if changeset_is_valid(&changeset) {
            self.execute(changeset, backup_dir);
            true
        } else {
            false
        }
    }

    /// The file whose content must be read before the next change is
    /// planned; a rename reads none.
    pub fn next_read(&self) -> (r: Option<FsPath>)
        requires
            self.wf(),
            self.state_spec() == EngineState::Applying,
        ensures
            r is None <==> read_target(self.pending()[0]) is None,
            r is Some ==> r->Some_0@ == read_target(self.pending()[0])->Some_0,
    {
        self.pending[0].file_to_read()
    }

    /// Plans the next change against the current content `text` of the file
    /// it reads, and hands out the operations that carry it out. When it
    /// cannot be planned, execution halts: the engine fails, and neither that
    /// change nor any after it is applied.
    pub fn plan_next(&mut self, text: &str) -> (r: Result<Vec<FileOp>, String>)
        requires
            old(self).wf(),
            old(self).state_spec() == EngineState::Applying,
            old(self).in_flight() is None,
        ensures
            final(self).wf(),
            final(self).history() == old(self).history(),
            final(self).pending() == old(self).pending(),
            final(self).backup_dir_spec() == old(self).backup_dir_spec(),
            r is Ok <==> can_apply(old(self).pending()[0], text@),
            r is Ok ==> {
                &&& final(self).state_spec() == EngineState::Applying
                &&& final(self).in_flight() is Some
                &&& plans(
                    old(self).pending()[0],
                    old(self).backup_dir_spec(),
                    text@,
                    ops_view(r->Ok_0@),
                    final(self).in_flight()->Some_0,
                )
            },
            r is Err ==> final(self).state_spec() == EngineState::Failed && final(self).in_flight() is None,
            r matches Err(m) ==> final(self).error_spec() == Some(m@),
            final(self).in_run() == old(self).in_run(),
            final(self).scheduled() == old(self).scheduled(),
            final(self).run_applied() == old(self).run_applied(),
    {
        assert(self.pending()[0] == self.pending@[0]@);
        assert(is_valid_change(self.pending()[0]));
        match self.pending[0].apply(&self.backup_dir, text) {
            Ok(applied) => {
                self.in_flight = Some(applied.revert);
                Ok(applied.ops)
            },
            Err(e) => {
                let msg = e.message();
                self.state = EngineState::Failed;
                self.error = Some(msg.clone());
                Err(msg)
            },
        }
    }

    /// Records that the file the next change reads could not be read:
    /// execution halts, and neither that change nor any after it is applied.
    pub fn fail_next(&mut self, message: String)
        requires
            old(self).wf(),
            old(self).state_spec() == EngineState::Applying,
            old(self).in_flight() is None,
        ensures
            final(self).wf(),
            final(self).history() == old(self).history(),
            final(self).pending() == old(self).pending(),
            final(self).in_flight() is None,
            final(self).state_spec() == EngineState::Failed,
            final(self).error_spec() == Some(message@),
            final(self).in_run() == old(self).in_run(),
            final(self).scheduled() == old(self).scheduled(),
            final(self).run_applied() == old(self).run_applied(),
    {
        self.state = EngineState::Failed;
        self.error = Some(message);
    }

    /// Records the outcome of carrying out the operations of the planned
    /// change. On success the change and its revert action join the history;
    /// on failure execution halts, and neither that change nor any after it
    /// joins the history.
    pub fn finish_next(&mut self, outcome: Result<(), String>)
        requires
            old(self).wf(),
            old(self).state_spec() == EngineState::Applying,
            old(self).in_flight() is Some,
        ensures
            final(self).wf(),
            final(self).in_flight() is None,
            final(self).backup_dir_spec() == old(self).backup_dir_spec(),
            outcome is Ok ==> {
                &&& final(self).history() == old(self).history().push(
                    (old(self).pending()[0], old(self).in_flight()->Some_0),
                )
                &&& final(self).pending() == old(self).pending().drop_first()
                &&& final(self).state_spec() == (if old(self).pending().len() == 1 {
                    EngineState::Applied
                } else {
                    EngineState::Applying
                })
            },
            outcome is Err ==> {
                &&& final(self).history() == old(self).history()
                &&& final(self).pending() == old(self).pending()
                &&& final(self).state_spec() == EngineState::Failed
                &&& final(self).error_spec() == Some(outcome->Err_0@)
            },
            final(self).in_run() == old(self).in_run(),
            final(self).scheduled() == old(self).scheduled(),
            outcome is Ok && old(self).in_run() ==> final(self).run_applied() == old(
                self,
            ).run_applied().push(old(self).pending()[0]),
            outcome is Err ==> final(self).run_applied() == old(self).run_applied(),
    {
        let revert = match self.in_flight.take() {
            Some(r) => r,
            None => {
                return;
            },
        };
        match outcome {
            Ok(()) => {
                let ghost history0 = self.history@;
                let ghost pending0 = self.pending@;
                let change = self.pending.remove(0);
                self.history.push((change, revert));
                proof {
                    assert(self.history() =~= self.history().take(history0.len() as int).push(
                        (change@, revert@),
                    ));
                    assert(self.history().take(history0.len() as int) =~= history0.map_values(
                        |e: (Change, Revert)| (e.0@, e.1@),
                    ));
                    assert(self.pending() =~= changes_view(pending0).drop_first());
                    if self.in_run@ {
                        let changes0 = history_changes(history0.map_values(|e: (Change, Revert)| (e.0@, e.1@)));
                        assert(history_changes(self.history()) =~= changes0.push(change@));
                        assert(history_changes(self.history()).skip(self.run_start@ as int)
                            =~= changes0.skip(self.run_start@ as int).push(change@));
                        assert(changes_view(pending0) =~= seq![change@] + changes_view(pending0).drop_first());
                        assert(self.run_applied() + self.pending() =~= changes0.skip(
                            self.run_start@ as int,
                        ) + changes_view(pending0));
                        assert(changes_view(pending0)[0] == change@);
                    }
                }
                if self.pending.len() == 0 {
                    self.state = EngineState::Applied;
                }
            },
            Err(msg) => {
                self.state = EngineState::Failed;
                self.error = Some(msg);
            },
        }
    }

    /// Starts reverting the history, newest change first.
    pub fn revert(&mut self)
        requires
            old(self).wf(),
            old(self).state_spec() == EngineState::Failed || old(self).state_spec()
                == EngineState::Applied,
        ensures
            final(self).wf(),
            final(self).history() == old(self).history(),
            final(self).pending() == old(self).pending(),
            final(self).in_flight() is None,
            final(self).state_spec() == (if old(self).history().len() == 0 {
                EngineState::Reverted
            } else {
                EngineState::Reverting
            }),
    {
        self.in_run = Ghost(false);
        if self.history.len() == 0 {
            self.state = EngineState::Reverted;
        } else {
            self.state = EngineState::Reverting;
        }
    }

    /// The operation that undoes the newest change still in the history.
    pub fn next_revert(&self) -> (r: FileOp)
        requires
            self.wf(),
            self.state_spec() == EngineState::Reverting,
        ensures
            r@ == revert_op(self.history().last().1),
    {
        self.history[self.history.len() - 1].1.op()
    }

    /// Records the outcome of the operation handed out by `next_revert`. On
    /// success that change leaves the history; on failure reverting stops and
    /// the rest of the history stays as it is.
    pub fn finish_revert(&mut self, outcome: Result<(), String>)
        requires
            old(self).wf(),
            old(self).state_spec() == EngineState::Reverting,
        ensures
            final(self).wf(),
            final(self).pending() == old(self).pending(),
            final(self).in_flight() is None,
            outcome is Ok ==> {
                &&& final(self).history() == old(self).history().drop_last()
                &&& final(self).state_spec() == (if old(self).history().len() == 1 {
                    EngineState::Reverted
                } else {
                    EngineState::Reverting
                })
            },
            outcome matches Err(m) ==> {
                &&& final(self).history() == old(self).history().drop_last()
                &&& final(self).state_spec() == EngineState::Failed
                &&& final(self).error_spec() == Some(m@)
            },
            outcome is Ok ==> final(self).error_spec() == old(self).error_spec(),
    {
        let ghost history0 = self.history@;
        self.history.pop();
        assert(self.history() =~= history0.map_values(|e: (Change, Revert)| (e.0@, e.1@)).drop_last());
        match outcome {
            Ok(()) => {
                if self.history.len() == 0 {
                    self.state = EngineState::Reverted;
                }
            },
            Err(msg) => {
                self.state = EngineState::Failed;
                self.error = Some(msg);
            },
        }
    }
}

/// Halting at the first failure: when a run of `execute` has failed, the
/// changes it applied are exactly those of its changeset before the failing
/// one, in order, and the failing change and every later one are still
/// pending, none of them applied.
pub proof fn lemma_halt_on_failure(e: &Engine)
    requires
        e.wf(),
        e.in_run(),
        e.state_spec() == EngineState::Failed,
    ensures
        e.run_applied().len() < e.scheduled().len(),
        e.run_applied() == e.scheduled().take(e.run_applied().len() as int),
        e.pending() == e.scheduled().skip(e.run_applied().len() as int),
{
    let k = e.run_applied().len() as int;
    assert(e.scheduled().take(k) =~= e.run_applied());
    assert(e.scheduled().skip(k) =~= e.pending());
}

} // verus!
