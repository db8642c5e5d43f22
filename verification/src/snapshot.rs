//! Snapshots of the workspace's files.
//!
//! A snapshot is anchored to a reply in the history, so that going back to that
//! reply can bring the files back. Nothing that goes wrong with a snapshot keeps
//! the session from going on.
use crate::model::{empty_list, push_item, Dup};
use vstd::prelude::*;

verus! {

/// The files of the workspace at one moment.
#[derive(Debug)]
pub struct SnapshotTree {
    /// Names the state of all files.
    pub tree_hash: String,
    /// The files that changed since the snapshot before.
    pub files: Vec<String>,
}

/// The mathematical value of a [`SnapshotTree`].
#[verifier::ext_equal]
pub struct SnapshotTreeView {
    pub tree_hash: Seq<char>,
    pub files: Seq<Seq<char>>,
}

impl View for SnapshotTree {
    type V = SnapshotTreeView;

    open spec fn view(&self) -> SnapshotTreeView {
        SnapshotTreeView {
            tree_hash: self.tree_hash@,
            files: self.files.deep_view(),
        }
    }
}

impl DeepView for SnapshotTree {
    type V = SnapshotTreeView;

    open spec fn deep_view(&self) -> SnapshotTreeView {
        self@
    }
}

impl Dup for SnapshotTree {
    fn dup(&self) -> (res: Self) {
        SnapshotTree {
            tree_hash: self.tree_hash.dup(),
            files: self.files.dup(),
        }
    }
}

/// A snapshot on record.
#[derive(Debug)]
pub struct SnapshotRow {
    /// The reply it is anchored to.
    pub msg_seq: i64,
    pub tree: SnapshotTree,
}

/// The mathematical value of a [`SnapshotRow`].
#[verifier::ext_equal]
pub struct SnapshotRowView {
    pub msg_seq: i64,
    pub tree: SnapshotTreeView,
}

impl View for SnapshotRow {
    type V = SnapshotRowView;

    open spec fn view(&self) -> SnapshotRowView {
        SnapshotRowView {
            msg_seq: self.msg_seq,
            tree: self.tree@,
        }
    }
}

impl DeepView for SnapshotRow {
    type V = SnapshotRowView;

    open spec fn deep_view(&self) -> SnapshotRowView {
        self@
    }
}

impl Dup for SnapshotRow {
    fn dup(&self) -> (res: Self) {
        SnapshotRow {
            msg_seq: self.msg_seq,
            tree: self.tree.dup(),
        }
    }
}

/// What is told of a snapshot.
#[derive(Debug)]
pub enum SnapshotEvent {
    /// The state that the session's last snapshot names; `None` for the first.
    Previous(Option<String>),
    /// The state of the files; `None` where snapshots have been switched off meanwhile.
    Recorded(Option<SnapshotTree>),
    /// The last step failed.
    Failed,
}

/// The mathematical value of a [`SnapshotEvent`].
#[verifier::ext_equal]
pub enum SnapshotEventView {
    Previous(Option<Seq<char>>),
    Recorded(Option<SnapshotTreeView>),
    Failed,
}

impl View for SnapshotEvent {
    type V = SnapshotEventView;

    open spec fn view(&self) -> SnapshotEventView {
        match self {
            SnapshotEvent::Previous(x) => SnapshotEventView::Previous(x.deep_view()),
            SnapshotEvent::Recorded(x) => SnapshotEventView::Recorded(x.deep_view()),
            SnapshotEvent::Failed => SnapshotEventView::Failed,
        }
    }
}

impl DeepView for SnapshotEvent {
    type V = SnapshotEventView;

    open spec fn deep_view(&self) -> SnapshotEventView {
        self@
    }
}

impl Dup for SnapshotEvent {
    fn dup(&self) -> (res: Self) {
        match self {
            SnapshotEvent::Previous(x) => SnapshotEvent::Previous(x.dup()),
            SnapshotEvent::Recorded(x) => SnapshotEvent::Recorded(x.dup()),
            SnapshotEvent::Failed => SnapshotEvent::Failed,
        }
    }
}

/// What a snapshot asks for.
#[derive(Debug)]
pub enum SnapshotAction {
    /// Look up the state that the session's last snapshot names.
    FindPrevious,
    /// Record the files, and what changed since this state.
    Track(Option<String>),
    /// Put a snapshot on record.
    Insert(SnapshotRow),
}

/// The mathematical value of a [`SnapshotAction`].
#[verifier::ext_equal]
pub enum SnapshotActionView {
    FindPrevious,
    Track(Option<Seq<char>>),
    Insert(SnapshotRowView),
}

impl View for SnapshotAction {
    type V = SnapshotActionView;

    open spec fn view(&self) -> SnapshotActionView {
        match self {
            SnapshotAction::FindPrevious => SnapshotActionView::FindPrevious,
            SnapshotAction::Track(x) => SnapshotActionView::Track(x.deep_view()),
            SnapshotAction::Insert(x) => SnapshotActionView::Insert(x@),
        }
    }
}

impl DeepView for SnapshotAction {
    type V = SnapshotActionView;

    open spec fn deep_view(&self) -> SnapshotActionView {
        self@
    }
}

impl Dup for SnapshotAction {
    fn dup(&self) -> (res: Self) {
        match self {
            SnapshotAction::FindPrevious => SnapshotAction::FindPrevious,
            SnapshotAction::Track(x) => SnapshotAction::Track(x.dup()),
            SnapshotAction::Insert(x) => SnapshotAction::Insert(x.dup()),
        }
    }
}
/// Where a snapshot stands.
#[derive(Clone, Copy, Debug, PartialEq, Eq, Structural)]
pub enum SnapshotStage {
    /// The snapshot before it is being looked up.
    Finding,
    /// The files are being recorded.
    Tracking,
    /// It is over.
    Over,
}

/// A snapshot that is being taken.
#[derive(Clone, Copy, Debug)]
pub struct SnapshotRun {
    pub msg_seq: i64,
    pub stage: SnapshotStage,
}

/// What a snapshot comes to, given what happened. A step that fails ends it.
pub open spec fn snapshot_step(s: SnapshotRun, e: SnapshotEventView) -> (
    SnapshotRun,
    Seq<SnapshotActionView>,
) {
    let over = SnapshotRun { stage: SnapshotStage::Over, ..s };
    match (e, s.stage) {
        (SnapshotEventView::Previous(tree), SnapshotStage::Finding) => (
            SnapshotRun { stage: SnapshotStage::Tracking, ..s },
            seq![SnapshotActionView::Track(tree)],
        ),
        (SnapshotEventView::Recorded(Some(tree)), SnapshotStage::Tracking) => (
            over,
            seq![SnapshotActionView::Insert(SnapshotRowView { msg_seq: s.msg_seq, tree })],
        ),
        (SnapshotEventView::Recorded(None), SnapshotStage::Tracking) => (over, Seq::empty()),
        (SnapshotEventView::Failed, _) => (over, Seq::empty()),
        _ => (s, Seq::empty()),
    }
}

impl SnapshotRun {
    /// Begins a snapshot. There is none without a reply to anchor it to, nor where
    /// snapshots are switched off.
    pub fn record_snapshot_row(msg_seq: Option<i64>, enabled: bool) -> (res: Option<
        (SnapshotRun, Vec<SnapshotAction>),
    >)
        ensures
            res is Some <==> msg_seq is Some && enabled,
            res is Some ==> (res->0).0 == (SnapshotRun {
                msg_seq: msg_seq->0,
                stage: SnapshotStage::Finding,
            }) && (res->0).1.deep_view() == seq![SnapshotActionView::FindPrevious],
    {
        match msg_seq {
            Some(msg_seq) if enabled => {
                let mut actions: Vec<SnapshotAction> = empty_list();
                push_item(&mut actions, SnapshotAction::FindPrevious);
                assert(actions.deep_view() =~= seq![SnapshotActionView::FindPrevious]);
                Some((SnapshotRun { msg_seq, stage: SnapshotStage::Finding }, actions))
            },
            _ => None,
        }
    }

    /// Tells what happened. Returns what is asked for.
    pub fn step(&mut self, event: SnapshotEvent) -> (res: Vec<SnapshotAction>)
        ensures
            (*final(self), res.deep_view()) == snapshot_step(*old(self), event@),
    {
        let ghost s = *self;
        let ghost e = event@;
        let mut actions: Vec<SnapshotAction> = empty_list();
        match event {
            SnapshotEvent::Previous(tree) => {
                if let SnapshotStage::Finding = self.stage {
                    self.stage = SnapshotStage::Tracking;
                    push_item(&mut actions, SnapshotAction::Track(tree));
                }
            },
            SnapshotEvent::Recorded(tree) => {
                if let SnapshotStage::Tracking = self.stage {
                    self.stage = SnapshotStage::Over;
                    if let Some(tree) = tree {
                        push_item(
                            &mut actions,
                            SnapshotAction::Insert(SnapshotRow { msg_seq: self.msg_seq, tree }),
                        );
                    }
                }
            },
            SnapshotEvent::Failed => {
                self.stage = SnapshotStage::Over;
            },
        }
        assert(actions.deep_view() =~= snapshot_step(s, e).1);
        actions
    }
}

/// A snapshot that is put on record is anchored to the reply it was taken for, and
/// is of the files as they were recorded; a step that fails records nothing, and
/// nothing follows it.
pub proof fn law_snapshots_fail_open(s: SnapshotRun, e: SnapshotEventView)
    ensures
        snapshot_step(s, e).0.msg_seq == s.msg_seq,
        e is Failed ==> snapshot_step(s, e).1.len() == 0 && snapshot_step(s, e).0.stage
            == SnapshotStage::Over,
        s.stage == SnapshotStage::Over ==> snapshot_step(s, e) == (
            s,
            Seq::<SnapshotActionView>::empty(),
        ),
        forall|i: int|
            0 <= i < snapshot_step(s, e).1.len() && (#[trigger] snapshot_step(s, e).1[i]) is Insert
                ==> e is Recorded && e->Recorded_0 is Some && snapshot_step(s, e).1[i]->Insert_0 == (
            SnapshotRowView { msg_seq: s.msg_seq, tree: e->Recorded_0->0 }),
{
}

/// A snapshot records what changed since the one that the session took last, and what is
/// recorded is put on record once, at the place of its reply; unless snapshots have been
/// switched off meanwhile.
pub proof fn law_a_snapshot_from_start_to_end(
    s: SnapshotRun,
    last: Option<Seq<char>>,
    tree: SnapshotTreeView,
)
    requires
        s.stage == SnapshotStage::Finding,
    ensures
        ({
            let (n, asked) = snapshot_step(s, SnapshotEventView::Previous(last));
            let (m, done) = snapshot_step(n, SnapshotEventView::Recorded(Some(tree)));
            let (o, none) = snapshot_step(n, SnapshotEventView::Recorded(None));
            &&& asked.len() == 1
            &&& asked[0] is Track
            &&& asked[0]->Track_0 == last
            &&& done.len() == 1
            &&& done[0] is Insert
            &&& done[0]->Insert_0.msg_seq == s.msg_seq
            &&& done[0]->Insert_0.tree == tree
            &&& none.len() == 0
            &&& m.stage == SnapshotStage::Over
            &&& o.stage == SnapshotStage::Over
        }),
{
}

} // verus!
