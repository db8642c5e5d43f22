//! The two queues of a session, and when what waits in them may be consumed.
//!
//! Entries wait in the guide queue or in the pending queue. Putting one in a
//! queue does nothing else; everything happens when it is consumed. What may be
//! taken, and when, is decided here and nowhere else.
use crate::message::{
    ControlMessage, ControlMessageView, QueueEntry, QueueEntryView, UserMessage, UserMessageMode,
    UserMessageView,
};
use crate::model::{empty_list, lemma_filter, push_item, Dup};
use crate::text::same;
use std::collections::VecDeque;
use vstd::prelude::*;

verus! {

/// Why a turn ended.
#[derive(Clone, Copy, Debug, PartialEq, Eq, Structural)]
pub enum TurnOutcome {
    /// The model gave its final reply and both queues ran empty.
    Completed,
    /// The turn was interrupted, by the user or by a shutdown.
    Interrupted,
    /// The model could not be called.
    Failed,
}

/// The places where entries are consumed.
#[derive(Clone, Copy, Debug, PartialEq, Eq, Structural)]
pub enum ConsumeTiming {
    /// A batch of tools is done, and its results are about to go to the model.
    AfterToolBatch,
    /// The model gave a reply without tool calls.
    FinalReply,
    /// No turn is running.
    Idle,
}

/// What is taken at a timing while consuming is allowed, and what is left of the
/// two queues. After a batch of tools only the guide queue is taken. After a
/// final reply both are, guide before pending. When idle the pending queue is
/// taken only if the guide queue is empty.
pub open spec fn taken<T>(timing: ConsumeTiming, guide: Seq<T>, pending: Seq<T>) -> (
    Seq<T>,
    Seq<T>,
    Seq<T>,
) {
    match timing {
        ConsumeTiming::AfterToolBatch => (guide, Seq::empty(), pending),
        ConsumeTiming::FinalReply => (guide + pending, Seq::empty(), Seq::empty()),
        ConsumeTiming::Idle => if guide.len() > 0 {
            (guide, Seq::empty(), pending)
        } else {
            (pending, Seq::empty(), Seq::empty())
        },
    }
}

/// Takes everything out of the guide queue.
pub fn consume_all_guide<T>(guide: &mut VecDeque<T>) -> (res: Vec<T>)
    ensures
        res@ == old(guide)@,
        final(guide)@ == Seq::<T>::empty(),
{
    let ghost all = guide@;
    let mut res: Vec<T> = Vec::new();
    let mut left: usize = guide.len();
    assert(res@ + guide@ =~= all);
    while left > 0
        invariant
            left == guide@.len(),
            res@ + guide@ == all,
        decreases left,
    {
        let ghost before = guide@;
        match guide.pop_front() {
            Some(entry) => {
                let ghost out = res@;
                res.push(entry);
                assert(out + before =~= res@ + guide@);
            },
            None => {},
        }
        left -= 1;
    }
    assert(guide@ =~= Seq::<T>::empty());
    assert(res@ =~= all);
    res
}

/// Moves everything from the pending queue to the end of the guide queue.
pub fn drain_pending_to_guide<T>(guide: &mut VecDeque<T>, pending: &mut VecDeque<T>)
    ensures
        final(guide)@ == old(guide)@ + old(pending)@,
        final(pending)@ == Seq::<T>::empty(),
{
    let ghost all = guide@ + pending@;
    let mut left: usize = pending.len();
    while left > 0
        invariant
            left == pending@.len(),
            guide@ + pending@ == all,
        decreases left,
    {
        let ghost before = pending@;
        let ghost head = guide@;
        match pending.pop_front() {
            Some(entry) => {
                guide.push_back(entry);
                assert(guide@ + pending@ =~= head + before);
            },
            None => {},
        }
        left -= 1;
    }
    assert(pending@ =~= Seq::<T>::empty());
    assert(guide@ =~= all);
}

/// Whether what waits in the queues may be consumed at all. A turn that was
/// interrupted or failed pauses consumption, and the queues stay as they are until
/// a new entry resumes it.
#[derive(Clone, Copy, Debug)]
pub struct ConsumeGate {
    paused: bool,
}

impl ConsumeGate {
    /// Whether consumption is paused.
    pub closed spec fn is_paused(&self) -> bool {
        self.paused
    }

    /// Nothing is paused.
    pub fn new() -> (res: ConsumeGate)
        ensures
            !res.is_paused(),
    {
        ConsumeGate { paused: false }
    }

    /// Whether consumption is paused.
    pub fn paused(&self) -> (res: bool)
        ensures
            res == self.is_paused(),
    {
        self.paused
    }

    /// A turn has ended: consumption goes on exactly if it was completed.
    pub fn on_turn_end(&mut self, outcome: TurnOutcome)
        ensures
            final(self).is_paused() == (outcome != TurnOutcome::Completed),
    {
        self.paused = !matches!(outcome, TurnOutcome::Completed);
    }

    /// A new entry has come: consumption goes on.
    pub fn resume_on_new_intent(&mut self)
        ensures
            !final(self).is_paused(),
    {
        self.paused = false;
    }

    /// Takes what may be consumed at a timing. While paused, nothing is taken and
    /// the queues are left alone.
    pub fn take<T>(
        &self,
        timing: ConsumeTiming,
        guide: &mut VecDeque<T>,
        pending: &mut VecDeque<T>,
    ) -> (res: Vec<T>)
        ensures
            self.is_paused() ==> res@ == Seq::<T>::empty() && final(guide)@ == old(guide)@
                && final(pending)@ == old(pending)@,
            !self.is_paused() ==> (res@, final(guide)@, final(pending)@) == taken(
                timing,
                old(guide)@,
                old(pending)@,
            ),
    {
        if self.paused {
            return Vec::new();
        }
        match timing {
            ConsumeTiming::AfterToolBatch => consume_all_guide(guide),
            ConsumeTiming::FinalReply => {
                drain_pending_to_guide(guide, pending);
                consume_all_guide(guide)
            },
            ConsumeTiming::Idle => {
                let ghost p = pending@;
                let entries = consume_all_guide(guide);
                if entries.len() == 0 {
                    drain_pending_to_guide(guide, pending);
                    assert(guide@ =~= p);
                    consume_all_guide(guide)
                } else {
                    entries
                }
            },
        }
    }
}

impl Default for ConsumeGate {
    fn default() -> (res: ConsumeGate)
        ensures
            !res.is_paused(),
    {
        ConsumeGate::new()
    }
}

/// Nothing is lost and nothing is made up: what is taken and what is left are
/// together what was there, guide entries before pending ones.
pub proof fn law_taking_conserves_entries<T>(
    timing: ConsumeTiming,
    guide: Seq<T>,
    pending: Seq<T>,
)
    ensures
        ({
            let (out, g, p) = taken(timing, guide, pending);
            out + g + p == guide + pending
        }),
{
    let (out, g, p) = taken(timing, guide, pending);
    assert(out + g + p =~= guide + pending);
}

/// Guide entries never wait where consumption goes on, and pending entries leave exactly
/// where the model has stopped calling tools: after a final reply, or when idle
/// with no guide entry left.
pub proof fn law_when_pending_is_released<T>(
    timing: ConsumeTiming,
    guide: Seq<T>,
    pending: Seq<T>,
)
    ensures
        ({
            let (out, g, p) = taken(timing, guide, pending);
            &&& g.len() == 0
            &&& guide.is_prefix_of(out)
            &&& p == pending || p.len() == 0
            &&& timing == ConsumeTiming::AfterToolBatch ==> p == pending
            &&& timing == ConsumeTiming::FinalReply ==> p.len() == 0
            &&& timing == ConsumeTiming::Idle ==> (p == pending || guide.len() == 0)
        }),
{
    let (out, g, p) = taken(timing, guide, pending);
    assert(guide.is_prefix_of(out));
}

/// An idle session takes something as long as anything waits: an entry that only
/// waits in the pending queue is not forgotten.
pub proof fn law_idle_takes_something<T>(guide: Seq<T>, pending: Seq<T>)
    ensures
        taken(ConsumeTiming::Idle, guide, pending).0.len() == 0 <==> guide.len() == 0
            && pending.len() == 0,
{
}

// ---- putting entries in and taking them back ----

impl QueueEntryView {
    /// The queue that an entry waits in.
    pub open spec fn mode(self) -> UserMessageMode {
        match self {
            QueueEntryView::User(m) => m.payload.mode,
            QueueEntryView::Control(m) => m.payload.mode,
        }
    }

    /// The sender's own name for an entry.
    pub open spec fn client_message_id(self) -> Option<Seq<char>> {
        match self {
            QueueEntryView::User(m) => m.payload.client_message_id,
            QueueEntryView::Control(m) => m.payload.client_message_id,
        }
    }
}

impl QueueEntry {
    /// The queue that an entry waits in.
    pub fn mode(&self) -> (res: UserMessageMode)
        ensures
            res == self@.mode(),
    {
        match self {
            QueueEntry::User(m) => m.payload.mode,
            QueueEntry::Control(m) => m.payload.mode,
        }
    }

    /// Whether an entry goes by a sender's name. One without a name goes by none.
    pub fn goes_by(&self, client_message_id: &str) -> (res: bool)
        ensures
            res == (self@.client_message_id() == Some(client_message_id@)),
    {
        let id = match self {
            QueueEntry::User(m) => &m.payload.client_message_id,
            QueueEntry::Control(m) => &m.payload.client_message_id,
        };
        match id {
            Some(id) => same(id.as_str(), client_message_id),
            None => false,
        }
    }
}

/// Puts an entry at the end of the queue that its mode names. Nothing else
/// happens.
pub fn handle_inbound_item(
    guide: &mut VecDeque<QueueEntry>,
    pending: &mut VecDeque<QueueEntry>,
    entry: QueueEntry,
)
    ensures
        match entry@.mode() {
            UserMessageMode::Guide => final(guide)@ == old(guide)@.push(entry) && final(pending)@
                == old(pending)@,
            UserMessageMode::Pending => final(guide)@ == old(guide)@ && final(pending)@ == old(
                pending,
            )@.push(entry),
        },
{
    match entry.mode() {
        UserMessageMode::Guide => guide.push_back(entry),
        UserMessageMode::Pending => pending.push_back(entry),
    }
}

/// A queue without the entries that go by a name.
pub open spec fn without(queue: Seq<QueueEntry>, client_message_id: Seq<char>) -> Seq<QueueEntry> {
    queue.filter(|e: QueueEntry| e@.client_message_id() != Some(client_message_id))
}

/// Takes the entries that go by a name out of a queue, and says how many they
/// were. The others keep their order.
pub fn retain_out_matching(queue: &mut VecDeque<QueueEntry>, client_message_id: &str) -> (res:
    usize)
    ensures
        final(queue)@ == without(old(queue)@, client_message_id@),
        res == old(queue)@.len() - final(queue)@.len(),
{
    let ghost all = queue@;
    let ghost keep = |e: QueueEntry| e@.client_message_id() != Some(client_message_id@);
    let n: usize = queue.len();
    let mut seen: usize = 0;
    let mut removed: usize = 0;
    proof {
        reveal(Seq::filter);
        assert(all.take(0).filter(keep) =~= Seq::empty());
        assert(all.skip(0) + all.take(0).filter(keep) =~= queue@);
    }
    while seen < n
        invariant
            seen <= n,
            n == all.len(),
            removed <= seen,
            keep == (|e: QueueEntry| e@.client_message_id() != Some(client_message_id@)),
            all.take(seen as int).filter(keep).len() == seen - removed,
            queue@ == all.skip(seen as int) + all.take(seen as int).filter(keep),
        decreases n - seen,
    {
        let ghost kept = all.take(seen as int).filter(keep);
        let ghost before = queue@;
        match queue.pop_front() {
            Some(entry) => {
                assert(entry == all[seen as int]);
                assert(queue@ =~= all.skip(seen + 1) + kept);
                proof {
                    let upto = all.take(seen + 1);
                    assert(upto.drop_last() =~= all.take(seen as int));
                    assert(upto.last() == entry);
                    reveal(Seq::filter);
                    assert(upto.filter(keep) == if keep(entry) {
                        kept.push(entry)
                    } else {
                        kept
                    });
                }
                if entry.goes_by(client_message_id) {
                    removed += 1;
                } else {
                    queue.push_back(entry);
                    assert(queue@ =~= all.skip(seen + 1) + kept.push(entry));
                }
            },
            None => {
                assert(before.len() > 0);
            },
        }
        seen += 1;
    }
    assert(all.take(n as int) =~= all);
    assert(queue@ =~= all.filter(keep));
    removed
}

/// Takes the entries that go by a name out of both queues, and says how many they
/// were. What has been consumed is out of reach.
pub fn remove_queued(
    guide: &mut VecDeque<QueueEntry>,
    pending: &mut VecDeque<QueueEntry>,
    client_message_id: &str,
) -> (res: usize)
    requires
        old(guide)@.len() + old(pending)@.len() <= usize::MAX,
    ensures
        final(guide)@ == without(old(guide)@, client_message_id@),
        final(pending)@ == without(old(pending)@, client_message_id@),
        res == old(guide)@.len() - final(guide)@.len() + old(pending)@.len() - final(pending)@.len(),
{
    let removed_pending: usize = retain_out_matching(pending, client_message_id);
    let removed_guide: usize = retain_out_matching(guide, client_message_id);
    removed_pending + removed_guide
}

/// Once the entries that go by a name are gone, none is left, every other entry is
/// still there, and removing them again removes nothing.
pub proof fn law_removed_entries_are_gone(queue: Seq<QueueEntry>, client_message_id: Seq<char>)
    ensures
        ({
            let left = without(queue, client_message_id);
            &&& forall|i: int|
                0 <= i < left.len() ==> (#[trigger] left[i])@.client_message_id() != Some(
                    client_message_id,
                )
            &&& forall|i: int|
                0 <= i < queue.len() && (#[trigger] queue[i])@.client_message_id() != Some(
                    client_message_id,
                ) ==> left.contains(queue[i])
            &&& without(left, client_message_id) == left
            &&& left.len() <= queue.len()
        }),
{
    let keep = |e: QueueEntry| e@.client_message_id() != Some(client_message_id);
    let left = without(queue, client_message_id);
    lemma_filter(queue, keep);
    lemma_filter(left, keep);
}

// ---- both queues together ----

/// The two queues of a session.
pub struct Queues {
    pub guide: VecDeque<QueueEntry>,
    pub pending: VecDeque<QueueEntry>,
}

/// The mathematical value of [`Queues`].
#[verifier::ext_equal]
pub struct QueuesView {
    pub guide: Seq<QueueEntryView>,
    pub pending: Seq<QueueEntryView>,
}

impl View for Queues {
    type V = QueuesView;

    open spec fn view(&self) -> QueuesView {
        QueuesView { guide: self.guide.deep_view(), pending: self.pending.deep_view() }
    }
}

impl QueuesView {
    /// Both queues are empty.
    pub open spec fn is_empty(self) -> bool {
        self.guide.len() == 0 && self.pending.len() == 0
    }

    /// The queues with an entry at the end of the one that its mode names.
    pub open spec fn put(self, entry: QueueEntryView) -> QueuesView {
        match entry.mode() {
            UserMessageMode::Guide => QueuesView { guide: self.guide.push(entry), ..self },
            UserMessageMode::Pending => QueuesView { pending: self.pending.push(entry), ..self },
        }
    }

    /// What can be taken at a timing.
    pub open spec fn takeable(self, paused: bool, timing: ConsumeTiming) -> Seq<QueueEntryView> {
        if paused {
            Seq::empty()
        } else {
            taken(timing, self.guide, self.pending).0
        }
    }

    /// The queues after what can be taken at a timing has been taken.
    pub open spec fn after_take(self, paused: bool, timing: ConsumeTiming) -> QueuesView {
        if paused {
            self
        } else {
            let (_, guide, pending) = taken(timing, self.guide, self.pending);
            QueuesView { guide, pending }
        }
    }
}

impl Queues {
    /// Two empty queues.
    pub fn new() -> (res: Queues)
        ensures
            res@ == (QueuesView { guide: Seq::empty(), pending: Seq::empty() }),
    {
        let res = Queues { guide: VecDeque::new(), pending: VecDeque::new() };
        assert(res@.guide =~= Seq::empty());
        assert(res@.pending =~= Seq::empty());
        res
    }

    /// Puts an entry at the end of the queue that its mode names.
    pub fn put(&mut self, entry: QueueEntry)
        ensures
            final(self)@ == old(self)@.put(entry@),
    {
        let ghost before = self@;
        handle_inbound_item(&mut self.guide, &mut self.pending, entry);
        assert(self@ =~= before.put(entry@)) by {
            assert(self@.guide =~= before.put(entry@).guide);
            assert(self@.pending =~= before.put(entry@).pending);
        }
    }

    /// Takes what can be taken at a timing.
    pub fn take(&mut self, gate: &ConsumeGate, timing: ConsumeTiming) -> (res: Vec<QueueEntry>)
        ensures
            res.deep_view() == old(self)@.takeable(gate.is_paused(), timing),
            final(self)@ == old(self)@.after_take(gate.is_paused(), timing),
    {
        let ghost before = self@;
        let res = gate.take(timing, &mut self.guide, &mut self.pending);
        assert(res.deep_view() =~= before.takeable(gate.is_paused(), timing));
        assert(self@ =~= before.after_take(gate.is_paused(), timing)) by {
            assert(self@.guide =~= before.after_take(gate.is_paused(), timing).guide);
            assert(self@.pending =~= before.after_take(gate.is_paused(), timing).pending);
        }
        res
    }
}

// ---- working through a batch ----

/// A step of working through a batch of entries.
#[derive(Debug)]
pub enum BatchStep {
    /// A stretch of user messages enters the history.
    Inject(Vec<UserMessage>),
    /// A command is shown to the user and then carried out.
    Control(ControlMessage),
}

/// The mathematical value of a [`BatchStep`].
#[verifier::ext_equal]
pub enum BatchStepView {
    Inject(Seq<UserMessageView>),
    Control(ControlMessageView),
}

impl View for BatchStep {
    type V = BatchStepView;

    open spec fn view(&self) -> BatchStepView {
        match self {
            BatchStep::Inject(x) => BatchStepView::Inject(x.deep_view()),
            BatchStep::Control(x) => BatchStepView::Control(x@),
        }
    }
}

impl DeepView for BatchStep {
    type V = BatchStepView;

    open spec fn deep_view(&self) -> BatchStepView {
        self@
    }
}

impl Dup for BatchStep {
    fn dup(&self) -> (res: Self) {
        match self {
            BatchStep::Inject(x) => BatchStep::Inject(x.dup()),
            BatchStep::Control(x) => BatchStep::Control(x.dup()),
        }
    }
}

/// The steps of a batch: user messages that follow one another make one stretch,
/// and a command stands where it stood in the batch.
pub open spec fn batch_steps(entries: Seq<QueueEntryView>) -> Seq<BatchStepView>
    decreases entries.len(),
{
    if entries.len() == 0 {
        Seq::empty()
    } else {
        let before = batch_steps(entries.drop_last());
        match entries.last() {
            QueueEntryView::Control(m) => before.push(BatchStepView::Control(m)),
            QueueEntryView::User(m) => if before.len() > 0 && before.last() is Inject {
                before.drop_last().push(BatchStepView::Inject(before.last()->Inject_0.push(m)))
            } else {
                before.push(BatchStepView::Inject(seq![m]))
            },
        }
    }
}

/// Whether a batch holds a user message.
pub open spec fn has_user(entries: Seq<QueueEntryView>) -> bool {
    exists|i: int| 0 <= i < entries.len() && (#[trigger] entries[i]) is User
}

/// Whether a batch holds a user message.
pub fn any_user(entries: &Vec<QueueEntry>) -> (res: bool)
    ensures
        res == has_user(entries.deep_view()),
{
    let ghost all = entries.deep_view();
    let mut i: usize = 0;
    while i < entries.len()
        invariant
            i <= entries.len(),
            all == entries.deep_view(),
            forall|j: int| 0 <= j < i ==> !((#[trigger] all[j]) is User),
        decreases entries.len() - i,
    {
        if let QueueEntry::User(_) = &entries[i] {
            assert(all[i as int] is User);
            return true;
        }
        assert(!(all[i as int] is User));
        i += 1;
    }
    false
}

/// The text of the first user message in a batch.
pub open spec fn first_user_text(entries: Seq<QueueEntryView>) -> Option<Seq<char>>
    decreases entries.len(),
{
    if entries.len() == 0 {
        None
    } else {
        match entries.first() {
            QueueEntryView::User(m) => Some(m.payload.content),
            QueueEntryView::Control(_) => first_user_text(entries.drop_first()),
        }
    }
}

/// The text of the first user message in a batch.
pub fn title_seed(entries: &Vec<QueueEntry>) -> (res: Option<String>)
    ensures
        res.deep_view() == first_user_text(entries.deep_view()),
{
    let ghost all = entries.deep_view();
    let mut i: usize = 0;
    assert(all.skip(0) =~= all);
    while i < entries.len()
        invariant
            i <= entries.len(),
            all == entries.deep_view(),
            first_user_text(all) == first_user_text(all.skip(i as int)),
        decreases entries.len() - i,
    {
        assert(all.skip(i as int).first() == entries[i as int]@);
        assert(all.skip(i as int).drop_first() =~= all.skip(i + 1));
        if let QueueEntry::User(m) = &entries[i] {
            return Some(m.payload.content.dup());
        }
        i += 1;
    }
    None
}

/// Ends a stretch of user messages, if there is one.
fn flush_run(steps: &mut Vec<BatchStep>, run: Vec<UserMessage>)
    ensures
        final(steps).deep_view() == if run@.len() > 0 {
            old(steps).deep_view().push(BatchStepView::Inject(run.deep_view()))
        } else {
            old(steps).deep_view()
        },
{
    if run.len() > 0 {
        push_item(steps, BatchStep::Inject(run));
    }
}

/// Splits a batch into its steps.
pub fn plan_batch(entries: Vec<QueueEntry>) -> (res: Vec<BatchStep>)
    ensures
        res.deep_view() == batch_steps(entries.deep_view()),
{
    let ghost all = entries.deep_view();
    let mut steps: Vec<BatchStep> = empty_list();
    let mut run: Vec<UserMessage> = empty_list();
    let n: usize = entries.len();
    let mut i: usize = 0;
    while i < n
        invariant
            i <= n,
            n == entries.len(),
            all == entries.deep_view(),
            run@.len() == run.deep_view().len(),
            steps.deep_view().len() > 0 ==> !(steps.deep_view().last() is Inject),
            batch_steps(all.take(i as int)) == if run@.len() > 0 {
                steps.deep_view().push(BatchStepView::Inject(run.deep_view()))
            } else {
                steps.deep_view()
            },
        decreases n - i,
    {
        let ghost upto = all.take(i + 1);
        let ghost before = batch_steps(all.take(i as int));
        assert(upto.drop_last() =~= all.take(i as int));
        assert(upto.last() == entries[i as int]@);
        match &entries[i] {
            QueueEntry::User(m) => {
                let ghost stretch = run.deep_view();
                push_item(&mut run, m.dup());
                assert(before.len() > 0 && before.last() is Inject ==> before.drop_last()
                    =~= steps.deep_view());
                assert(stretch.len() == 0 ==> stretch.push(m@) =~= seq![m@]);
            },
            QueueEntry::Control(m) => {
                flush_run(&mut steps, run);
                push_item(&mut steps, BatchStep::Control(m.dup()));
                run = empty_list();
            },
        }
        i += 1;
    }
    assert(all.take(i as int) =~= all);
    flush_run(&mut steps, run);
    steps
}

/// A stretch of user messages as entries.
pub open spec fn user_entries(run: Seq<UserMessageView>) -> Seq<QueueEntryView> {
    run.map_values(|m| QueueEntryView::User(m))
}

/// The entries that a row of steps works through.
pub open spec fn entries_of(steps: Seq<BatchStepView>) -> Seq<QueueEntryView>
    decreases steps.len(),
{
    if steps.len() == 0 {
        Seq::empty()
    } else {
        entries_of(steps.drop_last()) + match steps.last() {
            BatchStepView::Inject(run) => user_entries(run),
            BatchStepView::Control(m) => seq![QueueEntryView::Control(m)],
        }
    }
}

/// The steps of a batch work through every entry of it once, in order.
pub proof fn law_batch_is_worked_through_in_order(entries: Seq<QueueEntryView>)
    ensures
        entries_of(batch_steps(entries)) == entries,
    decreases entries.len(),
{
    if entries.len() > 0 {
        let front = entries.drop_last();
        law_batch_is_worked_through_in_order(front);
        let before = batch_steps(front);
        let after = batch_steps(entries);
        match entries.last() {
            QueueEntryView::Control(m) => {
                assert(after.drop_last() =~= before);
                assert(entries_of(after) =~= front.push(entries.last()));
            },
            QueueEntryView::User(m) => {
                if before.len() > 0 && before.last() is Inject {
                    let run = before.last()->Inject_0;
                    assert(after.drop_last() =~= before.drop_last());
                    assert(after.last() == BatchStepView::Inject(run.push(m)));
                    assert(user_entries(run.push(m)) =~= user_entries(run).push(
                        QueueEntryView::User(m),
                    ));
                    assert(entries_of(after) =~= entries_of(before).push(entries.last()));
                } else {
                    assert(after.drop_last() =~= before);
                    assert(after.last() == BatchStepView::Inject(seq![m]));
                    assert(user_entries(seq![m]) =~= seq![QueueEntryView::User(m)]);
                    assert(entries_of(after) =~= entries_of(before).push(entries.last()));
                }
            },
        }
        assert(front.push(entries.last()) =~= entries);
    } else {
        assert(entries_of(batch_steps(entries)) =~= entries);
    }
}

/// Whether a row of steps puts anything in the history.
pub open spec fn injects(steps: Seq<BatchStepView>) -> bool {
    exists|i: int| 0 <= i < steps.len() && (#[trigger] steps[i]) is Inject
}

/// A batch puts something in the history exactly if it holds a user message; no
/// stretch is empty, and no two stretches follow one another.
pub proof fn law_batch_stretches(entries: Seq<QueueEntryView>)
    ensures
        injects(batch_steps(entries)) == has_user(entries),
        forall|i: int|
            0 <= i < batch_steps(entries).len() && (#[trigger] batch_steps(entries)[i]) is Inject
                ==> batch_steps(entries)[i]->Inject_0.len() > 0,
        forall|i: int|
            0 <= i < batch_steps(entries).len() - 1 && (#[trigger] batch_steps(entries)[i]) is Inject
                ==> batch_steps(entries)[i + 1] is Control,
    decreases entries.len(),
{
    if entries.len() > 0 {
        let front = entries.drop_last();
        law_batch_stretches(front);
        let before = batch_steps(front);
        let after = batch_steps(entries);
        assert(has_user(entries) == (has_user(front) || entries.last() is User)) by {
            if has_user(front) {
                let i = choose|i: int| 0 <= i < front.len() && (#[trigger] front[i]) is User;
                assert(entries[i] is User);
            }
            if entries.last() is User {
                assert(entries[entries.len() - 1] is User);
            }
            if has_user(entries) {
                let i = choose|i: int| 0 <= i < entries.len() && (#[trigger] entries[i]) is User;
                if i < front.len() {
                    assert(front[i] is User);
                }
            }
        }
        if entries.last() is User {
            assert(after[after.len() - 1] is Inject);
            assert forall|i: int|
                0 <= i < after.len() && (#[trigger] after[i]) is Inject implies after[i]->Inject_0.len()
                > 0 by {
                if i < after.len() - 1 {
                    assert(after[i] == before[i]);
                }
            }
            assert forall|i: int|
                0 <= i < after.len() - 1 && (#[trigger] after[i]) is Inject implies after[i
                + 1] is Control by {
                assert(after[i] == before[i]);
                if i + 1 < after.len() - 1 {
                    assert(after[i + 1] == before[i + 1]);
                }
            }
        } else {
            assert forall|i: int| 0 <= i < before.len() implies after[i] == before[i] by {}
            if injects(before) {
                let i = choose|i: int| 0 <= i < before.len() && (#[trigger] before[i]) is Inject;
                assert(after[i] is Inject);
            }
            if injects(after) {
                let i = choose|i: int| 0 <= i < after.len() && (#[trigger] after[i]) is Inject;
                assert(before[i] is Inject);
            }
            assert forall|i: int|
                0 <= i < after.len() && (#[trigger] after[i]) is Inject implies after[i]->Inject_0.len()
                > 0 by {
                assert(after[i] == before[i]);
            }
            assert forall|i: int|
                0 <= i < after.len() - 1 && (#[trigger] after[i]) is Inject implies after[i
                + 1] is Control by {
                assert(after[i] == before[i]);
                if i + 1 < before.len() {
                    assert(after[i + 1] == before[i + 1]);
                }
            }
        }
    }
}

// ---- entries in their queues ----

/// The name that the sender of an entry gave it, whatever kind of entry it is.
pub open spec fn sender_name(entry: QueueEntryView) -> Option<Seq<char>> {
    match entry {
        QueueEntryView::User(m) => m.payload.client_message_id,
        QueueEntryView::Control(m) => m.payload.client_message_id,
    }
}

/// The queue that the sender of an entry meant it for, whatever kind of entry it is.
pub open spec fn sender_mode(entry: QueueEntryView) -> UserMessageMode {
    match entry {
        QueueEntryView::User(m) => m.payload.mode,
        QueueEntryView::Control(m) => m.payload.mode,
    }
}

/// An entry joins the end of the queue that its sender meant it for, and the other queue
/// stays as it is.
pub proof fn law_an_entry_joins_its_queue(q: QueuesView, entry: QueueEntryView)
    ensures
        entry.mode() == sender_mode(entry),
        entry.client_message_id() == sender_name(entry),
        sender_mode(entry) == UserMessageMode::Guide ==> q.put(entry).guide == q.guide.push(entry)
            && q.put(entry).pending == q.pending,
        sender_mode(entry) == UserMessageMode::Pending ==> q.put(entry).pending == q.pending.push(
            entry,
        ) && q.put(entry).guide == q.guide,
{
}

/// Taking the entries with a name out of a queue leaves the others, each as often and in
/// the order it was there.
pub proof fn law_removal_keeps_the_others_in_order(queue: Seq<QueueEntry>, name: Seq<char>)
    ensures
        without(queue, name) == queue.filter(|e: QueueEntry| sender_name(e@) != Some(name)),
    decreases queue.len(),
{
    let a = |e: QueueEntry| e@.client_message_id() != Some(name);
    let b = |e: QueueEntry| sender_name(e@) != Some(name);
    reveal(Seq::filter);
    if queue.len() > 0 {
        law_removal_keeps_the_others_in_order(queue.drop_last(), name);
        assert(a(queue.last()) == b(queue.last()));
    }
}

/// While consuming is paused nothing is taken. Otherwise what is taken and what is left
/// are the guide entries and the pending ones, in that order; after a batch of tools
/// only guide entries are taken, and at no time are guide entries left.
pub proof fn law_what_can_be_taken(q: QueuesView, paused: bool, timing: ConsumeTiming)
    ensures
        ({
            let out = q.takeable(paused, timing);
            let left = q.after_take(paused, timing);
            &&& paused ==> out.len() == 0 && left == q
            &&& out + left.guide + left.pending == q.guide + q.pending
            &&& !paused ==> left.guide.len() == 0
            &&& !paused && timing == ConsumeTiming::AfterToolBatch ==> left.pending == q.pending
            &&& !paused && timing == ConsumeTiming::FinalReply ==> left.pending.len() == 0
            &&& !paused && timing == ConsumeTiming::Idle && q.guide.len() > 0 ==> left.pending
                == q.pending
            &&& !paused && timing == ConsumeTiming::Idle && q.guide.len() == 0
                ==> left.pending.len() == 0
        }),
{
    let out = q.takeable(paused, timing);
    let left = q.after_take(paused, timing);
    if paused {
        assert(out + left.guide + left.pending =~= q.guide + q.pending);
    } else {
        law_taking_conserves_entries(timing, q.guide, q.pending);
    }
}

/// A title is made of the text of the first user message in a batch, if there is one.
pub proof fn law_the_first_user_message(entries: Seq<QueueEntryView>, i: int)
    requires
        0 <= i <= entries.len(),
        forall|j: int| 0 <= j < i ==> (#[trigger] entries[j]) is Control,
        i < entries.len() ==> entries[i] is User,
    ensures
        i < entries.len() ==> first_user_text(entries) == Some(entries[i]->User_0.payload.content),
        i == entries.len() ==> first_user_text(entries) is None,
        has_user(entries) == (i < entries.len()),
    decreases entries.len(),
{
    if i > 0 {
        let rest = entries.drop_first();
        assert(entries[0] is Control);
        assert forall|j: int| 0 <= j < i - 1 implies (#[trigger] rest[j]) is Control by {
            assert(rest[j] == entries[j + 1]);
        }
        law_the_first_user_message(rest, i - 1);
    }
    if i < entries.len() {
        assert(entries[i] is User);
    }
}

} // verus!
