//! The life of a session: wait, take what has come, run a turn, wait again.
//!
//! A session works through its queues whenever no turn is running and consuming is
//! allowed. A batch with a user message in it makes a turn; a batch of commands
//! alone does not. Whoever drives the session carries out what [`SessionLoop`] asks
//! for.
use crate::interrupt::{interrupt_notice, notify_idle, Outgoing, OutgoingView};
use crate::message::{
    ControlCommand, ControlMessage, InterruptPayload, InterruptPayloadView, OutputEvent,
    OutputEventView, QueueEntry, QueueEntryView,
};
use crate::model::{empty_list, push_item, Dup};
use crate::queue::{
    any_user, batch_steps, entries_of, first_user_text, has_user, injects,
    law_batch_is_worked_through_in_order, law_batch_stretches, law_idle_takes_something,
    law_taking_conserves_entries, plan_batch, title_seed, BatchStep, BatchStepView, ConsumeGate,
    ConsumeTiming, Queues, QueuesView, TurnOutcome,
};
use vstd::prelude::*;

verus! {

/// Whether a session may be writing to the store.
#[derive(Clone, Copy, Debug, PartialEq, Eq, Structural)]
pub enum TurnPhase {
    /// No turn is running, and nothing is being written.
    Idle,
    /// A batch is being worked through or a turn is running.
    Running,
}

impl DeepView for TurnPhase {
    type V = TurnPhase;

    open spec fn deep_view(&self) -> TurnPhase {
        *self
    }
}

impl Dup for TurnPhase {
    fn dup(&self) -> (res: Self) {
        *self
    }
}

/// What a session is told.
#[derive(Debug)]
pub enum SessionEvent {
    /// An entry has arrived.
    Inbound(QueueEntry),
    /// An interrupt has come while no turn was running.
    Interrupted(InterruptPayload),
    /// The session is to end.
    Shutdown,
    /// The check before the turn is done; whether the session was told to end meanwhile.
    Compressed(bool),
    /// The turn is over.
    TurnDone(TurnOutcome),
}

/// The mathematical value of a [`SessionEvent`].
#[verifier::ext_equal]
pub enum SessionEventView {
    Inbound(QueueEntryView),
    Interrupted(InterruptPayloadView),
    Shutdown,
    Compressed(bool),
    TurnDone(TurnOutcome),
}

impl View for SessionEvent {
    type V = SessionEventView;

    open spec fn view(&self) -> SessionEventView {
        match self {
            SessionEvent::Inbound(x) => SessionEventView::Inbound(x@),
            SessionEvent::Interrupted(x) => SessionEventView::Interrupted(x@),
            SessionEvent::Shutdown => SessionEventView::Shutdown,
            SessionEvent::Compressed(x) => SessionEventView::Compressed(*x),
            SessionEvent::TurnDone(x) => SessionEventView::TurnDone(*x),
        }
    }
}

impl DeepView for SessionEvent {
    type V = SessionEventView;

    open spec fn deep_view(&self) -> SessionEventView {
        self@
    }
}

impl Dup for SessionEvent {
    fn dup(&self) -> (res: Self) {
        match self {
            SessionEvent::Inbound(x) => SessionEvent::Inbound(x.dup()),
            SessionEvent::Interrupted(x) => SessionEvent::Interrupted(x.dup()),
            SessionEvent::Shutdown => SessionEvent::Shutdown,
            SessionEvent::Compressed(x) => SessionEvent::Compressed(*x),
            SessionEvent::TurnDone(x) => SessionEvent::TurnDone(*x),
        }
    }
}

/// What a session asks for.
#[derive(Debug)]
pub enum SessionAction {
    /// Announce the phase.
    SetPhase(TurnPhase),
    /// Compress the conversation if it has grown too long.
    CheckCompression,
    /// Work through a batch of entries.
    Consume(Vec<BatchStep>),
    /// Give the session a title, if it has none; this is the first message of the batch.
    OfferTitle(Option<String>),
    /// Run a turn.
    RunTurn,
    /// Send an event.
    Send(Outgoing),
    /// Wait for a shutdown, an entry or an interrupt, and look for them in this order.
    Wait,
    /// The session has ended.
    Exit,
}

/// The mathematical value of a [`SessionAction`].
#[verifier::ext_equal]
pub enum SessionActionView {
    SetPhase(TurnPhase),
    CheckCompression,
    Consume(Seq<BatchStepView>),
    OfferTitle(Option<Seq<char>>),
    RunTurn,
    Send(OutgoingView),
    Wait,
    Exit,
}

impl View for SessionAction {
    type V = SessionActionView;

    open spec fn view(&self) -> SessionActionView {
        match self {
            SessionAction::SetPhase(x) => SessionActionView::SetPhase(*x),
            SessionAction::CheckCompression => SessionActionView::CheckCompression,
            SessionAction::Consume(x) => SessionActionView::Consume(x.deep_view()),
            SessionAction::OfferTitle(x) => SessionActionView::OfferTitle(x.deep_view()),
            SessionAction::RunTurn => SessionActionView::RunTurn,
            SessionAction::Send(x) => SessionActionView::Send(x@),
            SessionAction::Wait => SessionActionView::Wait,
            SessionAction::Exit => SessionActionView::Exit,
        }
    }
}

impl DeepView for SessionAction {
    type V = SessionActionView;

    open spec fn deep_view(&self) -> SessionActionView {
        self@
    }
}

impl Dup for SessionAction {
    fn dup(&self) -> (res: Self) {
        match self {
            SessionAction::SetPhase(x) => SessionAction::SetPhase(*x),
            SessionAction::CheckCompression => SessionAction::CheckCompression,
            SessionAction::Consume(x) => SessionAction::Consume(x.dup()),
            SessionAction::OfferTitle(x) => SessionAction::OfferTitle(x.dup()),
            SessionAction::RunTurn => SessionAction::RunTurn,
            SessionAction::Send(x) => SessionAction::Send(x.dup()),
            SessionAction::Wait => SessionAction::Wait,
            SessionAction::Exit => SessionAction::Exit,
        }
    }
}

/// Where a session stands.
pub enum SessionStage {
    /// Nothing is running.
    Waiting,
    /// The check before a turn is running; these entries have been taken.
    Compressing(Vec<QueueEntry>),
    /// A turn is running.
    InTurn,
    /// The session has ended.
    Stopped,
}

/// The mathematical value of a [`SessionStage`].
#[verifier::ext_equal]
pub enum SessionStageView {
    Waiting,
    Compressing(Seq<QueueEntryView>),
    InTurn,
    Stopped,
}

impl View for SessionStage {
    type V = SessionStageView;

    open spec fn view(&self) -> SessionStageView {
        match self {
            SessionStage::Waiting => SessionStageView::Waiting,
            SessionStage::Compressing(entries) => SessionStageView::Compressing(
                entries.deep_view(),
            ),
            SessionStage::InTurn => SessionStageView::InTurn,
            SessionStage::Stopped => SessionStageView::Stopped,
        }
    }
}

/// A session.
pub struct SessionLoop {
    pub stage: SessionStage,
    pub queues: Queues,
    pub gate: ConsumeGate,
}

/// The mathematical value of a [`SessionLoop`].
#[verifier::ext_equal]
pub struct SessionLoopView {
    pub stage: SessionStageView,
    pub queues: QueuesView,
    pub paused: bool,
}

impl View for SessionLoop {
    type V = SessionLoopView;

    open spec fn view(&self) -> SessionLoopView {
        SessionLoopView {
            stage: self.stage@,
            queues: self.queues@,
            paused: self.gate.is_paused(),
        }
    }
}

impl SessionLoopView {
    /// What the session would work on next.
    pub open spec fn due(self) -> Seq<QueueEntryView> {
        self.queues.takeable(self.paused, ConsumeTiming::Idle)
    }
}

// ---- what a session does, in mathematical terms ----

/// The session looks for work. With nothing to do it waits. A batch without a user
/// message is worked through at once; one with a user message is checked for
/// compression first.
pub open spec fn session_poll(s: SessionLoopView) -> (SessionLoopView, Seq<SessionActionView>) {
    let entries = s.due();
    let queues = s.queues.after_take(s.paused, ConsumeTiming::Idle);
    if entries.len() == 0 {
        (
            SessionLoopView { stage: SessionStageView::Waiting, queues, ..s },
            seq![SessionActionView::Wait],
        )
    } else if has_user(entries) {
        (
            SessionLoopView { stage: SessionStageView::Compressing(entries), queues, ..s },
            seq![
                SessionActionView::SetPhase(TurnPhase::Running),
                SessionActionView::CheckCompression,
            ],
        )
    } else {
        (
            SessionLoopView { stage: SessionStageView::Waiting, queues, ..s },
            seq![
                SessionActionView::SetPhase(TurnPhase::Running),
                SessionActionView::Consume(batch_steps(entries)),
                SessionActionView::SetPhase(TurnPhase::Idle),
                SessionActionView::Wait,
            ],
        )
    }
}

/// What a session comes to, given what happened. What does not concern a session
/// where it stands changes nothing.
pub open spec fn session_step(s: SessionLoopView, e: SessionEventView) -> (
    SessionLoopView,
    Seq<SessionActionView>,
) {
    match (e, s.stage) {
        (SessionEventView::Shutdown, SessionStageView::Waiting) => (
            SessionLoopView { stage: SessionStageView::Stopped, ..s },
            seq![SessionActionView::Exit],
        ),
        (SessionEventView::Inbound(entry), SessionStageView::Waiting) => session_poll(
            SessionLoopView { queues: s.queues.put(entry), paused: false, ..s },
        ),
        (SessionEventView::Interrupted(payload), SessionStageView::Waiting) => {
            let (next, actions) = session_poll(s);
            (next, seq![SessionActionView::Send(interrupt_notice(payload))] + actions)
        },
        (SessionEventView::Compressed(ending), SessionStageView::Compressing(entries)) => if ending {
            (
                SessionLoopView { stage: SessionStageView::Stopped, ..s },
                seq![SessionActionView::SetPhase(TurnPhase::Idle), SessionActionView::Exit],
            )
        } else {
            (
                SessionLoopView { stage: SessionStageView::InTurn, ..s },
                seq![
                    SessionActionView::Consume(batch_steps(entries)),
                    SessionActionView::OfferTitle(first_user_text(entries)),
                    SessionActionView::RunTurn,
                ],
            )
        },
        (SessionEventView::TurnDone(outcome), SessionStageView::InTurn) => (
            SessionLoopView {
                stage: SessionStageView::Waiting,
                paused: outcome != TurnOutcome::Completed,
                ..s
            },
            seq![SessionActionView::SetPhase(TurnPhase::Idle), SessionActionView::Wait],
        ),
        _ => (s, Seq::empty()),
    }
}

// ---- what a session does ----

impl SessionLoop {
    /// A session that has just been created.
    pub fn new() -> (res: SessionLoop)
        ensures
            res@ == (SessionLoopView {
                stage: SessionStageView::Waiting,
                queues: QueuesView { guide: Seq::empty(), pending: Seq::empty() },
                paused: false,
            }),
    {
        SessionLoop {
            stage: SessionStage::Waiting,
            queues: Queues::new(),
            gate: ConsumeGate::new(),
        }
    }

    /// Looks for work.
    pub fn poll(&mut self) -> (res: Vec<SessionAction>)
        ensures
            (final(self)@, res.deep_view()) == session_poll(old(self)@),
    {
        let ghost s = self@;
        let entries = self.queues.take(&self.gate, ConsumeTiming::Idle);
        let mut actions: Vec<SessionAction> = empty_list();
        if entries.len() == 0 {
            self.stage = SessionStage::Waiting;
            push_item(&mut actions, SessionAction::Wait);
        } else if any_user(&entries) {
            self.stage = SessionStage::Compressing(entries);
            push_item(&mut actions, SessionAction::SetPhase(TurnPhase::Running));
            push_item(&mut actions, SessionAction::CheckCompression);
        } else {
            self.stage = SessionStage::Waiting;
            push_item(&mut actions, SessionAction::SetPhase(TurnPhase::Running));
            push_item(&mut actions, SessionAction::Consume(plan_batch(entries)));
            push_item(&mut actions, SessionAction::SetPhase(TurnPhase::Idle));
            push_item(&mut actions, SessionAction::Wait);
        }
        assert(actions.deep_view() =~= session_poll(s).1);
        actions
    }

    /// Tells a session what happened. Returns what it asks for, in order.
    pub fn step(&mut self, event: SessionEvent) -> (res: Vec<SessionAction>)
        ensures
            (final(self)@, res.deep_view()) == session_step(old(self)@, event@),
    {
        let ghost s = self@;
        let ghost e = event@;
        let mut actions: Vec<SessionAction> = empty_list();
        match event {
            SessionEvent::Shutdown => {
                if let SessionStage::Waiting = self.stage {
                    self.stage = SessionStage::Stopped;
                    push_item(&mut actions, SessionAction::Exit);
                }
            },
            SessionEvent::Inbound(entry) => {
                if let SessionStage::Waiting = self.stage {
                    self.gate.resume_on_new_intent();
                    self.queues.put(entry);
                    return self.poll();
                }
            },
            SessionEvent::Interrupted(payload) => {
                if let SessionStage::Waiting = self.stage {
                    let ghost notice = interrupt_notice(payload@);
                    push_item(&mut actions, SessionAction::Send(notify_idle(&payload)));
                    let mut more = self.poll();
                    let ghost tail = more.deep_view();
                    actions.append(&mut more);
                    assert(actions.deep_view() =~= seq![SessionActionView::Send(notice)] + tail);
                    return actions;
                }
            },
            SessionEvent::Compressed(ending) => {
                if let SessionStage::Compressing(entries) = &self.stage {
                    if ending {
                        push_item(&mut actions, SessionAction::SetPhase(TurnPhase::Idle));
                        push_item(&mut actions, SessionAction::Exit);
                        self.stage = SessionStage::Stopped;
                    } else {
                        let seed = title_seed(entries);
                        let steps = plan_batch(entries.dup());
                        push_item(&mut actions, SessionAction::Consume(steps));
                        push_item(&mut actions, SessionAction::OfferTitle(seed));
                        push_item(&mut actions, SessionAction::RunTurn);
                        self.stage = SessionStage::InTurn;
                    }
                }
            },
            SessionEvent::TurnDone(outcome) => {
                if let SessionStage::InTurn = self.stage {
                    self.gate.on_turn_end(outcome);
                    self.stage = SessionStage::Waiting;
                    push_item(&mut actions, SessionAction::SetPhase(TurnPhase::Idle));
                    push_item(&mut actions, SessionAction::Wait);
                }
            },
        }
        assert(actions.deep_view() =~= session_step(s, e).1);
        actions
    }
}

/// A control command on its way: what is shown of it, and what is carried out.
pub struct ControlPlan {
    /// Shown first.
    pub echo: Outgoing,
    /// Carried out then, whatever the plugins made of the echo.
    pub command: ControlCommand,
    /// What the sender added to the command.
    pub note: Option<String>,
}

/// Decides how a control command is carried out. The command and the note are
/// those of the entry, so that a plugin that changes or blocks the echo does not
/// change the command.
pub fn handle_control(msg: ControlMessage) -> (res: ControlPlan)
    ensures
        res.echo@ == OutgoingView::Notice(OutputEventView::Control(msg@)),
        res.command == msg@.payload.command,
        res.note.deep_view() == msg@.payload.note,
{
    let command = msg.payload.command;
    let note = msg.payload.note.dup();
    ControlPlan { echo: Outgoing::Notice(OutputEvent::Control(msg)), command, note }
}

// ---- laws ----

/// The phase that a row of actions ends in, from a given one on.
pub open spec fn phase_after(phase: TurnPhase, actions: Seq<SessionActionView>) -> TurnPhase
    decreases actions.len(),
{
    if actions.len() == 0 {
        phase
    } else {
        match actions.last() {
            SessionActionView::SetPhase(p) => p,
            _ => phase_after(phase, actions.drop_last()),
        }
    }
}

/// The phase that goes with where a session stands.
pub open spec fn phase_of(stage: SessionStageView) -> TurnPhase {
    if stage is Compressing || stage is InTurn {
        TurnPhase::Running
    } else {
        TurnPhase::Idle
    }
}

proof fn lemma_phase_last(phase: TurnPhase, actions: Seq<SessionActionView>, k: int)
    requires
        0 <= k < actions.len(),
        actions[k] is SetPhase,
        forall|i: int| k < i < actions.len() ==> !((#[trigger] actions[i]) is SetPhase),
    ensures
        phase_after(phase, actions) == actions[k]->SetPhase_0,
    decreases actions.len(),
{
    if k < actions.len() - 1 {
        assert(!(actions[actions.len() - 1] is SetPhase));
        assert forall|i: int| k < i < actions.drop_last().len() implies !((
        #[trigger] actions.drop_last()[i]) is SetPhase) by {
            assert(actions.drop_last()[i] == actions[i]);
        }
        lemma_phase_last(phase, actions.drop_last(), k);
    }
}

proof fn lemma_phase_none(phase: TurnPhase, actions: Seq<SessionActionView>)
    requires
        forall|i: int| 0 <= i < actions.len() ==> !((#[trigger] actions[i]) is SetPhase),
    ensures
        phase_after(phase, actions) == phase,
    decreases actions.len(),
{
    if actions.len() > 0 {
        assert(!(actions[actions.len() - 1] is SetPhase));
        assert forall|i: int| 0 <= i < actions.drop_last().len() implies !((
        #[trigger] actions.drop_last()[i]) is SetPhase) by {
            assert(actions.drop_last()[i] == actions[i]);
        }
        lemma_phase_none(phase, actions.drop_last());
    }
}

proof fn lemma_poll_phase(s: SessionLoopView)
    ensures
        phase_after(TurnPhase::Idle, session_poll(s).1) == phase_of(session_poll(s).0.stage),
{
    let (next, actions) = session_poll(s);
    if s.due().len() == 0 {
        lemma_phase_none(TurnPhase::Idle, actions);
    } else if has_user(s.due()) {
        lemma_phase_last(TurnPhase::Idle, actions, 0);
    } else {
        lemma_phase_last(TurnPhase::Idle, actions, 2);
    }
}

/// The phase that a session announces is always right: it is running exactly while
/// a batch has been taken for a turn that is not over. So whoever sees it idle
/// knows that the session is not writing to the store.
pub proof fn law_phase_is_right(s: SessionLoopView, e: SessionEventView)
    ensures
        phase_after(phase_of(s.stage), session_step(s, e).1) == phase_of(
            session_step(s, e).0.stage,
        ),
{
    let phase = phase_of(s.stage);
    let (next, actions) = session_step(s, e);
    match (e, s.stage) {
        (SessionEventView::Shutdown, SessionStageView::Waiting) => {
            lemma_phase_none(phase, actions);
        },
        (SessionEventView::Inbound(entry), SessionStageView::Waiting) => {
            lemma_poll_phase(
                SessionLoopView { queues: s.queues.put(entry), paused: false, ..s },
            );
        },
        (SessionEventView::Interrupted(payload), SessionStageView::Waiting) => {
            lemma_poll_phase(s);
            let tail = session_poll(s).1;
            if s.due().len() == 0 {
                lemma_phase_none(phase, actions);
            } else if has_user(s.due()) {
                lemma_phase_last(phase, actions, 1);
                lemma_phase_last(phase, tail, 0);
            } else {
                lemma_phase_last(phase, actions, 3);
                lemma_phase_last(phase, tail, 2);
            }
        },
        (SessionEventView::Compressed(ending), SessionStageView::Compressing(entries)) => {
            if ending {
                lemma_phase_last(phase, actions, 0);
            } else {
                lemma_phase_none(phase, actions);
            }
        },
        (SessionEventView::TurnDone(outcome), SessionStageView::InTurn) => {
            lemma_phase_last(phase, actions, 0);
        },
        _ => {
            lemma_phase_none(phase, actions);
        },
    }
}

/// After a turn that was interrupted or failed, nothing is consumed, and the queues
/// stay as they are, whatever interrupts come, until an entry arrives.
pub proof fn law_nothing_runs_while_paused(s: SessionLoopView, payload: InterruptPayloadView)
    requires
        s.stage is Waiting,
        s.paused,
    ensures
        session_poll(s) == (s, seq![SessionActionView::Wait]),
        session_step(s, SessionEventView::Interrupted(payload)).0 == s,
{
}

/// An entry that arrives at a waiting session always gets it going: the entry, and
/// whatever had been left before it in the same queue, is taken at once unless
/// guide entries go first.
pub proof fn law_arrival_resumes(s: SessionLoopView, entry: QueueEntryView)
    requires
        s.stage is Waiting,
    ensures
        ({
            let q = s.queues.put(entry);
            let (next, actions) = session_step(s, SessionEventView::Inbound(entry));
            &&& !next.paused
            &&& actions[0] == SessionActionView::SetPhase(TurnPhase::Running)
            &&& q.guide.len() > 0 ==> next.queues == (QueuesView {
                guide: Seq::empty(),
                pending: q.pending,
            })
            &&& q.guide.len() == 0 ==> next.queues.is_empty()
        }),
{
    let q = s.queues.put(entry);
    law_idle_takes_something(q.guide, q.pending);
}

/// A turn is run for a batch exactly if the batch holds a user message; a batch of
/// commands alone is worked through without one.
pub proof fn law_commands_alone_run_no_turn(s: SessionLoopView)
    requires
        s.due().len() > 0,
    ensures
        injects(batch_steps(s.due())) == has_user(s.due()),
        has_user(s.due()) ==> session_poll(s).0.stage == SessionStageView::Compressing(s.due()),
        !has_user(s.due()) ==> session_poll(s).0.stage is Waiting && session_poll(s).1.contains(
            SessionActionView::Consume(batch_steps(s.due())),
        ),
{
    law_batch_stretches(s.due());
    if !has_user(s.due()) {
        assert(session_poll(s).1[1] == SessionActionView::Consume(batch_steps(s.due())));
    }
}

/// A session that has ended does nothing more.
pub proof fn law_ended_sessions_stay_ended(s: SessionLoopView, e: SessionEventView)
    requires
        s.stage is Stopped,
    ensures
        session_step(s, e) == (s, Seq::<SessionActionView>::empty()),
{
}

/// A session that is told to end while it checks for compression runs no turn.
pub proof fn law_no_turn_after_shutdown(s: SessionLoopView)
    requires
        s.stage is Compressing,
    ensures
        ({
            let (next, actions) = session_step(s, SessionEventView::Compressed(true));
            next.stage is Stopped && !actions.contains(SessionActionView::RunTurn)
        }),
{
}

/// A session that waits after a turn misses nothing: a turn that completes has left
/// the queues empty, and after any other nothing is due until an entry arrives.
pub proof fn law_waiting_misses_nothing(s: SessionLoopView, outcome: TurnOutcome)
    requires
        s.stage is InTurn,
        outcome == TurnOutcome::Completed ==> s.queues.is_empty(),
    ensures
        session_step(s, SessionEventView::TurnDone(outcome)).0.due().len() == 0,
        session_step(s, SessionEventView::TurnDone(outcome)).0.queues == s.queues,
{
    law_idle_takes_something(s.queues.guide, s.queues.pending);
}

/// The entries that a row of actions works through, in order.
pub open spec fn worked_through(actions: Seq<SessionActionView>) -> Seq<QueueEntryView>
    decreases actions.len(),
{
    if actions.len() == 0 {
        Seq::empty()
    } else {
        worked_through(actions.drop_last()) + match actions.last() {
            SessionActionView::Consume(steps) => entries_of(steps),
            _ => Seq::empty(),
        }
    }
}

/// The entries that a session has taken and not yet worked through.
pub open spec fn held(stage: SessionStageView) -> Seq<QueueEntryView> {
    match stage {
        SessionStageView::Compressing(entries) => entries,
        _ => Seq::empty(),
    }
}

proof fn lemma_worked_through_one(actions: Seq<SessionActionView>, k: int, steps: Seq<BatchStepView>)
    requires
        0 <= k < actions.len(),
        actions[k] == SessionActionView::Consume(steps),
        forall|i: int|
            0 <= i < actions.len() && i != k ==> !((#[trigger] actions[i]) is Consume),
    ensures
        worked_through(actions) == entries_of(steps),
    decreases actions.len(),
{
    let front = actions.drop_last();
    if k == actions.len() - 1 {
        lemma_worked_through_none(front);
        assert(worked_through(actions) =~= entries_of(steps));
    } else {
        assert(!(actions[actions.len() - 1] is Consume));
        lemma_worked_through_one(front, k, steps);
        assert(worked_through(actions) =~= entries_of(steps));
    }
}

proof fn lemma_worked_through_none(actions: Seq<SessionActionView>)
    requires
        forall|i: int| 0 <= i < actions.len() ==> !((#[trigger] actions[i]) is Consume),
    ensures
        worked_through(actions) == Seq::<QueueEntryView>::empty(),
    decreases actions.len(),
{
    if actions.len() > 0 {
        assert(!(actions[actions.len() - 1] is Consume));
        lemma_worked_through_none(actions.drop_last());
        assert(worked_through(actions) =~= Seq::empty());
    }
}

/// When a session looks for work, what it takes it either works through at once or
/// holds for the turn, and everything else is still waiting, in order.
pub proof fn law_looking_for_work_loses_nothing(s: SessionLoopView)
    ensures
        ({
            let (next, actions) = session_poll(s);
            worked_through(actions) + held(next.stage) + next.queues.guide + next.queues.pending
                == s.queues.guide + s.queues.pending
        }),
{
    let (next, actions) = session_poll(s);
    let entries = s.due();
    if !s.paused {
        law_taking_conserves_entries(ConsumeTiming::Idle, s.queues.guide, s.queues.pending);
    }
    if entries.len() == 0 || has_user(entries) {
        lemma_worked_through_none(actions);
    } else {
        lemma_worked_through_one(actions, 1, batch_steps(entries));
        law_batch_is_worked_through_in_order(entries);
    }
    assert(worked_through(actions) + held(next.stage) + next.queues.guide + next.queues.pending
        =~= entries + next.queues.guide + next.queues.pending);
    assert(s.paused ==> entries + next.queues.guide + next.queues.pending =~= s.queues.guide
        + s.queues.pending);
}

/// What a session holds for a turn is worked through before the turn runs, and the
/// first message of it is what a title may be made of.
pub proof fn law_a_turn_begins_with_its_batch(s: SessionLoopView)
    requires
        s.stage is Compressing,
    ensures
        ({
            let (next, actions) = session_step(s, SessionEventView::Compressed(false));
            &&& worked_through(actions) == held(s.stage)
            &&& actions.last() == SessionActionView::RunTurn
            &&& actions[1] == SessionActionView::OfferTitle(first_user_text(held(s.stage)))
            &&& next.queues == s.queues
        }),
{
    let (next, actions) = session_step(s, SessionEventView::Compressed(false));
    lemma_worked_through_one(actions, 0, batch_steps(held(s.stage)));
    law_batch_is_worked_through_in_order(held(s.stage));
}

// ---- what a session does with what waits, outright ----

/// What a session takes up next: nothing while it is paused; else what waits in the
/// guide queue, or in the pending queue where that is empty.
pub open spec fn next_up(s: SessionLoopView) -> Seq<QueueEntryView> {
    if s.paused {
        Seq::empty()
    } else if s.queues.guide.len() > 0 {
        s.queues.guide
    } else {
        s.queues.pending
    }
}

/// A session that looks for work takes up what is next, all of it. If there is nothing
/// it waits. If a user message is among it, it holds it for a turn and checks first
/// whether to compress; if not, it works through it at once and waits.
pub proof fn law_how_a_session_looks_for_work(s: SessionLoopView)
    ensures
        ({
            let (n, actions) = session_poll(s);
            let next = next_up(s);
            let user = exists|i: int| 0 <= i < next.len() && (#[trigger] next[i]) is User;
            &&& n.paused == s.paused
            &&& s.paused ==> n.queues == s.queues
            &&& !s.paused ==> n.queues.guide.len() == 0
            &&& !s.paused && s.queues.guide.len() > 0 ==> n.queues.pending == s.queues.pending
            &&& !s.paused && s.queues.guide.len() == 0 ==> n.queues.pending.len() == 0
            &&& next.len() == 0 ==> n.stage is Waiting && actions.len() == 1 && actions[0] is Wait
            &&& next.len() > 0 && user ==> {
                &&& n.stage is Compressing
                &&& n.stage->Compressing_0 == next
                &&& actions.len() == 2
                &&& actions[0] == SessionActionView::SetPhase(TurnPhase::Running)
                &&& actions[1] is CheckCompression
            }
            &&& next.len() > 0 && !user ==> {
                &&& n.stage is Waiting
                &&& actions.len() == 4
                &&& actions[0] == SessionActionView::SetPhase(TurnPhase::Running)
                &&& actions[1] is Consume
                &&& entries_of(actions[1]->Consume_0) == next
                &&& actions[2] == SessionActionView::SetPhase(TurnPhase::Idle)
                &&& actions[3] is Wait
            }
        }),
{
    law_batch_is_worked_through_in_order(next_up(s));
}

/// An entry that reaches a waiting session joins its queue, ends a pause, and has the
/// session look for work. An interrupt that reaches it is announced, and it looks for
/// work. A shutdown ends it.
pub proof fn law_what_reaches_a_waiting_session(
    s: SessionLoopView,
    entry: QueueEntryView,
    payload: InterruptPayloadView,
)
    requires
        s.stage is Waiting,
    ensures
        session_step(s, SessionEventView::Inbound(entry)) == session_poll(
            SessionLoopView { stage: s.stage, queues: s.queues.put(entry), paused: false },
        ),
        ({
            let (n, actions) = session_step(s, SessionEventView::Interrupted(payload));
            &&& n == session_poll(s).0
            &&& actions.skip(1) == session_poll(s).1
            &&& actions[0] is Send
            &&& actions[0]->Send_0 is Notice
            &&& actions[0]->Send_0->Notice_0 is Interrupt
            &&& actions[0]->Send_0->Notice_0->Interrupt_0.payload == payload
        }),
        ({
            let (n, actions) = session_step(s, SessionEventView::Shutdown);
            &&& n.stage is Stopped
            &&& n.queues == s.queues
            &&& actions.len() == 1
            &&& actions[0] is Exit
        }),
{
    let (n, actions) = session_step(s, SessionEventView::Interrupted(payload));
    assert(actions.skip(1) =~= session_poll(s).1);
}

/// When the check is over, what the session holds is worked through, a title is offered
/// for its first user message, and a turn is run; or, where the session is to end, it
/// ends. When the turn is over the session is at rest again, and it is paused exactly if
/// the turn did not complete.
pub proof fn law_from_the_check_to_the_end_of_the_turn(s: SessionLoopView, outcome: TurnOutcome)
    ensures
        s.stage is Compressing ==> {
            let (n, actions) = session_step(s, SessionEventView::Compressed(false));
            &&& n.stage is InTurn
            &&& n.queues == s.queues
            &&& n.paused == s.paused
            &&& actions.len() == 3
            &&& actions[0] is Consume
            &&& entries_of(actions[0]->Consume_0) == s.stage->Compressing_0
            &&& actions[1] is OfferTitle
            &&& actions[1]->OfferTitle_0 == first_user_text(s.stage->Compressing_0)
            &&& actions[2] is RunTurn
        },
        s.stage is Compressing ==> {
            let (n, actions) = session_step(s, SessionEventView::Compressed(true));
            &&& n.stage is Stopped
            &&& n.queues == s.queues
            &&& actions.len() == 2
            &&& actions[0] == SessionActionView::SetPhase(TurnPhase::Idle)
            &&& actions[1] is Exit
        },
        s.stage is InTurn ==> {
            let (n, actions) = session_step(s, SessionEventView::TurnDone(outcome));
            &&& n.stage is Waiting
            &&& n.queues == s.queues
            &&& n.paused <==> outcome == TurnOutcome::Interrupted || outcome == TurnOutcome::Failed
            &&& actions.len() == 2
            &&& actions[0] == SessionActionView::SetPhase(TurnPhase::Idle)
            &&& actions[1] is Wait
        },
{
    if s.stage is Compressing {
        law_batch_is_worked_through_in_order(s.stage->Compressing_0);
    }
}

} // verus!
