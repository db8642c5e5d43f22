//! A turn: the model is called, its tools are run and their results go back to
//! it, until it has nothing more to do.
//!
//! Calling the model, running tools, asking the plugins and writing to the store
//! are left to whoever drives the turn. [`Turn`] decides: it is told what happened
//! and says what is to be done, in order, until it says that the turn is over.
//! Entries that arrive meanwhile only join their queue. They are consumed after a
//! batch of tools, and after a final reply; in either case the model is called
//! again to answer them.
use crate::builders::{
    assistant_payload, assistant_payload_of, law_calls_go_past_the_plugins_whole, resolution_view, tool_call_data_to_event,
    tool_call_event, tool_call_event_to_data, tool_call_in, ResolvedModel, ResolvedModelView,
};
use crate::chat::{StreamResult, StreamResultView, StreamUsage};
use crate::emit::{envelope, unsent};
use crate::history::{
    emission_of, law_a_stored_reply_holds_the_given_calls, with_calls, BillView,
};
use crate::interrupt::{
    answers, finish_streaming, finish_tool_batch, finished_streaming, finished_tool_batch,
    law_interrupted_batch_answers_the_rest, shutdown_interrupt, shutdown_payload, some_answers,
    valid_call, Outgoing, OutgoingView, TurnState, TurnStateView,
};
use crate::json::args_in;
use crate::message::{
    ErrorPayload, ErrorPayloadView, InterruptPayload, InterruptPayloadView, OutputEvent,
    OutputEventView, QueueEntry, QueueEntryView, ToolCallData, ToolCallDataView,
    ToolResultPayload, ToolResultPayloadView,
};
use crate::model::{empty_list, push_item, Dup};
use crate::queue::{
    any_user, batch_steps, entries_of, has_user, injects, law_batch_is_worked_through_in_order,
    law_batch_stretches, law_taking_conserves_entries, plan_batch, BatchStep, BatchStepView,
    ConsumeGate, ConsumeTiming, Queues, QueuesView, TurnOutcome,
};
use crate::text::{concat, concat3, quote_list, quoted_list};
use vstd::hash_set::StringHashSet;
use vstd::prelude::*;
use vstd::seq_lib::lemma_multiset_commutative;

verus! {

/// An interrupt, and what the stream had brought when it came.
#[derive(Debug)]
pub struct TurnCut {
    /// The interrupt.
    pub payload: InterruptPayload,
    /// What the stream had brought; of no account while tools are running.
    pub state: TurnState,
}

/// The mathematical value of a [`TurnCut`].
#[verifier::ext_equal]
pub struct TurnCutView {
    pub payload: InterruptPayloadView,
    pub state: TurnStateView,
}

impl View for TurnCut {
    type V = TurnCutView;

    open spec fn view(&self) -> TurnCutView {
        TurnCutView {
            payload: self.payload@,
            state: self.state@,
        }
    }
}

impl DeepView for TurnCut {
    type V = TurnCutView;

    open spec fn deep_view(&self) -> TurnCutView {
        self@
    }
}

impl Dup for TurnCut {
    fn dup(&self) -> (res: Self) {
        TurnCut {
            payload: self.payload.dup(),
            state: self.state.dup(),
        }
    }
}

/// What a turn is told.
#[derive(Debug)]
pub enum TurnEvent {
    /// The model has replied.
    Streamed(StreamResult),
    /// The model could not be called, for this reason.
    StreamFailed(String),
    /// An entry has arrived.
    Inbound(QueueEntry),
    /// The turn is to stop.
    Interrupted(TurnCut),
    /// The engine shuts down; the stream had brought this much.
    Shutdown(TurnState),
    /// The plugins have seen a tool call: what they left of it, if anything.
    CallChecked(Option<OutputEvent>),
    /// A reply has gone out: its place in the history, if it got one.
    ReplyStored(Option<i64>),
    /// A tool has returned.
    ToolDone(ToolResultPayload),
    /// Every tool of the batch has returned.
    ToolsDone,
}

/// The mathematical value of a [`TurnEvent`].
#[verifier::ext_equal]
pub enum TurnEventView {
    Streamed(StreamResultView),
    StreamFailed(Seq<char>),
    Inbound(QueueEntryView),
    Interrupted(TurnCutView),
    Shutdown(TurnStateView),
    CallChecked(Option<OutputEventView>),
    ReplyStored(Option<i64>),
    ToolDone(ToolResultPayloadView),
    ToolsDone,
}

impl View for TurnEvent {
    type V = TurnEventView;

    open spec fn view(&self) -> TurnEventView {
        match self {
            TurnEvent::Streamed(x) => TurnEventView::Streamed(x@),
            TurnEvent::StreamFailed(x) => TurnEventView::StreamFailed(x@),
            TurnEvent::Inbound(x) => TurnEventView::Inbound(x@),
            TurnEvent::Interrupted(x) => TurnEventView::Interrupted(x@),
            TurnEvent::Shutdown(x) => TurnEventView::Shutdown(x@),
            TurnEvent::CallChecked(x) => TurnEventView::CallChecked(x.deep_view()),
            TurnEvent::ReplyStored(x) => TurnEventView::ReplyStored(*x),
            TurnEvent::ToolDone(x) => TurnEventView::ToolDone(x@),
            TurnEvent::ToolsDone => TurnEventView::ToolsDone,
        }
    }
}

impl DeepView for TurnEvent {
    type V = TurnEventView;

    open spec fn deep_view(&self) -> TurnEventView {
        self@
    }
}

impl Dup for TurnEvent {
    fn dup(&self) -> (res: Self) {
        match self {
            TurnEvent::Streamed(x) => TurnEvent::Streamed(x.dup()),
            TurnEvent::StreamFailed(x) => TurnEvent::StreamFailed(x.dup()),
            TurnEvent::Inbound(x) => TurnEvent::Inbound(x.dup()),
            TurnEvent::Interrupted(x) => TurnEvent::Interrupted(x.dup()),
            TurnEvent::Shutdown(x) => TurnEvent::Shutdown(x.dup()),
            TurnEvent::CallChecked(x) => TurnEvent::CallChecked(x.dup()),
            TurnEvent::ReplyStored(x) => TurnEvent::ReplyStored(*x),
            TurnEvent::ToolDone(x) => TurnEvent::ToolDone(x.dup()),
            TurnEvent::ToolsDone => TurnEvent::ToolsDone,
        }
    }
}

/// What a turn asks for.
#[derive(Debug)]
pub enum TurnAction {
    /// Make a request of the history and call the model.
    CallModel,
    /// Show a tool call to the plugins.
    CheckCall(OutputEvent),
    /// Show an event that has passed the plugins.
    Deliver(OutputEvent),
    /// Remember what the last final reply used.
    KeepUsage(StreamUsage),
    /// Put a reply on record, bill it, and say where it stands.
    StoreReply(OutputEvent),
    /// Send an event.
    Send(Outgoing),
    /// Take a snapshot of the files, anchored to a reply.
    Snapshot(i64),
    /// Run a batch of tools.
    RunTools(Vec<ToolCallData>),
    /// Tell the running tools to stop.
    CancelTools,
    /// Work through a batch of entries.
    Consume(Vec<BatchStep>),
    /// The turn is over.
    Finish(TurnOutcome),
}

/// The mathematical value of a [`TurnAction`].
#[verifier::ext_equal]
pub enum TurnActionView {
    CallModel,
    CheckCall(OutputEventView),
    Deliver(OutputEventView),
    KeepUsage(StreamUsage),
    StoreReply(OutputEventView),
    Send(OutgoingView),
    Snapshot(i64),
    RunTools(Seq<ToolCallDataView>),
    CancelTools,
    Consume(Seq<BatchStepView>),
    Finish(TurnOutcome),
}

impl View for TurnAction {
    type V = TurnActionView;

    open spec fn view(&self) -> TurnActionView {
        match self {
            TurnAction::CallModel => TurnActionView::CallModel,
            TurnAction::CheckCall(x) => TurnActionView::CheckCall(x@),
            TurnAction::Deliver(x) => TurnActionView::Deliver(x@),
            TurnAction::KeepUsage(x) => TurnActionView::KeepUsage(*x),
            TurnAction::StoreReply(x) => TurnActionView::StoreReply(x@),
            TurnAction::Send(x) => TurnActionView::Send(x@),
            TurnAction::Snapshot(x) => TurnActionView::Snapshot(*x),
            TurnAction::RunTools(x) => TurnActionView::RunTools(x.deep_view()),
            TurnAction::CancelTools => TurnActionView::CancelTools,
            TurnAction::Consume(x) => TurnActionView::Consume(x.deep_view()),
            TurnAction::Finish(x) => TurnActionView::Finish(*x),
        }
    }
}

impl DeepView for TurnAction {
    type V = TurnActionView;

    open spec fn deep_view(&self) -> TurnActionView {
        self@
    }
}

impl Dup for TurnAction {
    fn dup(&self) -> (res: Self) {
        match self {
            TurnAction::CallModel => TurnAction::CallModel,
            TurnAction::CheckCall(x) => TurnAction::CheckCall(x.dup()),
            TurnAction::Deliver(x) => TurnAction::Deliver(x.dup()),
            TurnAction::KeepUsage(x) => TurnAction::KeepUsage(*x),
            TurnAction::StoreReply(x) => TurnAction::StoreReply(x.dup()),
            TurnAction::Send(x) => TurnAction::Send(x.dup()),
            TurnAction::Snapshot(x) => TurnAction::Snapshot(*x),
            TurnAction::RunTools(x) => TurnAction::RunTools(x.dup()),
            TurnAction::CancelTools => TurnAction::CancelTools,
            TurnAction::Consume(x) => TurnAction::Consume(x.dup()),
            TurnAction::Finish(x) => TurnAction::Finish(*x),
        }
    }
}

/// A reply whose tool calls are being shown to the plugins.
#[derive(Debug)]
pub struct CheckedCalls {
    /// The reply.
    pub result: StreamResult,
    /// The call that the plugins are looking at.
    pub next: usize,
    /// What they have left of the calls before it.
    pub effective: Vec<ToolCallData>,
}

/// The mathematical value of a [`CheckedCalls`].
#[verifier::ext_equal]
pub struct CheckedCallsView {
    pub result: StreamResultView,
    pub next: usize,
    pub effective: Seq<ToolCallDataView>,
}

impl View for CheckedCalls {
    type V = CheckedCallsView;

    open spec fn view(&self) -> CheckedCallsView {
        CheckedCallsView {
            result: self.result@,
            next: self.next,
            effective: self.effective.deep_view(),
        }
    }
}

impl DeepView for CheckedCalls {
    type V = CheckedCallsView;

    open spec fn deep_view(&self) -> CheckedCallsView {
        self@
    }
}

impl Dup for CheckedCalls {
    fn dup(&self) -> (res: Self) {
        CheckedCalls {
            result: self.result.dup(),
            next: self.next,
            effective: self.effective.dup(),
        }
    }
}

/// What a turn remembers for its snapshots of the files.
#[derive(Clone, Copy, Debug)]
pub struct TurnLedger {
    /// Where the last reply that was stored stands in the history.
    pub last_assistant_seq: Option<i64>,
    /// Whether a batch of tools was run for a reply that was stored.
    pub tool_batch_tracked: bool,
}

impl TurnLedger {
    /// Nothing yet.
    pub open spec fn blank() -> TurnLedger {
        TurnLedger { last_assistant_seq: None, tool_batch_tracked: false }
    }

    /// A batch counts only where there is a reply to anchor it to.
    pub open spec fn wf(self) -> bool {
        self.tool_batch_tracked ==> self.last_assistant_seq is Some
    }

    /// The ledger after a reply has gone out. One that was not stored does not
    /// replace the last that was.
    pub open spec fn with_reply(self, seq: Option<i64>) -> TurnLedger {
        TurnLedger {
            last_assistant_seq: if seq is Some {
                seq
            } else {
                self.last_assistant_seq
            },
            ..self
        }
    }

    /// The ledger after a batch has been started for a reply.
    pub open spec fn with_batch(self, seq: Option<i64>) -> TurnLedger {
        TurnLedger { tool_batch_tracked: self.tool_batch_tracked || seq is Some, ..self }
    }

    /// The reply that the last snapshot of the turn is anchored to. A turn without
    /// tools takes none.
    pub open spec fn final_anchor(self) -> Option<i64> {
        if self.tool_batch_tracked {
            self.last_assistant_seq
        } else {
            None
        }
    }

    /// Takes note of a reply that has gone out.
    pub fn note_reply(&mut self, seq: Option<i64>)
        ensures
            *final(self) == old(self).with_reply(seq),
    {
        if seq.is_some() {
            self.last_assistant_seq = seq;
        }
    }

    /// Takes note of a batch that has been started.
    pub fn note_batch(&mut self, seq: Option<i64>)
        ensures
            *final(self) == old(self).with_batch(seq),
    {
        self.tool_batch_tracked = self.tool_batch_tracked || seq.is_some();
    }

    /// The reply that the last snapshot of the turn is anchored to.
    pub fn track_at_turn_end(&self) -> (res: Option<i64>)
        ensures
            res == self.final_anchor(),
    {
        if !self.tool_batch_tracked {
            return None;
        }
        self.last_assistant_seq
    }
}

/// A batch of tools that is running.
pub struct ToolBatch {
    /// The calls that are being carried out.
    pub requested: Vec<ToolCallData>,
    /// The calls that have a result.
    pub answered: StringHashSet,
}

/// The mathematical value of a [`ToolBatch`].
#[verifier::ext_equal]
pub struct ToolBatchView {
    pub requested: Seq<ToolCallDataView>,
    pub answered: Set<Seq<char>>,
}

impl View for ToolBatch {
    type V = ToolBatchView;

    open spec fn view(&self) -> ToolBatchView {
        ToolBatchView { requested: self.requested.deep_view(), answered: self.answered@ }
    }
}

/// Where a turn stands.
pub enum TurnStage {
    /// The model has been called.
    Streaming,
    /// The plugins are looking at the calls of a reply.
    Checking(CheckedCalls),
    /// A final reply is being stored.
    FinalReply,
    /// A reply is being stored; these calls are to be carried out.
    ToolReply(Vec<ToolCallData>),
    /// Tools are running.
    Tools(ToolBatch),
    /// The turn is over.
    Done(TurnOutcome),
}

/// The mathematical value of a [`TurnStage`].
#[verifier::ext_equal]
pub enum TurnStageView {
    Streaming,
    Checking(CheckedCallsView),
    FinalReply,
    ToolReply(Seq<ToolCallDataView>),
    Tools(ToolBatchView),
    Done(TurnOutcome),
}

impl View for TurnStage {
    type V = TurnStageView;

    open spec fn view(&self) -> TurnStageView {
        match self {
            TurnStage::Streaming => TurnStageView::Streaming,
            TurnStage::Checking(x) => TurnStageView::Checking(x@),
            TurnStage::FinalReply => TurnStageView::FinalReply,
            TurnStage::ToolReply(x) => TurnStageView::ToolReply(x.deep_view()),
            TurnStage::Tools(x) => TurnStageView::Tools(x@),
            TurnStage::Done(x) => TurnStageView::Done(*x),
        }
    }
}

/// A turn.
pub struct Turn {
    pub stage: TurnStage,
    pub ledger: TurnLedger,
}

/// The mathematical value of a [`Turn`].
#[verifier::ext_equal]
pub struct TurnView {
    pub stage: TurnStageView,
    pub ledger: TurnLedger,
}

impl View for Turn {
    type V = TurnView;

    open spec fn view(&self) -> TurnView {
        TurnView { stage: self.stage@, ledger: self.ledger }
    }
}

/// A turn with the queues of its session, and what it asks for.
#[verifier::ext_equal]
pub struct TurnNext {
    pub turn: TurnView,
    pub queues: QueuesView,
    pub actions: Seq<TurnActionView>,
}

impl TurnView {
    /// The calls that go with the reply which is being stored.
    pub open spec fn reply_calls(self) -> Seq<ToolCallDataView> {
        match self.stage {
            TurnStageView::ToolReply(calls) => calls,
            _ => Seq::empty(),
        }
    }

    /// The plugins are looking at a call that there is; the ledger is sound.
    pub open spec fn wf(self) -> bool {
        &&& self.ledger.wf()
        &&& self.stage is Checking ==> self.stage->Checking_0.next
            < self.stage->Checking_0.result.tool_calls.len()
    }
}

// ---- what the turn does, in mathematical terms ----

/// Events, sent in order.
pub open spec fn sends(outs: Seq<OutgoingView>) -> Seq<TurnActionView> {
    outs.map_values(|o| TurnActionView::Send(o))
}

/// An error that ends the turn.
pub open spec fn unrecoverable(message: Seq<char>) -> TurnActionView {
    TurnActionView::Send(
        OutgoingView::Notice(
            OutputEventView::Error(unsent(ErrorPayloadView { message, recoverable: false })),
        ),
    )
}

/// The end of a turn: a last snapshot where the turn ran tools, and then it is over.
pub open spec fn ending(ledger: TurnLedger, outcome: TurnOutcome) -> Seq<TurnActionView> {
    match ledger.final_anchor() {
        Some(seq) => seq![TurnActionView::Snapshot(seq), TurnActionView::Finish(outcome)],
        None => seq![TurnActionView::Finish(outcome)],
    }
}

/// What is said of a provider that is not registered.
pub open spec fn provider_missing(
    model: ResolvedModelView,
    available: Seq<Seq<char>>,
) -> Seq<char> {
    "Provider '"@ + model.provider_id + "' 未注册（model_id: '"@ + model.model_id + "'，可用: "@
        + quoted_list(available)
        + "）——供应商可能已被删除或未运行时注册，相关会话需切换到可用模型"@
}

/// How a turn begins, given what is known of its model and whether the provider is
/// registered.
pub open spec fn turn_start(
    model: Result<ResolvedModelView, Seq<char>>,
    registered: bool,
    available: Seq<Seq<char>>,
) -> (TurnView, Seq<TurnActionView>) {
    let failed = TurnView {
        stage: TurnStageView::Done(TurnOutcome::Failed),
        ledger: TurnLedger::blank(),
    };
    match model {
        Err(message) => (
            failed,
            seq![unrecoverable(message), TurnActionView::Finish(TurnOutcome::Failed)],
        ),
        Ok(m) => if registered {
            (
                TurnView { stage: TurnStageView::Streaming, ledger: TurnLedger::blank() },
                seq![TurnActionView::CallModel],
            )
        } else {
            (
                failed,
                seq![
                    unrecoverable(provider_missing(m, available)),
                    TurnActionView::Finish(TurnOutcome::Failed),
                ],
            )
        },
    }
}

/// A reply on its way into the history.
pub open spec fn store_reply(result: StreamResultView) -> TurnActionView {
    TurnActionView::StoreReply(OutputEventView::Assistant(unsent(assistant_payload_of(result))))
}

/// The model has replied. A reply without calls is final; the calls of any other
/// are shown to the plugins first.
pub open spec fn on_streamed(t: TurnView, q: QueuesView, result: StreamResultView) -> TurnNext {
    if result.tool_calls.len() == 0 {
        TurnNext {
            turn: TurnView { stage: TurnStageView::FinalReply, ..t },
            queues: q,
            actions: seq![TurnActionView::KeepUsage(result.usage), store_reply(result)],
        }
    } else {
        TurnNext {
            turn: TurnView {
                stage: TurnStageView::Checking(
                    CheckedCallsView { result, next: 0, effective: Seq::empty() },
                ),
                ..t
            },
            queues: q,
            actions: seq![TurnActionView::CheckCall(tool_call_event(result.tool_calls[0]))],
        }
    }
}

/// The calls that remain once the plugins have seen one more. A call that was
/// blocked does not remain; one that was changed remains as it was changed.
pub open spec fn with_checked(
    effective: Seq<ToolCallDataView>,
    checked: Option<OutputEventView>,
) -> Seq<ToolCallDataView> {
    match checked {
        Some(event) => match tool_call_in(event) {
            Some(call) => effective.push(call),
            None => effective,
        },
        None => effective,
    }
}

/// The plugins have seen a call. What they left of it is shown, and the next call
/// is up. After the last, the reply is stored with the calls that remain.
pub open spec fn on_call_checked(
    t: TurnView,
    q: QueuesView,
    c: CheckedCallsView,
    checked: Option<OutputEventView>,
) -> TurnNext {
    let effective = with_checked(c.effective, checked);
    let delivered = match checked {
        Some(event) => seq![TurnActionView::Deliver(event)],
        None => Seq::empty(),
    };
    if c.next + 1 < c.result.tool_calls.len() {
        TurnNext {
            turn: TurnView {
                stage: TurnStageView::Checking(
                    CheckedCallsView { next: (c.next + 1) as usize, effective, ..c },
                ),
                ..t
            },
            queues: q,
            actions: delivered + seq![
                TurnActionView::CheckCall(tool_call_event(c.result.tool_calls[c.next + 1])),
            ],
        }
    } else {
        TurnNext {
            turn: TurnView { stage: TurnStageView::ToolReply(effective), ..t },
            queues: q,
            actions: delivered + seq![
                store_reply(StreamResultView { tool_calls: effective, ..c.result }),
            ],
        }
    }
}

/// A batch of tools is done, or there was nothing to run: what waits in the guide
/// queue is worked through, and the model is called again.
pub open spec fn next_round(ledger: TurnLedger, q: QueuesView, paused: bool) -> TurnNext {
    TurnNext {
        turn: TurnView { stage: TurnStageView::Streaming, ledger },
        queues: q.after_take(paused, ConsumeTiming::AfterToolBatch),
        actions: seq![
            TurnActionView::Consume(
                batch_steps(q.takeable(paused, ConsumeTiming::AfterToolBatch)),
            ),
            TurnActionView::CallModel,
        ],
    }
}

/// A final reply has gone out: what waits in both queues is worked through. If it
/// holds a user message the model is called again, else the turn is complete.
pub open spec fn after_final_reply(ledger: TurnLedger, q: QueuesView, paused: bool) -> TurnNext {
    let entries = q.takeable(paused, ConsumeTiming::FinalReply);
    let consume = TurnActionView::Consume(batch_steps(entries));
    TurnNext {
        turn: TurnView {
            stage: if has_user(entries) {
                TurnStageView::Streaming
            } else {
                TurnStageView::Done(TurnOutcome::Completed)
            },
            ledger,
        },
        queues: q.after_take(paused, ConsumeTiming::FinalReply),
        actions: if has_user(entries) {
            seq![consume, TurnActionView::CallModel]
        } else {
            seq![consume] + ending(ledger, TurnOutcome::Completed)
        },
    }
}

/// A reply with calls has gone out: the files are recorded as they are before the
/// tools run, where there is a reply to anchor the record to.
pub open spec fn start_tools(
    ledger: TurnLedger,
    q: QueuesView,
    calls: Seq<ToolCallDataView>,
    seq: Option<i64>,
) -> TurnNext {
    let run = seq![TurnActionView::RunTools(calls)];
    TurnNext {
        turn: TurnView {
            stage: TurnStageView::Tools(
                ToolBatchView { requested: calls, answered: Set::empty() },
            ),
            ledger: ledger.with_batch(seq),
        },
        queues: q,
        actions: match seq {
            Some(s) => seq![TurnActionView::Snapshot(s)] + run,
            None => run,
        },
    }
}

/// The turn is cut short.
pub open spec fn on_cut(
    t: TurnView,
    q: QueuesView,
    last: Seq<TurnActionView>,
) -> TurnNext {
    TurnNext {
        turn: TurnView { stage: TurnStageView::Done(TurnOutcome::Interrupted), ..t },
        queues: q,
        actions: last + ending(t.ledger, TurnOutcome::Interrupted),
    }
}

/// What a turn comes to, given where it stands, the queues of its session, whether
/// consuming is paused, and what happened. What does not concern a turn where it
/// stands changes nothing.
pub open spec fn turn_step(t: TurnView, q: QueuesView, paused: bool, e: TurnEventView) -> TurnNext {
    let same = TurnNext { turn: t, queues: q, actions: Seq::empty() };
    match (e, t.stage) {
        (TurnEventView::Inbound(entry), _) => TurnNext { queues: q.put(entry), ..same },
        (TurnEventView::Streamed(result), TurnStageView::Streaming) => on_streamed(t, q, result),
        (TurnEventView::StreamFailed(cause), TurnStageView::Streaming) => TurnNext {
            turn: TurnView { stage: TurnStageView::Done(TurnOutcome::Failed), ..t },
            queues: q,
            actions: seq![unrecoverable("LLM 调用失败: "@ + cause)] + ending(
                t.ledger,
                TurnOutcome::Failed,
            ),
        },
        (TurnEventView::CallChecked(checked), TurnStageView::Checking(c)) => on_call_checked(
            t,
            q,
            c,
            checked,
        ),
        (TurnEventView::ReplyStored(seq), TurnStageView::FinalReply) => after_final_reply(
            t.ledger.with_reply(seq),
            q,
            paused,
        ),
        (TurnEventView::ReplyStored(seq), TurnStageView::ToolReply(calls)) => if calls.len() == 0 {
            next_round(t.ledger.with_reply(seq), q, paused)
        } else {
            start_tools(t.ledger.with_reply(seq), q, calls, seq)
        },
        (TurnEventView::ToolDone(result), TurnStageView::Tools(b)) => TurnNext {
            turn: TurnView {
                stage: TurnStageView::Tools(
                    ToolBatchView { answered: b.answered.insert(result.tool_call_id), ..b },
                ),
                ..t
            },
            queues: q,
            actions: sends(
                seq![OutgoingView::Record(OutputEventView::ToolResult(unsent(result)))],
            ),
        },
        (TurnEventView::ToolsDone, TurnStageView::Tools(b)) => next_round(t.ledger, q, paused),
        (TurnEventView::Interrupted(cut), TurnStageView::Streaming) => on_cut(
            t,
            q,
            sends(finished_streaming(cut.state, cut.payload)),
        ),
        (TurnEventView::Interrupted(cut), TurnStageView::Tools(b)) => on_cut(
            t,
            q,
            seq![TurnActionView::CancelTools] + sends(
                finished_tool_batch(b.requested, b.answered, cut.payload),
            ),
        ),
        (TurnEventView::Shutdown(state), TurnStageView::Streaming) => on_cut(
            t,
            q,
            sends(finished_streaming(state, shutdown_interrupt())),
        ),
        (TurnEventView::Shutdown(state), TurnStageView::Tools(b)) => on_cut(
            t,
            q,
            sends(finished_tool_batch(b.requested, b.answered, shutdown_interrupt())),
        ),
        _ => same,
    }
}

// ---- what the turn does ----

/// Sends events, in order.
fn push_sends(actions: &mut Vec<TurnAction>, outs: &Vec<Outgoing>)
    ensures
        final(actions).deep_view() == old(actions).deep_view() + sends(outs.deep_view()),
{
    let ghost before = actions.deep_view();
    let ghost all = outs.deep_view();
    let mut i: usize = 0;
    assert(before + sends(all.take(0)) =~= before);
    while i < outs.len()
        invariant
            i <= outs.len(),
            all == outs.deep_view(),
            actions.deep_view() == before + sends(all.take(i as int)),
        decreases outs.len() - i,
    {
        push_item(actions, TurnAction::Send(outs[i].dup()));
        i += 1;
        assert(actions.deep_view() =~= before + sends(all.take(i as int)));
    }
    assert(all.take(i as int) =~= all);
}

/// An error that ends the turn.
fn unrecoverable_error(message: String) -> (res: TurnAction)
    ensures
        res@ == unrecoverable(message@),
{
    TurnAction::Send(
        Outgoing::Notice(
            OutputEvent::Error(envelope(ErrorPayload { message, recoverable: false })),
        ),
    )
}

/// Ends the turn.
fn push_ending(actions: &mut Vec<TurnAction>, ledger: &TurnLedger, outcome: TurnOutcome)
    ensures
        final(actions).deep_view() == old(actions).deep_view() + ending(*ledger, outcome),
{
    let ghost before = actions.deep_view();
    if let Some(seq) = ledger.track_at_turn_end() {
        push_item(actions, TurnAction::Snapshot(seq));
    }
    push_item(actions, TurnAction::Finish(outcome));
    assert(actions.deep_view() =~= before + ending(*ledger, outcome));
}

/// Writes what is said of a provider that is not registered.
fn write_provider_missing(model: &ResolvedModel, available: &Vec<String>) -> (res: String)
    ensures
        res@ == provider_missing(model@, available.deep_view()),
{
    let a = concat3("Provider '", model.provider_id.as_str(), "' 未注册（model_id: '");
    let b = concat3(a.as_str(), model.model_id.as_str(), "'，可用: ");
    concat3(
        b.as_str(),
        quote_list(available).as_str(),
        "）——供应商可能已被删除或未运行时注册，相关会话需切换到可用模型",
    )
}

impl Turn {
    /// Begins a turn, given what is known of its model, whether the provider is
    /// registered, and which providers are.
    pub fn begin(
        model: &Result<ResolvedModel, String>,
        registered: bool,
        available: &Vec<String>,
    ) -> (res: (Turn, Vec<TurnAction>))
        ensures
            (res.0@, res.1.deep_view()) == turn_start(
                resolution_view(*model),
                registered,
                available.deep_view(),
            ),
            res.0@.wf(),
    {
        let ledger = TurnLedger { last_assistant_seq: None, tool_batch_tracked: false };
        let mut actions: Vec<TurnAction> = empty_list();
        let message = match model {
            Err(message) => message.dup(),
            Ok(m) => {
                if registered {
                    push_item(&mut actions, TurnAction::CallModel);
                    assert(actions.deep_view() =~= seq![TurnActionView::CallModel]);
                    return (Turn { stage: TurnStage::Streaming, ledger }, actions);
                }
                write_provider_missing(m, available)
            },
        };
        push_item(&mut actions, unrecoverable_error(message));
        push_item(&mut actions, TurnAction::Finish(TurnOutcome::Failed));
        assert(actions.deep_view() =~= seq![
            unrecoverable(message@),
            TurnActionView::Finish(TurnOutcome::Failed),
        ]);
        (Turn { stage: TurnStage::Done(TurnOutcome::Failed), ledger }, actions)
    }

    /// Works through the guide queue and calls the model again.
    fn start_round(
        ledger: TurnLedger,
        gate: &ConsumeGate,
        queues: &mut Queues,
    ) -> (res: (Turn, Vec<TurnAction>))
        ensures
            (TurnNext { turn: res.0@, queues: final(queues)@, actions: res.1.deep_view() })
                == next_round(ledger, old(queues)@, gate.is_paused()),
    {
        let ghost q = queues@;
        let entries = queues.take(gate, ConsumeTiming::AfterToolBatch);
        let mut actions: Vec<TurnAction> = empty_list();
        push_item(&mut actions, TurnAction::Consume(plan_batch(entries)));
        push_item(&mut actions, TurnAction::CallModel);
        assert(actions.deep_view() =~= next_round(ledger, q, gate.is_paused()).actions);
        (Turn { stage: TurnStage::Streaming, ledger }, actions)
    }

    /// A final reply has gone out.
    fn handle_final_reply(
        ledger: TurnLedger,
        gate: &ConsumeGate,
        queues: &mut Queues,
    ) -> (res: (Turn, Vec<TurnAction>))
        ensures
            (TurnNext { turn: res.0@, queues: final(queues)@, actions: res.1.deep_view() })
                == after_final_reply(ledger, old(queues)@, gate.is_paused()),
    {
        let entries = queues.take(gate, ConsumeTiming::FinalReply);
        let again = any_user(&entries);
        let mut actions: Vec<TurnAction> = empty_list();
        push_item(&mut actions, TurnAction::Consume(plan_batch(entries)));
        let ghost consume = TurnActionView::Consume(batch_steps(entries.deep_view()));
        assert(actions.deep_view() =~= seq![consume]);
        if again {
            push_item(&mut actions, TurnAction::CallModel);
            assert(actions.deep_view() =~= seq![consume, TurnActionView::CallModel]);
            (Turn { stage: TurnStage::Streaming, ledger }, actions)
        } else {
            push_ending(&mut actions, &ledger, TurnOutcome::Completed);
            (Turn { stage: TurnStage::Done(TurnOutcome::Completed), ledger }, actions)
        }
    }

    /// The model has replied.
    fn handle_reply(self, result: StreamResult) -> (res: (Turn, Vec<TurnAction>))
        ensures
            forall|q: QueuesView|
                (TurnNext { turn: res.0@, queues: q, actions: res.1.deep_view() })
                    == #[trigger] on_streamed(self@, q, result@),
    {
        let mut actions: Vec<TurnAction> = empty_list();
        if result.tool_calls.len() == 0 {
            push_item(&mut actions, TurnAction::KeepUsage(result.usage));
            let payload = assistant_payload(&result);
            push_item(
                &mut actions,
                TurnAction::StoreReply(OutputEvent::Assistant(envelope(payload))),
            );
            assert(actions.deep_view() =~= seq![
                TurnActionView::KeepUsage(result.usage),
                store_reply(result@),
            ]);
            (Turn { stage: TurnStage::FinalReply, ledger: self.ledger }, actions)
        } else {
            let event = tool_call_data_to_event(&result.tool_calls[0]);
            push_item(&mut actions, TurnAction::CheckCall(event));
            assert(actions.deep_view() =~= seq![
                TurnActionView::CheckCall(tool_call_event(result@.tool_calls[0])),
            ]);
            let c = CheckedCalls { result, next: 0, effective: empty_list() };
            (Turn { stage: TurnStage::Checking(c), ledger: self.ledger }, actions)
        }
    }

    /// The plugins have seen a call.
    fn handle_call_checked(
        ledger: TurnLedger,
        c: CheckedCalls,
        checked: Option<OutputEvent>,
    ) -> (res: (Turn, Vec<TurnAction>))
        requires
            c.next < c.result.tool_calls@.len(),
        ensures
            forall|t: TurnView, q: QueuesView|
                t.ledger == ledger ==> (TurnNext {
                    turn: res.0@,
                    queues: q,
                    actions: res.1.deep_view(),
                }) == #[trigger] on_call_checked(t, q, c@, checked.deep_view()),
    {
        let ghost before = c@;
        let ghost view = checked.deep_view();
        let mut actions: Vec<TurnAction> = empty_list();
        let mut effective = c.effective;
        if let Some(event) = checked {
            if let Some(call) = tool_call_event_to_data(&event) {
                push_item(&mut effective, call);
            }
            push_item(&mut actions, TurnAction::Deliver(event));
        }
        let ghost delivered = match view {
            Some(event) => seq![TurnActionView::Deliver(event)],
            None => Seq::empty(),
        };
        assert(actions.deep_view() =~= delivered);
        assert(effective.deep_view() == with_checked(before.effective, view));
        let count: usize = c.result.tool_calls.len();
        let next: usize = c.next + 1;
        if next < count {
            let event = tool_call_data_to_event(&c.result.tool_calls[next]);
            push_item(&mut actions, TurnAction::CheckCall(event));
            assert(actions.deep_view() =~= delivered + seq![
                TurnActionView::CheckCall(tool_call_event(before.result.tool_calls[next as int])),
            ]);
            let c = CheckedCalls { result: c.result, next, effective };
            (Turn { stage: TurnStage::Checking(c), ledger }, actions)
        } else {
            let result = StreamResult {
                text: c.result.text,
                reasoning: c.result.reasoning,
                tool_calls: effective,
                usage: c.result.usage,
            };
            let payload = assistant_payload(&result);
            push_item(
                &mut actions,
                TurnAction::StoreReply(OutputEvent::Assistant(envelope(payload))),
            );
            assert(actions.deep_view() =~= delivered + seq![store_reply(result@)]);
            (Turn { stage: TurnStage::ToolReply(result.tool_calls), ledger }, actions)
        }
    }

    /// A reply with calls has gone out.
    fn handle_tool_calls(ledger: TurnLedger, calls: Vec<ToolCallData>, seq: Option<i64>) -> (res: (
        Turn,
        Vec<TurnAction>,
    ))
        ensures
            forall|q: QueuesView|
                (TurnNext { turn: res.0@, queues: q, actions: res.1.deep_view() })
                    == #[trigger] start_tools(ledger, q, calls.deep_view(), seq),
    {
        let mut ledger = ledger;
        let mut actions: Vec<TurnAction> = empty_list();
        if let Some(s) = seq {
            push_item(&mut actions, TurnAction::Snapshot(s));
        }
        ledger.note_batch(seq);
        push_item(&mut actions, TurnAction::RunTools(calls.dup()));
        let ghost run = seq![TurnActionView::RunTools(calls.deep_view())];
        assert(actions.deep_view() =~= match seq {
            Some(s) => seq![TurnActionView::Snapshot(s)] + run,
            None => run,
        });
        let batch = ToolBatch { requested: calls, answered: StringHashSet::new() };
        (Turn { stage: TurnStage::Tools(batch), ledger }, actions)
    }

    /// The turn is cut short, once what is left to do has been done.
    fn cut(ledger: TurnLedger, actions: Vec<TurnAction>) -> (res: (Turn, Vec<TurnAction>))
        ensures
            forall|t: TurnView, q: QueuesView|
                t.ledger == ledger ==> (TurnNext {
                    turn: res.0@,
                    queues: q,
                    actions: res.1.deep_view(),
                }) == #[trigger] on_cut(t, q, actions.deep_view()),
    {
        let mut actions = actions;
        push_ending(&mut actions, &ledger, TurnOutcome::Interrupted);
        (Turn { stage: TurnStage::Done(TurnOutcome::Interrupted), ledger }, actions)
    }

    /// Tells a turn what happened. Returns the turn as it stands then, and what it
    /// asks for, in order. After an interrupt or a shutdown it asks for nothing
    /// more once the actions of this step are done.
    pub fn step(self, gate: &ConsumeGate, queues: &mut Queues, event: TurnEvent) -> (res: (
        Turn,
        Vec<TurnAction>,
    ))
        requires
            self@.wf(),
        ensures
            (TurnNext { turn: res.0@, queues: final(queues)@, actions: res.1.deep_view() })
                == turn_step(self@, old(queues)@, gate.is_paused(), event@),
            res.0@.wf(),
    {
        let ghost t = self@;
        let ghost q = queues@;
        let ledger = self.ledger;
        match event {
            TurnEvent::Inbound(entry) => {
                queues.put(entry);
                (self, empty_list())
            },
            TurnEvent::Streamed(result) => match self.stage {
                TurnStage::Streaming => {
                    let turn = Turn { stage: TurnStage::Streaming, ledger };
                    let res = turn.handle_reply(result);
                    assert(on_streamed(t, q, result@).queues == q);
                    res
                },
                stage => (Turn { stage, ledger }, empty_list()),
            },
            TurnEvent::StreamFailed(cause) => match self.stage {
                TurnStage::Streaming => {
                    let mut actions: Vec<TurnAction> = empty_list();
                    let message = concat("LLM 调用失败: ", cause.as_str());
                    push_item(&mut actions, unrecoverable_error(message));
                    assert(actions.deep_view() =~= seq![
                        unrecoverable("LLM 调用失败: "@ + cause@),
                    ]);
                    push_ending(&mut actions, &ledger, TurnOutcome::Failed);
                    (Turn { stage: TurnStage::Done(TurnOutcome::Failed), ledger }, actions)
                },
                stage => (Turn { stage, ledger }, empty_list()),
            },
            TurnEvent::CallChecked(checked) => match self.stage {
                TurnStage::Checking(c) => {
                    let ghost v = checked.deep_view();
                    let ghost cv = c@;
                    let res = Turn::handle_call_checked(ledger, c, checked);
                    assert(on_call_checked(t, q, cv, v).queues == q);
                    res
                },
                stage => (Turn { stage, ledger }, empty_list()),
            },
            TurnEvent::ReplyStored(seq) => match self.stage {
                TurnStage::FinalReply => {
                    let mut ledger = ledger;
                    ledger.note_reply(seq);
                    Turn::handle_final_reply(ledger, gate, queues)
                },
                TurnStage::ToolReply(calls) => {
                    let mut ledger = ledger;
                    ledger.note_reply(seq);
                    if calls.len() == 0 {
                        Turn::start_round(ledger, gate, queues)
                    } else {
                        let ghost cv = calls.deep_view();
                        let res = Turn::handle_tool_calls(ledger, calls, seq);
                        assert(start_tools(ledger, q, cv, seq).queues == q);
                        res
                    }
                },
                stage => (Turn { stage, ledger }, empty_list()),
            },
            TurnEvent::ToolDone(result) => match self.stage {
                TurnStage::Tools(b) => {
                    let mut b = b;
                    b.answered.insert(result.tool_call_id.dup());
                    let mut actions: Vec<TurnAction> = empty_list();
                    let ghost rv = result@;
                    push_item(
                        &mut actions,
                        TurnAction::Send(
                            Outgoing::Record(OutputEvent::ToolResult(envelope(result))),
                        ),
                    );
                    assert(actions.deep_view() =~= sends(
                        seq![OutgoingView::Record(OutputEventView::ToolResult(unsent(rv)))],
                    ));
                    (Turn { stage: TurnStage::Tools(b), ledger }, actions)
                },
                stage => (Turn { stage, ledger }, empty_list()),
            },
            TurnEvent::ToolsDone => match self.stage {
                TurnStage::Tools(_) => Turn::start_round(ledger, gate, queues),
                stage => (Turn { stage, ledger }, empty_list()),
            },
            TurnEvent::Interrupted(cut) => match self.stage {
                TurnStage::Streaming => {
                    let mut actions: Vec<TurnAction> = empty_list();
                    push_sends(&mut actions, &finish_streaming(&cut.state, &cut.payload));
                    let ghost last = sends(finished_streaming(cut@.state, cut@.payload));
                    assert(actions.deep_view() =~= last);
                    let res = Turn::cut(ledger, actions);
                    assert(on_cut(t, q, last).queues == q);
                    res
                },
                TurnStage::Tools(b) => {
                    let mut actions: Vec<TurnAction> = empty_list();
                    push_item(&mut actions, TurnAction::CancelTools);
                    push_sends(
                        &mut actions,
                        &finish_tool_batch(&b.requested, &b.answered, &cut.payload),
                    );
                    let ghost last = seq![TurnActionView::CancelTools] + sends(
                        finished_tool_batch(b@.requested, b@.answered, cut@.payload),
                    );
                    assert(actions.deep_view() =~= last);
                    let res = Turn::cut(ledger, actions);
                    assert(on_cut(t, q, last).queues == q);
                    res
                },
                stage => (Turn { stage, ledger }, empty_list()),
            },
            TurnEvent::Shutdown(state) => match self.stage {
                TurnStage::Streaming => {
                    let mut actions: Vec<TurnAction> = empty_list();
                    push_sends(&mut actions, &finish_streaming(&state, &shutdown_payload()));
                    let ghost last = sends(finished_streaming(state@, shutdown_interrupt()));
                    assert(actions.deep_view() =~= last);
                    let res = Turn::cut(ledger, actions);
                    assert(on_cut(t, q, last).queues == q);
                    res
                },
                TurnStage::Tools(b) => {
                    let mut actions: Vec<TurnAction> = empty_list();
                    push_sends(
                        &mut actions,
                        &finish_tool_batch(&b.requested, &b.answered, &shutdown_payload()),
                    );
                    let ghost last = sends(
                        finished_tool_batch(b@.requested, b@.answered, shutdown_interrupt()),
                    );
                    assert(actions.deep_view() =~= last);
                    let res = Turn::cut(ledger, actions);
                    assert(on_cut(t, q, last).queues == q);
                    res
                },
                stage => (Turn { stage, ledger }, empty_list()),
            },
        }
    }

    /// The calls that go with the reply which is being stored, and are run next.
    pub fn reply_calls(&self) -> (res: Vec<ToolCallData>)
        ensures
            res.deep_view() == self@.reply_calls(),
    {
        match &self.stage {
            TurnStage::ToolReply(calls) => calls.dup(),
            _ => empty_list(),
        }
    }

    /// Why the turn ended, if it has.
    pub fn outcome(&self) -> (res: Option<TurnOutcome>)
        ensures
            res == if self@.stage is Done {
                Some(self@.stage->Done_0)
            } else {
                None
            },
    {
        match self.stage {
            TurnStage::Done(outcome) => Some(outcome),
            _ => None,
        }
    }
}

// ---- laws ----

/// Where a turn stands after a row of events, and everything it asked for.
pub open spec fn turn_run(
    t: TurnView,
    q: QueuesView,
    paused: bool,
    events: Seq<TurnEventView>,
) -> TurnNext
    decreases events.len(),
{
    if events.len() == 0 {
        TurnNext { turn: t, queues: q, actions: Seq::empty() }
    } else {
        let n = turn_run(t, q, paused, events.drop_last());
        let m = turn_step(n.turn, n.queues, paused, events.last());
        TurnNext { turn: m.turn, queues: m.queues, actions: n.actions + m.actions }
    }
}

/// How often a row of actions says that the turn is over.
pub open spec fn endings(actions: Seq<TurnActionView>) -> nat {
    actions.filter(|a: TurnActionView| a is Finish).len()
}

proof fn lemma_endings_add(a: Seq<TurnActionView>, b: Seq<TurnActionView>)
    ensures
        endings(a + b) == endings(a) + endings(b),
{
    Seq::filter_distributes_over_add(a, b, |x: TurnActionView| x is Finish);
}

proof fn lemma_no_endings(a: Seq<TurnActionView>)
    requires
        forall|i: int| 0 <= i < a.len() ==> !((#[trigger] a[i]) is Finish),
    ensures
        endings(a) == 0,
    decreases a.len(),
{
    reveal(Seq::filter);
    if a.len() > 0 {
        lemma_no_endings(a.drop_last());
    }
}

proof fn lemma_one_ending(ledger: TurnLedger, outcome: TurnOutcome)
    ensures
        endings(ending(ledger, outcome)) == 1,
        ending(ledger, outcome).last() == TurnActionView::Finish(outcome),
{
    let last = seq![TurnActionView::Finish(outcome)];
    let is_end = |a: TurnActionView| a is Finish;
    reveal_with_fuel(Seq::filter, 3);
    assert(last.drop_last() =~= Seq::empty());
    assert(last.filter(is_end).len() == 1);
    if let Some(seq) = ledger.final_anchor() {
        let head = seq![TurnActionView::Snapshot(seq)];
        lemma_no_endings(head);
        lemma_endings_add(head, last);
        assert(head + last =~= ending(ledger, outcome));
    }
}

/// A turn that is over stays over and asks for nothing. Until then, a step says
/// that the turn is over exactly if it is over after the step; it says so once, as
/// the last thing, and gives the reason.
pub proof fn law_a_turn_ends_once(t: TurnView, q: QueuesView, paused: bool, e: TurnEventView)
    ensures
        ({
            let n = turn_step(t, q, paused, e);
            &&& t.stage is Done ==> n.turn == t && n.actions.len() == 0
            &&& !(t.stage is Done) && n.turn.stage is Done ==> endings(n.actions) == 1
                && n.actions.last() == TurnActionView::Finish(n.turn.stage->Done_0)
            &&& !(t.stage is Done) && !(n.turn.stage is Done) ==> endings(n.actions) == 0
        }),
{
    let n = turn_step(t, q, paused, e);
    if !(t.stage is Done) {
        if n.turn.stage is Done {
            let outcome = n.turn.stage->Done_0;
            let end = ending(n.turn.ledger, outcome);
            lemma_one_ending(n.turn.ledger, outcome);
            let head = n.actions.take(n.actions.len() - end.len());
            assert(n.actions =~= head + end);
            lemma_no_endings(head);
            lemma_endings_add(head, end);
        } else {
            lemma_no_endings(n.actions);
        }
    }
}

/// Over any row of events a turn says once that it is over if it ever is, and
/// otherwise never.
pub proof fn law_a_run_ends_once(
    t: TurnView,
    q: QueuesView,
    paused: bool,
    events: Seq<TurnEventView>,
)
    requires
        !(t.stage is Done),
    ensures
        endings(turn_run(t, q, paused, events).actions) == if turn_run(
            t,
            q,
            paused,
            events,
        ).turn.stage is Done {
            1nat
        } else {
            0nat
        },
    decreases events.len(),
{
    if events.len() == 0 {
        lemma_no_endings(Seq::empty());
    } else {
        law_a_run_ends_once(t, q, paused, events.drop_last());
        let n = turn_run(t, q, paused, events.drop_last());
        law_a_turn_ends_once(n.turn, n.queues, paused, events.last());
        let m = turn_step(n.turn, n.queues, paused, events.last());
        lemma_endings_add(n.actions, m.actions);
        if n.turn.stage is Done {
            lemma_no_endings(m.actions);
        }
    }
}

/// A turn that completes leaves nothing in the queues, and nothing unanswered: it
/// completes only after a final reply, when no user message waits.
pub proof fn law_completed_means_drained(t: TurnView, q: QueuesView, e: TurnEventView)
    requires
        !(t.stage is Done),
        turn_step(t, q, false, e).turn.stage == TurnStageView::Done(TurnOutcome::Completed),
    ensures
        turn_step(t, q, false, e).queues.is_empty(),
        t.stage is FinalReply,
        !has_user(q.guide + q.pending),
{
}

/// After a final reply the turn goes on exactly if a user message waits in either
/// queue; then all that waits is worked through and the model is called again.
pub proof fn law_final_reply_answers_waiting_messages(
    t: TurnView,
    q: QueuesView,
    seq: Option<i64>,
)
    requires
        t.stage is FinalReply,
    ensures
        ({
            let n = turn_step(t, q, false, TurnEventView::ReplyStored(seq));
            &&& n.queues.is_empty()
            &&& n.actions[0] == TurnActionView::Consume(batch_steps(q.guide + q.pending))
            &&& has_user(q.guide + q.pending) ==> n.turn.stage is Streaming && n.actions.last()
                == TurnActionView::CallModel
            &&& !has_user(q.guide + q.pending) ==> n.turn.stage == TurnStageView::Done(
                TurnOutcome::Completed,
            )
        }),
{
}

/// An interrupt or a shutdown stops a turn that is calling the model or running
/// tools, and leaves the queues as they are.
pub proof fn law_a_cut_keeps_the_queues(t: TurnView, q: QueuesView, paused: bool, e: TurnEventView)
    requires
        e is Interrupted || e is Shutdown,
    ensures
        turn_step(t, q, paused, e).queues == q,
        t.stage is Streaming || t.stage is Tools ==> turn_step(t, q, paused, e).turn.stage
            == TurnStageView::Done(TurnOutcome::Interrupted),
{
}

/// An entry that arrives only joins its queue: the turn goes on as it was.
pub proof fn law_arrivals_do_not_disturb(
    t: TurnView,
    q: QueuesView,
    paused: bool,
    entry: QueueEntryView,
)
    ensures
        ({
            let n = turn_step(t, q, paused, TurnEventView::Inbound(entry));
            n.turn == t && n.actions.len() == 0 && n.queues == q.put(entry)
        }),
{
}

/// Every snapshot is anchored to the last reply that was stored, and a ledger that
/// is sound stays so.
pub proof fn law_snapshots_are_anchored(
    t: TurnView,
    q: QueuesView,
    paused: bool,
    e: TurnEventView,
    i: int,
)
    requires
        t.wf(),
    ensures
        ({
            let n = turn_step(t, q, paused, e);
            &&& n.turn.wf()
            &&& 0 <= i < n.actions.len() && n.actions[i] is Snapshot
                ==> n.turn.ledger.last_assistant_seq == Some(n.actions[i]->Snapshot_0)
        }),
{
}

/// A turn that never ran tools takes no snapshot when it ends.
pub proof fn law_plain_turns_take_no_snapshot(ledger: TurnLedger, outcome: TurnOutcome)
    requires
        !ledger.tool_batch_tracked,
    ensures
        ending(ledger, outcome) == seq![TurnActionView::Finish(outcome)],
{
}

/// The calls that are stored with a reply are the calls that are run, and they are
/// what the plugins left of the calls that the model made when they saw them one by
/// one. This holds whatever the plugins make of the reply when they see it as a whole
/// (`rewritten`), and wherever it is stored (`seq`): a call that they held back is not
/// stored and not run, and one that they write into the reply is neither.
pub proof fn law_stored_calls_are_the_ones_run(
    t: TurnView,
    q: QueuesView,
    paused: bool,
    checked: Option<OutputEventView>,
    rewritten: OutputEventView,
    bill: Option<BillView>,
    seq: Option<i64>,
)
    requires
        t.stage is Checking,
        turn_step(t, q, paused, TurnEventView::CallChecked(checked)).turn.stage is ToolReply,
    ensures
        ({
            let c = t.stage->Checking_0;
            let calls = with_checked(c.effective, checked);
            let n = turn_step(t, q, paused, TurnEventView::CallChecked(checked));
            let m = turn_step(n.turn, n.queues, paused, TurnEventView::ReplyStored(seq));
            let e = emission_of(Some(with_calls(rewritten, n.turn.reply_calls())), bill);
            &&& n.actions.last() == store_reply(
                StreamResultView { tool_calls: calls, ..c.result },
            )
            &&& rewritten is Assistant ==> e is Stored && e->Stored_1.tool_calls == if calls.len()
                == 0 {
                None
            } else {
                Some(calls)
            }
            &&& !(rewritten is Assistant) && e is Stored ==> e->Stored_1.tool_calls is None
            &&& calls.len() > 0 ==> m.actions.last() == TurnActionView::RunTools(calls)
            &&& calls.len() == 0 ==> m.actions.last() == TurnActionView::CallModel
        }),
{
    let n = turn_step(t, q, paused, TurnEventView::CallChecked(checked));
    law_a_stored_reply_holds_the_given_calls(rewritten, n.turn.reply_calls(), bill);
}

/// Tools are run only when the reply that calls them has gone out, and then exactly
/// those that go with it.
pub proof fn law_only_the_calls_of_a_reply_are_run(
    t: TurnView,
    q: QueuesView,
    paused: bool,
    e: TurnEventView,
    i: int,
)
    requires
        0 <= i < turn_step(t, q, paused, e).actions.len(),
        turn_step(t, q, paused, e).actions[i] is RunTools,
    ensures
        e is ReplyStored,
        t.reply_calls().len() > 0,
        turn_step(t, q, paused, e).actions[i]->RunTools_0 == t.reply_calls(),
{
}

/// Whether a row of actions puts a result for a call on record.
pub open spec fn records_answer(actions: Seq<TurnActionView>, id: Seq<char>) -> bool {
    exists|i: int|
        0 <= i < actions.len() && (#[trigger] actions[i]) is Send && answers(
            actions[i]->Send_0,
            id,
        )
}

proof fn lemma_records_answer_grows(a: Seq<TurnActionView>, b: Seq<TurnActionView>, id: Seq<char>)
    requires
        records_answer(a, id) || records_answer(b, id),
    ensures
        records_answer(a + b, id),
{
    if records_answer(a, id) {
        let i = choose|i: int|
            0 <= i < a.len() && (#[trigger] a[i]) is Send && answers(a[i]->Send_0, id);
        assert((a + b)[i] == a[i]);
    } else {
        let i = choose|i: int|
            0 <= i < b.len() && (#[trigger] b[i]) is Send && answers(b[i]->Send_0, id);
        assert((a + b)[a.len() + i] == b[i]);
    }
}

proof fn lemma_sends_answer(outs: Seq<OutgoingView>, id: Seq<char>)
    requires
        some_answers(outs, id),
    ensures
        records_answer(sends(outs), id),
{
    let i = choose|i: int| 0 <= i < outs.len() && answers(#[trigger] outs[i], id);
    assert(sends(outs)[i] == TurnActionView::Send(outs[i]));
}

/// Events that leave a batch of tools running: tools return, entries arrive.
pub open spec fn only_progress(events: Seq<TurnEventView>) -> bool {
    forall|i: int|
        0 <= i < events.len() ==> ((#[trigger] events[i]) is ToolDone || events[i] is Inbound)
}

proof fn lemma_progress(
    t: TurnView,
    q: QueuesView,
    paused: bool,
    events: Seq<TurnEventView>,
    id: Seq<char>,
)
    requires
        t.stage is Tools,
        only_progress(events),
    ensures
        ({
            let n = turn_run(t, q, paused, events);
            &&& n.turn.stage is Tools
            &&& n.turn.ledger == t.ledger
            &&& n.turn.stage->Tools_0.requested == t.stage->Tools_0.requested
            &&& n.turn.stage->Tools_0.answered.contains(id)
                ==> t.stage->Tools_0.answered.contains(id) || records_answer(n.actions, id)
        }),
    decreases events.len(),
{
    if events.len() > 0 {
        let front = events.drop_last();
        assert forall|i: int| 0 <= i < front.len() implies ((#[trigger] front[i]) is ToolDone
            || front[i] is Inbound) by {
            assert(front[i] == events[i]);
        }
        lemma_progress(t, q, paused, front, id);
        let n = turn_run(t, q, paused, front);
        let e = events.last();
        let m = turn_step(n.turn, n.queues, paused, e);
        assert(events[events.len() - 1] is ToolDone || events[events.len() - 1] is Inbound);
        if records_answer(n.actions, id) {
            lemma_records_answer_grows(n.actions, m.actions, id);
        }
        if e is ToolDone && e->ToolDone_0.tool_call_id == id {
            assert(m.actions[0] is Send && answers(m.actions[0]->Send_0, id));
            lemma_records_answer_grows(n.actions, m.actions, id);
        }
    }
}

/// However many tools have returned when a batch is cut short, in the end every
/// call that can be answered has a result on record.
pub proof fn law_a_cut_batch_is_answered(
    t: TurnView,
    q: QueuesView,
    paused: bool,
    events: Seq<TurnEventView>,
    cut: TurnEventView,
    k: int,
)
    requires
        t.stage is Tools,
        t.stage->Tools_0.answered == Set::<Seq<char>>::empty(),
        only_progress(events),
        cut is Interrupted || cut is Shutdown,
        0 <= k < t.stage->Tools_0.requested.len(),
        valid_call(t.stage->Tools_0.requested[k]),
    ensures
        ({
            let n = turn_run(t, q, paused, events.push(cut));
            &&& n.turn.stage == TurnStageView::Done(TurnOutcome::Interrupted)
            &&& records_answer(n.actions, t.stage->Tools_0.requested[k].id)
        }),
{
    let id = t.stage->Tools_0.requested[k].id;
    lemma_progress(t, q, paused, events, id);
    let all = events.push(cut);
    assert(all.drop_last() =~= events);
    let n = turn_run(t, q, paused, events);
    let b = n.turn.stage->Tools_0;
    let m = turn_step(n.turn, n.queues, paused, cut);
    if b.answered.contains(id) {
        lemma_records_answer_grows(n.actions, m.actions, id);
    } else {
        let payload = if cut is Interrupted {
            cut->Interrupted_0.payload
        } else {
            shutdown_interrupt()
        };
        let outs = finished_tool_batch(b.requested, b.answered, payload);
        law_interrupted_batch_answers_the_rest(b.requested, b.answered, payload, id);
        assert(valid_call(b.requested[k]) && b.requested[k].id == id);
        lemma_sends_answer(outs, id);
        let end = ending(n.turn.ledger, TurnOutcome::Interrupted);
        if cut is Interrupted {
            let head = seq![TurnActionView::CancelTools];
            lemma_records_answer_grows(head, sends(outs), id);
            lemma_records_answer_grows(head + sends(outs), end, id);
        } else {
            lemma_records_answer_grows(sends(outs), end, id);
        }
        lemma_records_answer_grows(n.actions, m.actions, id);
    }
}

/// The entries that a row of actions works through, in order.
pub open spec fn consumed(actions: Seq<TurnActionView>) -> Seq<QueueEntryView>
    decreases actions.len(),
{
    if actions.len() == 0 {
        Seq::empty()
    } else {
        consumed(actions.drop_last()) + match actions.last() {
            TurnActionView::Consume(steps) => entries_of(steps),
            _ => Seq::empty(),
        }
    }
}

/// The entries that arrive in a row of events.
pub open spec fn arrived(events: Seq<TurnEventView>) -> Seq<QueueEntryView>
    decreases events.len(),
{
    if events.len() == 0 {
        Seq::empty()
    } else {
        let before = arrived(events.drop_last());
        match events.last() {
            TurnEventView::Inbound(entry) => before.push(entry),
            _ => before,
        }
    }
}

proof fn lemma_consumed_add(a: Seq<TurnActionView>, b: Seq<TurnActionView>)
    ensures
        consumed(a + b) == consumed(a) + consumed(b),
    decreases b.len(),
{
    if b.len() == 0 {
        assert(a + b =~= a);
        assert(consumed(a) + consumed(b) =~= consumed(a));
    } else {
        assert((a + b).drop_last() =~= a + b.drop_last());
        lemma_consumed_add(a, b.drop_last());
        assert(consumed(a + b) =~= consumed(a) + consumed(b));
    }
}

proof fn lemma_nothing_consumed(a: Seq<TurnActionView>)
    requires
        forall|i: int| 0 <= i < a.len() ==> !((#[trigger] a[i]) is Consume),
    ensures
        consumed(a) == Seq::<QueueEntryView>::empty(),
    decreases a.len(),
{
    if a.len() > 0 {
        lemma_nothing_consumed(a.drop_last());
        assert(!(a[a.len() - 1] is Consume));
        assert(consumed(a) =~= Seq::empty());
    }
}

/// What a step takes from the queues, it works through, in order; and what it does
/// not work through is still there.
pub proof fn law_a_step_loses_nothing(t: TurnView, q: QueuesView, paused: bool, e: TurnEventView)
    requires
        !(e is Inbound),
    ensures
        ({
            let n = turn_step(t, q, paused, e);
            consumed(n.actions) + n.queues.guide + n.queues.pending == q.guide + q.pending
        }),
{
    let n = turn_step(t, q, paused, e);
    if n.actions.len() > 0 && n.actions[0] is Consume {
        let timing = if t.stage is FinalReply {
            ConsumeTiming::FinalReply
        } else {
            ConsumeTiming::AfterToolBatch
        };
        let entries = q.takeable(paused, timing);
        let head = seq![n.actions[0]];
        let rest = n.actions.skip(1);
        assert(n.actions =~= head + rest);
        lemma_consumed_add(head, rest);
        lemma_nothing_consumed(rest);
        law_batch_is_worked_through_in_order(entries);
        assert(head.last() == TurnActionView::Consume(batch_steps(entries)));
        lemma_nothing_consumed(head.drop_last());
        assert(consumed(head) =~= entries);
        assert(consumed(n.actions) =~= entries);
        if !paused {
            law_taking_conserves_entries(timing, q.guide, q.pending);
        } else {
            assert(consumed(n.actions) + n.queues.guide + n.queues.pending =~= q.guide + q.pending);
        }
    } else {
        lemma_nothing_consumed(n.actions);
        assert(consumed(n.actions) + n.queues.guide + n.queues.pending =~= q.guide + q.pending);
    }
}

/// Over any row of events, what was waiting and what arrived is what was worked
/// through and what is still waiting: no entry is lost and none is worked through
/// twice.
pub proof fn law_a_run_loses_nothing(
    t: TurnView,
    q: QueuesView,
    paused: bool,
    events: Seq<TurnEventView>,
)
    ensures
        ({
            let n = turn_run(t, q, paused, events);
            (q.guide + q.pending + arrived(events)).to_multiset() =~= (consumed(n.actions)
                + n.queues.guide + n.queues.pending).to_multiset()
        }),
    decreases events.len(),
{
    if events.len() == 0 {
        assert(q.guide + q.pending + arrived(events) =~= q.guide + q.pending);
        assert(consumed(Seq::empty()) + q.guide + q.pending =~= q.guide + q.pending);
    } else {
        let front = events.drop_last();
        let e = events.last();
        law_a_run_loses_nothing(t, q, paused, front);
        let n = turn_run(t, q, paused, front);
        let m = turn_step(n.turn, n.queues, paused, e);
        lemma_consumed_add(n.actions, m.actions);
        let before = q.guide + q.pending + arrived(front);
        let done = consumed(n.actions);
        let waiting = n.queues.guide + n.queues.pending;
        assert(done + n.queues.guide + n.queues.pending =~= done + waiting);
        match e {
            TurnEventView::Inbound(entry) => {
                lemma_nothing_consumed(m.actions);
                assert(q.guide + q.pending + arrived(events) =~= before + seq![entry]);
                let after = done + m.queues.guide + m.queues.pending;
                assert(consumed(n.actions + m.actions) =~= done);
                assert(after.to_multiset() =~= (done + waiting + seq![entry]).to_multiset()) by {
                    let g = n.queues.guide;
                    let p = n.queues.pending;
                    let x = seq![entry];
                    lemma_multiset_commutative(done + waiting, x);
                    lemma_multiset_commutative(done, waiting);
                    lemma_multiset_commutative(g, p);
                    lemma_multiset_commutative(done + m.queues.guide, m.queues.pending);
                    lemma_multiset_commutative(done, m.queues.guide);
                    lemma_multiset_commutative(g, x);
                    lemma_multiset_commutative(p, x);
                    assert(g.push(entry) =~= g + x);
                    assert(p.push(entry) =~= p + x);
                }
                lemma_multiset_commutative(before, seq![entry]);
                lemma_multiset_commutative(done + waiting, seq![entry]);
            },
            _ => {
                law_a_step_loses_nothing(n.turn, n.queues, paused, e);
                assert(arrived(events) == arrived(front));
                let c = consumed(m.actions);
                assert(done + c + m.queues.guide + m.queues.pending =~= done + (c + m.queues.guide
                    + m.queues.pending));
            },
        }
    }
}

/// Whenever a turn puts user messages in the history, the next thing it does is to
/// call the model: no message is left without an answer.
pub proof fn law_injected_messages_are_answered(
    t: TurnView,
    q: QueuesView,
    paused: bool,
    e: TurnEventView,
    i: int,
)
    requires
        0 <= i < turn_step(t, q, paused, e).actions.len(),
        turn_step(t, q, paused, e).actions[i] is Consume,
        injects(turn_step(t, q, paused, e).actions[i]->Consume_0),
    ensures
        i + 1 < turn_step(t, q, paused, e).actions.len(),
        turn_step(t, q, paused, e).actions[i + 1] == TurnActionView::CallModel,
        turn_step(t, q, paused, e).turn.stage is Streaming,
{
    let n = turn_step(t, q, paused, e);
    assert(n.actions[0] is Consume);
    assert(i == 0);
    law_batch_stretches(q.takeable(paused, ConsumeTiming::FinalReply));
    law_batch_stretches(q.takeable(paused, ConsumeTiming::AfterToolBatch));
}

// ---- a reply and its calls, over the whole turn ----

/// What a turn is told of a reply, and then of what the plugins leave of its calls.
pub open spec fn reply_events(
    result: StreamResultView,
    answers: Seq<Option<OutputEventView>>,
) -> Seq<TurnEventView> {
    seq![TurnEventView::Streamed(result)] + answers.map_values(
        |a: Option<OutputEventView>| TurnEventView::CallChecked(a),
    )
}

/// The events that a row of actions shows to the plugins for their consent, in order.
pub open spec fn submitted(actions: Seq<TurnActionView>) -> Seq<OutputEventView>
    decreases actions.len(),
{
    if actions.len() == 0 {
        Seq::empty()
    } else {
        let before = submitted(actions.drop_last());
        match actions.last() {
            TurnActionView::CheckCall(event) => before.push(event),
            _ => before,
        }
    }
}

/// The events that a row of actions shows to the user after the plugins' consent, in
/// order.
pub open spec fn passed_on(actions: Seq<TurnActionView>) -> Seq<OutputEventView>
    decreases actions.len(),
{
    if actions.len() == 0 {
        Seq::empty()
    } else {
        let before = passed_on(actions.drop_last());
        match actions.last() {
            TurnActionView::Deliver(event) => before.push(event),
            _ => before,
        }
    }
}

/// What the plugins let pass, in order.
pub open spec fn let_pass(answers: Seq<Option<OutputEventView>>) -> Seq<OutputEventView>
    decreases answers.len(),
{
    if answers.len() == 0 {
        Seq::empty()
    } else {
        let before = let_pass(answers.drop_last());
        match answers.last() {
            Some(event) => before.push(event),
            None => before,
        }
    }
}

/// The calls in what the plugins let pass, in order.
pub open spec fn calls_left(answers: Seq<Option<OutputEventView>>) -> Seq<ToolCallDataView>
    decreases answers.len(),
{
    if answers.len() == 0 {
        Seq::empty()
    } else {
        let before = calls_left(answers.drop_last());
        match answers.last() {
            Some(OutputEventView::ToolCall(m)) => before.push(
                ToolCallDataView {
                    id: m.payload.tool_call_id,
                    name: m.payload.tool_name,
                    arguments: m.payload.tool_args,
                },
            ),
            _ => before,
        }
    }
}

/// Whether an event shows a call: its identifier, its tool and its arguments.
pub open spec fn shows(event: OutputEventView, call: ToolCallDataView) -> bool {
    &&& event is ToolCall
    &&& event->ToolCall_0.payload.tool_call_id == call.id
    &&& event->ToolCall_0.payload.tool_name == call.name
    &&& event->ToolCall_0.payload.tool_args == args_in(call.arguments)
}

proof fn lemma_submitted_add(a: Seq<TurnActionView>, b: Seq<TurnActionView>)
    ensures
        submitted(a + b) == submitted(a) + submitted(b),
        passed_on(a + b) == passed_on(a) + passed_on(b),
    decreases b.len(),
{
    if b.len() == 0 {
        assert(a + b =~= a);
        assert(submitted(a) + submitted(b) =~= submitted(a));
        assert(passed_on(a) + passed_on(b) =~= passed_on(a));
    } else {
        assert((a + b).drop_last() =~= a + b.drop_last());
        lemma_submitted_add(a, b.drop_last());
        assert(submitted(a + b) =~= submitted(a) + submitted(b));
        assert(passed_on(a + b) =~= passed_on(a) + passed_on(b));
    }
}

/// What one action adds to what is shown to the plugins and to the user.
proof fn lemma_one_action(a: TurnActionView)
    ensures
        submitted(seq![a]) == match a {
            TurnActionView::CheckCall(event) => seq![event],
            _ => Seq::empty(),
        },
        passed_on(seq![a]) == match a {
            TurnActionView::Deliver(event) => seq![event],
            _ => Seq::empty(),
        },
{
    assert(seq![a].drop_last() =~= Seq::empty());
    reveal_with_fuel(submitted, 2);
    reveal_with_fuel(passed_on, 2);
    assert(submitted(seq![a]) =~= match a {
        TurnActionView::CheckCall(event) => seq![event],
        _ => Seq::empty(),
    });
    assert(passed_on(seq![a]) =~= match a {
        TurnActionView::Deliver(event) => seq![event],
        _ => Seq::empty(),
    });
}

proof fn lemma_reply_is_checked(
    t: TurnView,
    q: QueuesView,
    paused: bool,
    result: StreamResultView,
    answers: Seq<Option<OutputEventView>>,
)
    requires
        t.stage is Streaming,
        0 < result.tool_calls.len() <= usize::MAX,
        answers.len() <= result.tool_calls.len(),
    ensures
        ({
            let r = turn_run(t, q, paused, reply_events(result, answers));
            let n = result.tool_calls.len();
            let asked = submitted(r.actions);
            &&& asked.len() == if answers.len() < n {
                answers.len() + 1
            } else {
                n
            }
            &&& forall|k: int|
                0 <= k < asked.len() ==> shows(#[trigger] asked[k], result.tool_calls[k])
            &&& passed_on(r.actions) == let_pass(answers)
            &&& r.queues == q
            &&& r.turn.ledger == t.ledger
            &&& answers.len() < n ==> r.turn.stage == TurnStageView::Checking(
                CheckedCallsView {
                    result,
                    next: answers.len() as usize,
                    effective: calls_left(answers),
                },
            )
            &&& answers.len() == n ==> {
                &&& r.turn.stage == TurnStageView::ToolReply(calls_left(answers))
                &&& r.actions.len() > 0
                &&& r.actions.last() == TurnActionView::StoreReply(
                    OutputEventView::Assistant(
                        unsent(
                            assistant_payload_of(
                                StreamResultView { tool_calls: calls_left(answers), ..result },
                            ),
                        ),
                    ),
                )
            }
            &&& forall|i: int|
                0 <= i < r.actions.len() ==> !((#[trigger] r.actions[i]) is RunTools) && !(
                r.actions[i] is CallModel) && !(r.actions[i] is Consume)
        }),
    decreases answers.len(),
{
    let events = reply_events(result, answers);
    let r = turn_run(t, q, paused, events);
    let calls = result.tool_calls;
    if answers.len() == 0 {
        assert(events =~= seq![TurnEventView::Streamed(result)]);
        assert(events.drop_last() =~= Seq::empty());
        reveal_with_fuel(turn_run, 2);
        assert(turn_run(t, q, paused, events.drop_last()).actions =~= Seq::empty());
        let one = TurnActionView::CheckCall(tool_call_event(calls[0]));
        assert(r.actions =~= seq![one]);
        lemma_one_action(one);
        law_calls_go_past_the_plugins_whole(calls[0], tool_call_event(calls[0]));
        assert(calls_left(answers) =~= Seq::empty());
    } else {
        let front = answers.drop_last();
        let last = answers.last();
        lemma_reply_is_checked(t, q, paused, result, front);
        assert(events.drop_last() =~= reply_events(result, front));
        assert(events.last() == TurnEventView::CallChecked(last));
        let b = turn_run(t, q, paused, reply_events(result, front));
        let m = turn_step(b.turn, b.queues, paused, TurnEventView::CallChecked(last));
        assert(r.actions == b.actions + m.actions);
        let c = b.turn.stage->Checking_0;
        if last is Some {
            law_calls_go_past_the_plugins_whole(calls[0], last->0);
        }
        assert(with_checked(c.effective, last) =~= calls_left(answers));
        let delivered = match last {
            Some(event) => seq![TurnActionView::Deliver(event)],
            None => Seq::empty(),
        };
        let tail = if c.next + 1 < calls.len() {
            TurnActionView::CheckCall(tool_call_event(calls[c.next + 1]))
        } else {
            store_reply(
                StreamResultView { tool_calls: with_checked(c.effective, last), ..result },
            )
        };
        assert(m.actions =~= delivered + seq![tail]);
        lemma_submitted_add(b.actions, m.actions);
        lemma_submitted_add(delivered, seq![tail]);
        lemma_one_action(tail);
        if last is Some {
            lemma_one_action(TurnActionView::Deliver(last->0));
            assert(submitted(delivered) =~= Seq::empty());
        } else {
            assert(submitted(delivered) =~= Seq::empty());
            assert(passed_on(delivered) =~= Seq::empty());
        }
        assert(passed_on(r.actions) =~= let_pass(answers));
        assert(submitted(r.actions) =~= submitted(b.actions) + submitted(seq![tail]));
        if c.next + 1 < calls.len() {
            law_calls_go_past_the_plugins_whole(
                calls[c.next + 1],
                tool_call_event(calls[c.next + 1]),
            );
        }
        let asked = submitted(r.actions);
        assert forall|k: int| 0 <= k < asked.len() implies shows(
            #[trigger] asked[k],
            calls[k],
        ) by {
            if k < submitted(b.actions).len() {
                assert(asked[k] == submitted(b.actions)[k]);
            }
        }
        assert forall|i: int| 0 <= i < r.actions.len() implies !((
        #[trigger] r.actions[i]) is RunTools) && !(r.actions[i] is CallModel) && !(
        r.actions[i] is Consume) by {
            if i < b.actions.len() {
                assert(r.actions[i] == b.actions[i]);
            } else {
                assert(r.actions[i] == m.actions[i - b.actions.len()]);
            }
        }
    }
}

/// The calls of a reply are shown to the plugins one after the other: each of them once,
/// in the order in which the model made them, and no other. The next is shown when they
/// have answered the one before, and what they let pass is shown to the user, in order.
pub proof fn law_every_call_is_shown_to_the_plugins_once(
    t: TurnView,
    q: QueuesView,
    paused: bool,
    result: StreamResultView,
    answers: Seq<Option<OutputEventView>>,
)
    requires
        t.stage is Streaming,
        0 < result.tool_calls.len() <= usize::MAX,
        answers.len() <= result.tool_calls.len(),
    ensures
        ({
            let r = turn_run(t, q, paused, reply_events(result, answers));
            let asked = submitted(r.actions);
            &&& answers.len() < result.tool_calls.len() ==> asked.len() == answers.len() + 1
            &&& answers.len() == result.tool_calls.len() ==> asked.len()
                == result.tool_calls.len()
            &&& forall|k: int|
                0 <= k < asked.len() ==> shows(#[trigger] asked[k], result.tool_calls[k])
            &&& passed_on(r.actions) == let_pass(answers)
            &&& r.queues == q
        }),
{
    lemma_reply_is_checked(t, q, paused, result, answers);
}

/// Once the plugins have answered every call of a reply, the reply is stored with what
/// it says and the calls that they let pass; and when it has been stored, exactly these
/// are run, in order, with the files put on record first where the reply has a place.
/// If none is left, the model is called again.
pub proof fn law_the_calls_that_pass_are_stored_and_run(
    t: TurnView,
    q: QueuesView,
    paused: bool,
    result: StreamResultView,
    answers: Seq<Option<OutputEventView>>,
    seq: Option<i64>,
)
    requires
        t.stage is Streaming,
        0 < result.tool_calls.len() <= usize::MAX,
        answers.len() == result.tool_calls.len(),
    ensures
        ({
            let r = turn_run(t, q, paused, reply_events(result, answers));
            let left = calls_left(answers);
            let n = turn_step(r.turn, r.queues, paused, TurnEventView::ReplyStored(seq));
            let stored = r.actions.last()->StoreReply_0->Assistant_0.payload;
            &&& r.actions.last() is StoreReply
            &&& r.actions.last()->StoreReply_0 is Assistant
            &&& stored == assistant_payload_of(
                StreamResultView {
                    text: result.text,
                    reasoning: result.reasoning,
                    tool_calls: left,
                    usage: result.usage,
                },
            )
            &&& left.len() > 0 ==> {
                &&& n.actions.last() is RunTools
                &&& n.actions.last()->RunTools_0 == left
                &&& n.turn.stage is Tools
                &&& n.turn.stage->Tools_0.requested == left
                &&& n.queues == q
                &&& seq is Some ==> n.actions.len() == 2 && n.actions[0]
                    == TurnActionView::Snapshot(seq->0)
                &&& seq is None ==> n.actions.len() == 1
            }
            &&& left.len() == 0 ==> n.actions.last() is CallModel && n.turn.stage is Streaming
        }),
{
    lemma_reply_is_checked(t, q, paused, result, answers);
}

/// If the plugins change nothing, the calls that are run are those that the model made:
/// as many, and in order the same identifiers, the same tools and the same arguments.
pub proof fn law_unchanged_calls_are_all_run(
    t: TurnView,
    q: QueuesView,
    paused: bool,
    result: StreamResultView,
    answers: Seq<Option<OutputEventView>>,
    seq: Option<i64>,
)
    requires
        t.stage is Streaming,
        0 < result.tool_calls.len() <= usize::MAX,
        answers.len() == result.tool_calls.len(),
        forall|k: int|
            0 <= k < answers.len() ==> (#[trigger] answers[k]) == Some(
                submitted(turn_run(t, q, paused, reply_events(result, answers)).actions)[k],
            ),
    ensures
        ({
            let r = turn_run(t, q, paused, reply_events(result, answers));
            let n = turn_step(r.turn, r.queues, paused, TurnEventView::ReplyStored(seq));
            let run = n.actions.last()->RunTools_0;
            &&& n.actions.last() is RunTools
            &&& run.len() == result.tool_calls.len()
            &&& forall|k: int|
                0 <= k < run.len() ==> {
                    &&& (#[trigger] run[k]).id == result.tool_calls[k].id
                    &&& run[k].name == result.tool_calls[k].name
                    &&& run[k].arguments == args_in(result.tool_calls[k].arguments)
                }
        }),
{
    lemma_reply_is_checked(t, q, paused, result, answers);
    law_the_calls_that_pass_are_stored_and_run(t, q, paused, result, answers, seq);
    let asked = submitted(turn_run(t, q, paused, reply_events(result, answers)).actions);
    assert forall|k: int| 0 <= k < answers.len() implies (#[trigger] answers[k]) is Some && shows(
        answers[k]->0,
        result.tool_calls[k],
    ) by {
        assert(shows(asked[k], result.tool_calls[k]));
    }
    lemma_all_left(answers, result.tool_calls);
}

proof fn lemma_all_left(answers: Seq<Option<OutputEventView>>, calls: Seq<ToolCallDataView>)
    requires
        answers.len() <= calls.len(),
        forall|k: int|
            0 <= k < answers.len() ==> (#[trigger] answers[k]) is Some && shows(
                answers[k]->0,
                calls[k],
            ),
    ensures
        calls_left(answers).len() == answers.len(),
        forall|k: int|
            0 <= k < answers.len() ==> {
                &&& (#[trigger] calls_left(answers)[k]).id == calls[k].id
                &&& calls_left(answers)[k].name == calls[k].name
                &&& calls_left(answers)[k].arguments == args_in(calls[k].arguments)
            },
    decreases answers.len(),
{
    if answers.len() > 0 {
        let front = answers.drop_last();
        assert forall|k: int| 0 <= k < front.len() implies (#[trigger] front[k]) is Some && shows(
            front[k]->0,
            calls[k],
        ) by {
            assert(front[k] == answers[k]);
        }
        lemma_all_left(front, calls);
        assert(answers[answers.len() - 1] is Some);
        assert forall|k: int| 0 <= k < answers.len() implies {
            &&& (#[trigger] calls_left(answers)[k]).id == calls[k].id
            &&& calls_left(answers)[k].name == calls[k].name
            &&& calls_left(answers)[k].arguments == args_in(calls[k].arguments)
        } by {
            if k < front.len() {
                assert(calls_left(answers)[k] == calls_left(front)[k]);
            }
        }
    }
}

/// A final reply is stored with what it says, and what it used is kept.
pub proof fn law_a_final_reply_is_stored(
    t: TurnView,
    q: QueuesView,
    paused: bool,
    result: StreamResultView,
)
    requires
        t.stage is Streaming,
        result.tool_calls.len() == 0,
    ensures
        ({
            let n = turn_step(t, q, paused, TurnEventView::Streamed(result));
            &&& n.actions.len() == 2
            &&& n.actions[0] is KeepUsage
            &&& n.actions[0]->KeepUsage_0 == result.usage
            &&& n.actions[1] is StoreReply
            &&& n.actions[1]->StoreReply_0 is Assistant
            &&& n.actions[1]->StoreReply_0->Assistant_0.payload == assistant_payload_of(result)
            &&& n.turn.stage is FinalReply
            &&& n.queues == q
            &&& n.turn.ledger == t.ledger
        }),
{
}

/// What a tool returns is put on record as it is, and the batch goes on with that call
/// answered and no other.
pub proof fn law_tool_results_are_put_on_record(
    t: TurnView,
    q: QueuesView,
    paused: bool,
    result: ToolResultPayloadView,
    id: Seq<char>,
)
    requires
        t.stage is Tools,
    ensures
        ({
            let n = turn_step(t, q, paused, TurnEventView::ToolDone(result));
            let b = n.turn.stage->Tools_0;
            &&& n.actions.len() == 1
            &&& n.actions[0] is Send
            &&& n.actions[0]->Send_0 is Record
            &&& n.actions[0]->Send_0->Record_0 is ToolResult
            &&& n.actions[0]->Send_0->Record_0->ToolResult_0.payload == result
            &&& n.turn.stage is Tools
            &&& b.requested == t.stage->Tools_0.requested
            &&& b.answered.contains(id) <==> t.stage->Tools_0.answered.contains(id) || id
                == result.tool_call_id
            &&& n.queues == q
        }),
{
}

/// Once every tool of a batch has returned, what waits in the guide queue is worked
/// through, unless consuming is paused; what waits in the other queue goes on waiting;
/// and the model is called again.
pub proof fn law_results_go_back_to_the_model(t: TurnView, q: QueuesView, paused: bool)
    requires
        t.stage is Tools,
    ensures
        ({
            let n = turn_step(t, q, paused, TurnEventView::ToolsDone);
            &&& n.actions.len() == 2
            &&& n.actions[0] is Consume
            &&& entries_of(n.actions[0]->Consume_0) == if paused {
                Seq::<QueueEntryView>::empty()
            } else {
                q.guide
            }
            &&& n.actions[1] is CallModel
            &&& n.turn.stage is Streaming
            &&& n.turn.ledger == t.ledger
            &&& n.queues.pending == q.pending
            &&& paused ==> n.queues.guide == q.guide
            &&& !paused ==> n.queues.guide.len() == 0
        }),
{
    law_batch_is_worked_through_in_order(
        if paused {
            Seq::empty()
        } else {
            q.guide
        },
    );
}

/// After a final reply everything that waits is worked through, guide before pending,
/// and the turn goes on exactly if there was a user message among it.
pub proof fn law_a_final_reply_is_followed_by_what_waits(
    t: TurnView,
    q: QueuesView,
    seq: Option<i64>,
)
    requires
        t.stage is FinalReply,
    ensures
        ({
            let n = turn_step(t, q, false, TurnEventView::ReplyStored(seq));
            let waits = q.guide + q.pending;
            let user = exists|i: int| 0 <= i < waits.len() && (#[trigger] waits[i]) is User;
            &&& n.actions[0] is Consume
            &&& entries_of(n.actions[0]->Consume_0) == waits
            &&& n.queues.guide.len() == 0
            &&& n.queues.pending.len() == 0
            &&& user ==> n.turn.stage is Streaming && n.actions.len() == 2
                && n.actions[1] is CallModel
            &&& !user ==> n.turn.stage == TurnStageView::Done(TurnOutcome::Completed)
                && n.actions.last() == TurnActionView::Finish(TurnOutcome::Completed)
            &&& seq is Some ==> n.turn.ledger.last_assistant_seq == seq
            &&& seq is None ==> n.turn.ledger == t.ledger
        }),
{
    law_batch_is_worked_through_in_order(q.guide + q.pending);
}

/// A place is remembered of each reply that has one, and a batch counts from then on
/// exactly if its reply has one.
pub proof fn law_the_ledger_remembers_the_last_place(
    t: TurnView,
    q: QueuesView,
    paused: bool,
    seq: Option<i64>,
)
    requires
        t.stage is ToolReply,
    ensures
        ({
            let n = turn_step(t, q, paused, TurnEventView::ReplyStored(seq));
            &&& seq is Some ==> n.turn.ledger.last_assistant_seq == seq
            &&& seq is None ==> n.turn.ledger.last_assistant_seq == t.ledger.last_assistant_seq
            &&& n.turn.ledger.tool_batch_tracked == (t.ledger.tool_batch_tracked || (
            t.stage->ToolReply_0.len() > 0 && seq is Some))
        }),
{
}

/// Whether a row of actions ends a turn as it should: the last thing is the outcome, and
/// right before it stands a record of the files where the turn ran tools, at the place
/// of the last reply that has one.
pub open spec fn ends_properly(
    actions: Seq<TurnActionView>,
    ledger: TurnLedger,
    outcome: TurnOutcome,
    before: int,
) -> bool {
    if ledger.tool_batch_tracked && ledger.last_assistant_seq is Some {
        &&& actions.len() == before + 2
        &&& actions[before] == TurnActionView::Snapshot(ledger.last_assistant_seq->0)
        &&& actions[before + 1] == TurnActionView::Finish(outcome)
    } else {
        &&& actions.len() == before + 1
        &&& actions[before] == TurnActionView::Finish(outcome)
    }
}

/// A turn whose model cannot be called tells why, as an error that will not pass, and
/// ends as failed.
pub proof fn law_a_failed_call_ends_the_turn(
    t: TurnView,
    q: QueuesView,
    paused: bool,
    cause: Seq<char>,
)
    requires
        t.stage is Streaming,
    ensures
        ({
            let n = turn_step(t, q, paused, TurnEventView::StreamFailed(cause));
            let error = n.actions[0]->Send_0->Notice_0->Error_0.payload;
            &&& n.actions[0] is Send
            &&& n.actions[0]->Send_0 is Notice
            &&& n.actions[0]->Send_0->Notice_0 is Error
            &&& error.message == "LLM 调用失败: "@ + cause
            &&& !error.recoverable
            &&& ends_properly(n.actions, t.ledger, TurnOutcome::Failed, 1)
            &&& n.turn.stage == TurnStageView::Done(TurnOutcome::Failed)
            &&& n.queues == q
        }),
{
}

/// A turn that is cut short does all that is left to do for what was under way: for the
/// stream, with what it had brought; for the tools, which are told to stop if it is not
/// the whole engine that does, with the calls that have no result. Then it ends as
/// interrupted.
pub proof fn law_a_cut_does_what_is_left(
    t: TurnView,
    q: QueuesView,
    paused: bool,
    e: TurnEventView,
    i: int,
)
    requires
        t.stage is Streaming || t.stage is Tools,
        e is Interrupted || e is Shutdown,
    ensures
        ({
            let n = turn_step(t, q, paused, e);
            let payload = if e is Interrupted {
                e->Interrupted_0.payload
            } else {
                shutdown_interrupt()
            };
            let state = if e is Interrupted {
                e->Interrupted_0.state
            } else {
                e->Shutdown_0
            };
            let outs = if t.stage is Streaming {
                finished_streaming(state, payload)
            } else {
                finished_tool_batch(
                    t.stage->Tools_0.requested,
                    t.stage->Tools_0.answered,
                    payload,
                )
            };
            let first: int = if t.stage is Tools && e is Interrupted {
                1
            } else {
                0
            };
            &&& first == 1 ==> n.actions[0] is CancelTools
            &&& 0 <= i < outs.len() ==> n.actions[first + i] == TurnActionView::Send(outs[i])
            &&& ends_properly(n.actions, t.ledger, TurnOutcome::Interrupted, first + outs.len())
            &&& n.turn.stage == TurnStageView::Done(TurnOutcome::Interrupted)
            &&& n.queues == q
        }),
{
}

/// A turn begins by calling the model exactly if the model is known and its provider is
/// registered. Otherwise it tells what is wrong, naming the provider and the model that
/// are missing, and ends as failed.
pub proof fn law_how_a_turn_begins(
    model: Result<ResolvedModelView, Seq<char>>,
    registered: bool,
    available: Seq<Seq<char>>,
)
    ensures
        ({
            let (t, actions) = turn_start(model, registered, available);
            let error = actions[0]->Send_0->Notice_0->Error_0.payload;
            &&& t.ledger.last_assistant_seq is None
            &&& !t.ledger.tool_batch_tracked
            &&& model is Ok && registered ==> t.stage is Streaming && actions.len() == 1
                && actions[0] is CallModel
            &&& !(model is Ok && registered) ==> {
                &&& t.stage == TurnStageView::Done(TurnOutcome::Failed)
                &&& actions.len() == 2
                &&& actions[0] is Send
                &&& actions[0]->Send_0 is Notice
                &&& actions[0]->Send_0->Notice_0 is Error
                &&& !error.recoverable
                &&& actions[1] == TurnActionView::Finish(TurnOutcome::Failed)
                &&& model is Err ==> error.message == model->Err_0
                &&& model is Ok ==> error.message == "Provider '"@ + model->Ok_0.provider_id
                    + "' 未注册（model_id: '"@ + model->Ok_0.model_id
                    + "'，可用: "@ + quoted_list(available)
                    + "）——供应商可能已被删除或未运行时注册，相关会话需切换到可用模型"@
            }
        }),
{
}

/// What does not concern a turn where it stands changes nothing.
pub proof fn law_stray_events_change_nothing(
    t: TurnView,
    q: QueuesView,
    paused: bool,
    e: TurnEventView,
)
    requires
        !(e is Inbound),
        match t.stage {
            TurnStageView::Streaming => e is CallChecked || e is ReplyStored || e is ToolDone
                || e is ToolsDone,
            TurnStageView::Checking(_) => !(e is CallChecked),
            TurnStageView::FinalReply => !(e is ReplyStored),
            TurnStageView::ToolReply(_) => !(e is ReplyStored),
            TurnStageView::Tools(_) => e is Streamed || e is StreamFailed || e is CallChecked
                || e is ReplyStored,
            TurnStageView::Done(_) => true,
        },
    ensures
        turn_step(t, q, paused, e).turn == t,
        turn_step(t, q, paused, e).queues == q,
        turn_step(t, q, paused, e).actions.len() == 0,
{
}

} // verus!
