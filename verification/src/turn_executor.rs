//! The executor of an engine that runs a single conversation.
//!
//! It takes one message after the other and runs a turn for each: the model is
//! called, its tools are run, and the model is called again until it calls no more
//! tools and no message waits. A message that comes in the meantime is shown to the
//! model at the next opportunity. Whoever drives the executor carries out what it
//! asks for.
use crate::builders::{make_reply_payload, reply_payload};
use crate::chat::{StreamResult, StreamResultView, StreamUsage};
use crate::emit::{blank_base, envelope, unsent};
use crate::history::{call_data, held_calls, put_calls, stored_calls, with_calls};
use crate::interrupt::{
    complete_calls, interrupt_records, interrupt_result, lemma_complete, lemma_mark,
    push_interrupt_records, records_interrupted, unfinished, unfinished_tool_calls, Outgoing,
    OutgoingView,
};
use crate::json::args_in;
use crate::message::{
    EventBase, InterruptPayload, InterruptPayloadView, OutputEvent, OutputEventView,
    QueueUpdateKind, ToolCallData, ToolCallDataView, UserMessageView,
};
use crate::message_queue::{queue_update, MessageQueues, MessageQueuesView, QueuedUserMessageView};
use crate::model::{empty_list, push_item, Dup};
use crate::stream_session::{StreamAccumulator, StreamAccumulatorView, StreamPhase};
use vstd::hash_set::StringHashSet;
use vstd::prelude::*;

verus! {

/// An interrupt, and what the stream had brought when it came.
#[derive(Debug)]
pub struct ExecutorCut {
    pub payload: InterruptPayload,
    pub accumulator: StreamAccumulator,
}

/// The mathematical value of a [`ExecutorCut`].
#[verifier::ext_equal]
pub struct ExecutorCutView {
    pub payload: InterruptPayloadView,
    pub accumulator: StreamAccumulatorView,
}

impl View for ExecutorCut {
    type V = ExecutorCutView;

    open spec fn view(&self) -> ExecutorCutView {
        ExecutorCutView {
            payload: self.payload@,
            accumulator: self.accumulator@,
        }
    }
}

impl DeepView for ExecutorCut {
    type V = ExecutorCutView;

    open spec fn deep_view(&self) -> ExecutorCutView {
        self@
    }
}

impl Dup for ExecutorCut {
    fn dup(&self) -> (res: Self) {
        ExecutorCut {
            payload: self.payload.dup(),
            accumulator: self.accumulator.dup(),
        }
    }
}

/// What an executor is told.
#[derive(Debug)]
pub enum ExecutorEvent {
    /// A message may have come.
    Woken,
    /// No command is waiting.
    NoCommand,
    /// An interrupt has come.
    Interrupted(ExecutorCut),
    /// The command to stop has come, or none can come any more.
    Stopped,
    /// The model has replied.
    Streamed(StreamResult),
    /// The model could not be called; the user has been told.
    StreamFailed,
    /// Every tool of the batch has returned, and its result has been sent.
    ToolsDone,
}

/// The mathematical value of a [`ExecutorEvent`].
#[verifier::ext_equal]
pub enum ExecutorEventView {
    Woken,
    NoCommand,
    Interrupted(ExecutorCutView),
    Stopped,
    Streamed(StreamResultView),
    StreamFailed,
    ToolsDone,
}

impl View for ExecutorEvent {
    type V = ExecutorEventView;

    open spec fn view(&self) -> ExecutorEventView {
        match self {
            ExecutorEvent::Woken => ExecutorEventView::Woken,
            ExecutorEvent::NoCommand => ExecutorEventView::NoCommand,
            ExecutorEvent::Interrupted(x) => ExecutorEventView::Interrupted(x@),
            ExecutorEvent::Stopped => ExecutorEventView::Stopped,
            ExecutorEvent::Streamed(x) => ExecutorEventView::Streamed(x@),
            ExecutorEvent::StreamFailed => ExecutorEventView::StreamFailed,
            ExecutorEvent::ToolsDone => ExecutorEventView::ToolsDone,
        }
    }
}

impl DeepView for ExecutorEvent {
    type V = ExecutorEventView;

    open spec fn deep_view(&self) -> ExecutorEventView {
        self@
    }
}

impl Dup for ExecutorEvent {
    fn dup(&self) -> (res: Self) {
        match self {
            ExecutorEvent::Woken => ExecutorEvent::Woken,
            ExecutorEvent::NoCommand => ExecutorEvent::NoCommand,
            ExecutorEvent::Interrupted(x) => ExecutorEvent::Interrupted(x.dup()),
            ExecutorEvent::Stopped => ExecutorEvent::Stopped,
            ExecutorEvent::Streamed(x) => ExecutorEvent::Streamed(x.dup()),
            ExecutorEvent::StreamFailed => ExecutorEvent::StreamFailed,
            ExecutorEvent::ToolsDone => ExecutorEvent::ToolsDone,
        }
    }
}

/// What an executor asks for.
#[derive(Debug)]
pub enum ExecutorAction {
    /// Show an event, and have the plugins take note.
    Deliver(OutputEvent),
    /// Show an event, past the plugins.
    Announce(OutputEvent),
    /// Send an event.
    Send(Outgoing),
    /// Send a reply whose tools are run next, with the calls that are run.
    SendReply(OutputEvent),
    /// See whether a command is waiting.
    CheckCommand,
    /// Prepare a request and call the model.
    CallModel,
    /// Run a batch of tools.
    RunTools(Vec<ToolCallData>),
    /// Wait for a message or a command.
    Wait,
    /// The executor has ended.
    Exit,
}

/// The mathematical value of a [`ExecutorAction`].
#[verifier::ext_equal]
pub enum ExecutorActionView {
    Deliver(OutputEventView),
    Announce(OutputEventView),
    Send(OutgoingView),
    SendReply(OutputEventView),
    CheckCommand,
    CallModel,
    RunTools(Seq<ToolCallDataView>),
    Wait,
    Exit,
}

impl View for ExecutorAction {
    type V = ExecutorActionView;

    open spec fn view(&self) -> ExecutorActionView {
        match self {
            ExecutorAction::Deliver(x) => ExecutorActionView::Deliver(x@),
            ExecutorAction::Announce(x) => ExecutorActionView::Announce(x@),
            ExecutorAction::Send(x) => ExecutorActionView::Send(x@),
            ExecutorAction::SendReply(x) => ExecutorActionView::SendReply(x@),
            ExecutorAction::CheckCommand => ExecutorActionView::CheckCommand,
            ExecutorAction::CallModel => ExecutorActionView::CallModel,
            ExecutorAction::RunTools(x) => ExecutorActionView::RunTools(x.deep_view()),
            ExecutorAction::Wait => ExecutorActionView::Wait,
            ExecutorAction::Exit => ExecutorActionView::Exit,
        }
    }
}

impl DeepView for ExecutorAction {
    type V = ExecutorActionView;

    open spec fn deep_view(&self) -> ExecutorActionView {
        self@
    }
}

impl Dup for ExecutorAction {
    fn dup(&self) -> (res: Self) {
        match self {
            ExecutorAction::Deliver(x) => ExecutorAction::Deliver(x.dup()),
            ExecutorAction::Announce(x) => ExecutorAction::Announce(x.dup()),
            ExecutorAction::Send(x) => ExecutorAction::Send(x.dup()),
            ExecutorAction::SendReply(x) => ExecutorAction::SendReply(x.dup()),
            ExecutorAction::CheckCommand => ExecutorAction::CheckCommand,
            ExecutorAction::CallModel => ExecutorAction::CallModel,
            ExecutorAction::RunTools(x) => ExecutorAction::RunTools(x.dup()),
            ExecutorAction::Wait => ExecutorAction::Wait,
            ExecutorAction::Exit => ExecutorAction::Exit,
        }
    }
}

/// Where an executor stands.
pub enum ExecutorStage {
    /// Nothing is running.
    Idle,
    /// A round is about to begin, unless a command is waiting.
    RoundStart,
    /// The model has been called.
    Streaming,
    /// Tools are running.
    Tools(Vec<ToolCallData>),
    /// The executor has ended.
    Ended,
}

/// The mathematical value of an [`ExecutorStage`].
#[verifier::ext_equal]
pub enum ExecutorStageView {
    Idle,
    RoundStart,
    Streaming,
    Tools(Seq<ToolCallDataView>),
    Ended,
}

impl View for ExecutorStage {
    type V = ExecutorStageView;

    open spec fn view(&self) -> ExecutorStageView {
        match self {
            ExecutorStage::Idle => ExecutorStageView::Idle,
            ExecutorStage::RoundStart => ExecutorStageView::RoundStart,
            ExecutorStage::Streaming => ExecutorStageView::Streaming,
            ExecutorStage::Tools(calls) => ExecutorStageView::Tools(calls.deep_view()),
            ExecutorStage::Ended => ExecutorStageView::Ended,
        }
    }
}

/// An executor.
pub struct TurnExecutor {
    pub stage: ExecutorStage,
}

/// An executor with the queues it works on, and what it asks for.
#[verifier::ext_equal]
pub struct ExecutorNext {
    pub stage: ExecutorStageView,
    pub queues: MessageQueuesView,
    pub actions: Seq<ExecutorActionView>,
}

// ---- what the executor does, in mathematical terms ----

/// A message is shown when it is consumed, and the lengths of the queues after that.
pub open spec fn consumption(
    m: QueuedUserMessageView,
    after: MessageQueuesView,
) -> Seq<ExecutorActionView> {
    seq![
        ExecutorActionView::Deliver(OutputEventView::User(m.message)),
        ExecutorActionView::Announce(
            queue_update(m.message.base, after, QueueUpdateKind::Consumed),
        ),
    ]
}

/// The executor looks for work: pending messages move to the guide queue, and the
/// first message makes a turn. With none it waits.
pub open spec fn executor_poll(q: MessageQueuesView) -> ExecutorNext {
    let moved = q.transferred();
    let transfer = if q.pending.len() > 0 {
        seq![
            ExecutorActionView::Announce(
                queue_update(blank_base(), moved, QueueUpdateKind::Transferred),
            ),
        ]
    } else {
        Seq::empty()
    };
    if moved.guide.len() == 0 {
        ExecutorNext {
            stage: ExecutorStageView::Idle,
            queues: moved,
            actions: transfer + seq![ExecutorActionView::Wait],
        }
    } else {
        ExecutorNext {
            stage: ExecutorStageView::RoundStart,
            queues: moved.popped(),
            actions: transfer + consumption(moved.guide.first(), moved.popped()) + seq![
                ExecutorActionView::Send(
                    OutgoingView::Notice(OutputEventView::TurnStart(blank_base())),
                ),
                ExecutorActionView::CheckCommand,
            ],
        }
    }
}

/// The turn is over, after some last actions: the executor looks for work again.
pub open spec fn turn_over(q: MessageQueuesView, last: Seq<ExecutorActionView>) -> ExecutorNext {
    let n = executor_poll(q);
    ExecutorNext { actions: last + n.actions, ..n }
}

/// A message that waits is shown, and another round begins.
pub open spec fn next_message(q: MessageQueuesView, first: Seq<ExecutorActionView>) -> ExecutorNext {
    ExecutorNext {
        stage: ExecutorStageView::RoundStart,
        queues: q.popped(),
        actions: first + consumption(q.guide.first(), q.popped()) + seq![
            ExecutorActionView::CheckCommand,
        ],
    }
}

/// A reply of the model.
pub open spec fn reply_event(
    text: Seq<char>,
    reasoning: Seq<char>,
    calls: Seq<ToolCallDataView>,
    finish_reason: Seq<char>,
    usage: StreamUsage,
) -> OutputEventView {
    OutputEventView::Assistant(
        unsent(reply_payload(text, reasoning, calls, finish_reason, usage)),
    )
}

/// A reply of the model, on its way out.
pub open spec fn reply_notice(
    text: Seq<char>,
    reasoning: Seq<char>,
    calls: Seq<ToolCallDataView>,
    finish_reason: Seq<char>,
    usage: StreamUsage,
) -> ExecutorActionView {
    ExecutorActionView::Send(
        OutgoingView::Notice(reply_event(text, reasoning, calls, finish_reason, usage)),
    )
}

/// A final reply; one that is empty is not shown.
pub open spec fn final_reply(r: StreamResultView) -> Seq<ExecutorActionView> {
    if r.text.len() > 0 || r.reasoning.len() > 0 {
        seq![reply_notice(r.text, r.reasoning, Seq::empty(), "stop"@, r.usage)]
    } else {
        Seq::empty()
    }
}

/// The model has replied. A reply with tool calls is shown and the tools are run.
/// After a final reply the next message is up, and without one the turn is over.
pub open spec fn on_reply(q: MessageQueuesView, r: StreamResultView) -> ExecutorNext {
    if r.tool_calls.len() > 0 {
        ExecutorNext {
            stage: ExecutorStageView::Tools(r.tool_calls),
            queues: q,
            actions: seq![
                ExecutorActionView::SendReply(
                    reply_event(r.text, r.reasoning, r.tool_calls, "tool_calls"@, r.usage),
                ),
                ExecutorActionView::RunTools(r.tool_calls),
            ],
        }
    } else if q.guide.len() > 0 {
        next_message(q, final_reply(r))
    } else {
        turn_over(q, final_reply(r))
    }
}

/// The tools are done: the model sees their results, and the next message if one
/// waits.
pub open spec fn on_tools_done(q: MessageQueuesView) -> ExecutorNext {
    if q.guide.len() > 0 {
        next_message(q, Seq::empty())
    } else {
        ExecutorNext {
            stage: ExecutorStageView::RoundStart,
            queues: q,
            actions: seq![ExecutorActionView::CheckCommand],
        }
    }
}

/// Events as they are, shown in order.
pub open spec fn shown(outs: Seq<OutgoingView>) -> Seq<ExecutorActionView> {
    outs.map_values(
        |o: OutgoingView|
            ExecutorActionView::Send(
                match o {
                    OutgoingView::Record(event) => OutgoingView::Notice(event),
                    OutgoingView::Notice(event) => OutgoingView::Notice(event),
                },
            ),
    )
}

/// What is shown when a stream is interrupted: nothing during the wait before
/// another call; else what the stream had brought, and a result for every call it
/// had completed.
pub open spec fn interrupted_stream(cut: ExecutorCutView) -> Seq<ExecutorActionView> {
    let a = cut.accumulator;
    let valid = unfinished(a.tool_calls, Set::empty());
    let content = a.text.len() > 0 || a.reasoning.len() > 0;
    if a.phase == StreamPhase::Backoff {
        Seq::empty()
    } else if a.tool_calls.len() > 0 {
        let reply = if content || valid.len() > 0 {
            seq![reply_notice(a.text, a.reasoning, valid, "interrupted"@, a.usage)]
        } else {
            Seq::empty()
        };
        reply + shown(interrupt_records(valid, cut.payload))
    } else if content {
        seq![reply_notice(a.text, a.reasoning, Seq::empty(), "interrupted"@, a.usage)]
    } else {
        Seq::empty()
    }
}

/// What an executor comes to, given what happened.
pub open spec fn executor_step(
    stage: ExecutorStageView,
    q: MessageQueuesView,
    e: ExecutorEventView,
) -> ExecutorNext {
    match (stage, e) {
        (ExecutorStageView::Ended, _) => ExecutorNext { stage, queues: q, actions: Seq::empty() },
        (_, ExecutorEventView::Stopped) => ExecutorNext {
            stage: ExecutorStageView::Ended,
            queues: q,
            actions: seq![ExecutorActionView::Exit],
        },
        (ExecutorStageView::Idle, ExecutorEventView::Woken) => executor_poll(q),
        (ExecutorStageView::Idle, ExecutorEventView::Interrupted(_)) => executor_poll(q),
        (ExecutorStageView::RoundStart, ExecutorEventView::NoCommand) => ExecutorNext {
            stage: ExecutorStageView::Streaming,
            queues: q,
            actions: seq![ExecutorActionView::CallModel],
        },
        (ExecutorStageView::RoundStart, ExecutorEventView::Interrupted(_)) => executor_poll(q),
        (ExecutorStageView::Streaming, ExecutorEventView::Streamed(r)) => on_reply(q, r),
        (ExecutorStageView::Streaming, ExecutorEventView::StreamFailed) => executor_poll(q),
        (ExecutorStageView::Streaming, ExecutorEventView::Interrupted(cut)) => turn_over(
            q,
            interrupted_stream(cut),
        ),
        (ExecutorStageView::Tools(_), ExecutorEventView::ToolsDone) => on_tools_done(q),
        (ExecutorStageView::Tools(calls), ExecutorEventView::Interrupted(cut)) => turn_over(
            q,
            shown(interrupt_records(calls, cut.payload)),
        ),
        _ => ExecutorNext { stage, queues: q, actions: Seq::empty() },
    }
}

/// What is shown of a reply, given what the plugins left of it: while its tools are
/// run, it holds the calls that are run.
pub open spec fn shown_reply_of(
    stage: ExecutorStageView,
    intercepted: Option<OutputEventView>,
) -> Option<OutputEventView> {
    match intercepted {
        None => None,
        Some(event) => match stage {
            ExecutorStageView::Tools(calls) => Some(with_calls(event, calls)),
            _ => Some(event),
        },
    }
}

// ---- what the executor does ----

/// Makes a reply of the model.
fn make_reply_event(
    text: &str,
    reasoning: &str,
    calls: &Vec<ToolCallData>,
    finish_reason: &str,
    usage: &StreamUsage,
) -> (res: OutputEvent)
    ensures
        res@ == reply_event(text@, reasoning@, calls.deep_view(), finish_reason@, *usage),
{
    OutputEvent::Assistant(
        envelope(make_reply_payload(text, reasoning, calls, finish_reason, usage)),
    )
}

/// Makes a reply of the model, on its way out.
fn make_reply_notice(
    text: &str,
    reasoning: &str,
    calls: &Vec<ToolCallData>,
    finish_reason: &str,
    usage: &StreamUsage,
) -> (res: ExecutorAction)
    ensures
        res@ == reply_notice(text@, reasoning@, calls.deep_view(), finish_reason@, *usage),
{
    ExecutorAction::Send(
        Outgoing::Notice(make_reply_event(text, reasoning, calls, finish_reason, usage)),
    )
}

/// Shows events in order.
fn push_shown(actions: &mut Vec<ExecutorAction>, outs: &Vec<Outgoing>)
    ensures
        final(actions).deep_view() == old(actions).deep_view() + shown(outs.deep_view()),
{
    let ghost before = actions.deep_view();
    let ghost all = outs.deep_view();
    let mut i: usize = 0;
    assert(before + shown(all.take(0)) =~= before);
    while i < outs.len()
        invariant
            i <= outs.len(),
            all == outs.deep_view(),
            actions.deep_view() == before + shown(all.take(i as int)),
        decreases outs.len() - i,
    {
        let event = match &outs[i] {
            Outgoing::Record(event) => event.dup(),
            Outgoing::Notice(event) => event.dup(),
        };
        push_item(actions, ExecutorAction::Send(Outgoing::Notice(event)));
        i += 1;
        assert(actions.deep_view() =~= before + shown(all.take(i as int)));
    }
    assert(all.take(i as int) =~= all);
}

impl TurnExecutor {
    /// Takes the next message and shows it. Says whether there was one.
    fn consume_next_message(queues: &mut MessageQueues, actions: &mut Vec<ExecutorAction>) -> (res:
        bool)
        ensures
            res == (old(queues)@.guide.len() > 0),
            res ==> final(queues)@ == old(queues)@.popped() && final(actions).deep_view() == old(
                actions,
            ).deep_view() + consumption(old(queues)@.guide.first(), old(queues)@.popped()),
            !res ==> final(queues)@ == old(queues)@ && final(actions).deep_view() == old(
                actions,
            ).deep_view(),
    {
        let ghost q = queues@;
        let ghost before = actions.deep_view();
        match queues.pop() {
            Some(queued) => {
                let base = queued.message.base.dup();
                push_item(actions, ExecutorAction::Deliver(OutputEvent::User(queued.message)));
                push_item(
                    actions,
                    ExecutorAction::Announce(queues.update_event(base, QueueUpdateKind::Consumed)),
                );
                assert(actions.deep_view() =~= before + consumption(q.guide.first(), q.popped()));
                true
            },
            None => false,
        }
    }

    /// Looks for work, after some last actions.
    fn look_for_work(queues: &mut MessageQueues, last: Vec<ExecutorAction>) -> (res: (
        TurnExecutor,
        Vec<ExecutorAction>,
    ))
        ensures
            (ExecutorNext {
                stage: res.0.stage@,
                queues: final(queues)@,
                actions: res.1.deep_view(),
            }) == turn_over(old(queues)@, last.deep_view()),
    {
        let ghost q = queues@;
        let ghost first = last.deep_view();
        let mut actions = last;
        if queues.transfer() {
            push_item(
                &mut actions,
                ExecutorAction::Announce(
                    queues.update_event(EventBase::new(), QueueUpdateKind::Transferred),
                ),
            );
        }
        if TurnExecutor::consume_next_message(queues, &mut actions) {
            push_item(
                &mut actions,
                ExecutorAction::Send(Outgoing::Notice(OutputEvent::TurnStart(EventBase::new()))),
            );
            push_item(&mut actions, ExecutorAction::CheckCommand);
            assert(actions.deep_view() =~= turn_over(q, first).actions);
            (TurnExecutor { stage: ExecutorStage::RoundStart }, actions)
        } else {
            push_item(&mut actions, ExecutorAction::Wait);
            assert(actions.deep_view() =~= turn_over(q, first).actions);
            (TurnExecutor { stage: ExecutorStage::Idle }, actions)
        }
    }

    /// Begins, with whatever waits.
    pub fn start(queues: &mut MessageQueues) -> (res: (TurnExecutor, Vec<ExecutorAction>))
        ensures
            (ExecutorNext {
                stage: res.0.stage@,
                queues: final(queues)@,
                actions: res.1.deep_view(),
            }) == executor_poll(old(queues)@),
    {
        let ghost q = queues@;
        let res = TurnExecutor::look_for_work(queues, empty_list());
        assert(turn_over(q, Seq::empty()).actions =~= executor_poll(q).actions);
        res
    }

    /// The model has replied.
    fn handle_reply(queues: &mut MessageQueues, r: StreamResult) -> (res: (
        TurnExecutor,
        Vec<ExecutorAction>,
    ))
        ensures
            (ExecutorNext {
                stage: res.0.stage@,
                queues: final(queues)@,
                actions: res.1.deep_view(),
            }) == on_reply(old(queues)@, r@),
    {
        let ghost q = queues@;
        let mut actions: Vec<ExecutorAction> = empty_list();
        if r.tool_calls.len() > 0 {
            push_item(
                &mut actions,
                ExecutorAction::SendReply(
                    make_reply_event(
                        r.text.as_str(),
                        r.reasoning.as_str(),
                        &r.tool_calls,
                        "tool_calls",
                        &r.usage,
                    ),
                ),
            );
            push_item(&mut actions, ExecutorAction::RunTools(r.tool_calls.dup()));
            assert(actions.deep_view() =~= on_reply(q, r@).actions);
            return (TurnExecutor { stage: ExecutorStage::Tools(r.tool_calls) }, actions);
        }
        if !r.text.as_str().is_empty() || !r.reasoning.as_str().is_empty() {
            let none: Vec<ToolCallData> = empty_list();
            push_item(
                &mut actions,
                make_reply_notice(
                    r.text.as_str(),
                    r.reasoning.as_str(),
                    &none,
                    "stop",
                    &r.usage,
                ),
            );
        }
        assert(actions.deep_view() =~= final_reply(r@));
        if TurnExecutor::consume_next_message(queues, &mut actions) {
            push_item(&mut actions, ExecutorAction::CheckCommand);
            assert(actions.deep_view() =~= on_reply(q, r@).actions);
            (TurnExecutor { stage: ExecutorStage::RoundStart }, actions)
        } else {
            TurnExecutor::look_for_work(queues, actions)
        }
    }

    /// The tools are done.
    fn handle_tools_done(queues: &mut MessageQueues) -> (res: (TurnExecutor, Vec<ExecutorAction>))
        ensures
            (ExecutorNext {
                stage: res.0.stage@,
                queues: final(queues)@,
                actions: res.1.deep_view(),
            }) == on_tools_done(old(queues)@),
    {
        let ghost q = queues@;
        let mut actions: Vec<ExecutorAction> = empty_list();
        TurnExecutor::consume_next_message(queues, &mut actions);
        push_item(&mut actions, ExecutorAction::CheckCommand);
        assert(actions.deep_view() =~= on_tools_done(q).actions);
        (TurnExecutor { stage: ExecutorStage::RoundStart }, actions)
    }

    /// What is shown when a stream is interrupted.
    fn finish_stream(cut: &ExecutorCut) -> (res: Vec<ExecutorAction>)
        ensures
            res.deep_view() == interrupted_stream(cut@),
    {
        let a = &cut.accumulator;
        let mut actions: Vec<ExecutorAction> = empty_list();
        if let StreamPhase::Backoff = a.phase {
            return actions;
        }
        let content = !a.text.as_str().is_empty() || !a.reasoning.as_str().is_empty();
        let none = StringHashSet::new();
        let valid = unfinished_tool_calls(&a.tool_calls, &none);
        if a.tool_calls.len() > 0 {
            if content || valid.len() > 0 {
                push_item(
                    &mut actions,
                    make_reply_notice(
                        a.text.as_str(),
                        a.reasoning.as_str(),
                        &valid,
                        "interrupted",
                        &a.usage,
                    ),
                );
            }
            let ghost reply = actions.deep_view();
            assert(reply =~= if content || valid@.len() > 0 {
                seq![
                    reply_notice(
                        a@.text,
                        a@.reasoning,
                        valid.deep_view(),
                        "interrupted"@,
                        a@.usage,
                    ),
                ]
            } else {
                Seq::empty()
            });
            let mut results: Vec<Outgoing> = empty_list();
            push_interrupt_records(&mut results, &valid, &cut.payload);
            assert(results.deep_view() =~= interrupt_records(valid.deep_view(), cut@.payload));
            push_shown(&mut actions, &results);
        } else if content {
            let none: Vec<ToolCallData> = empty_list();
            push_item(
                &mut actions,
                make_reply_notice(
                    a.text.as_str(),
                    a.reasoning.as_str(),
                    &none,
                    "interrupted",
                    &a.usage,
                ),
            );
        }
        assert(actions.deep_view() =~= interrupted_stream(cut@));
        actions
    }

    /// What is shown when a batch of tools is interrupted: every call of it counts
    /// as interrupted.
    fn finish_tools(calls: &Vec<ToolCallData>, payload: &InterruptPayload) -> (res: Vec<
        ExecutorAction,
    >)
        ensures
            res.deep_view() == shown(interrupt_records(calls.deep_view(), payload@)),
    {
        let mut results: Vec<Outgoing> = empty_list();
        push_interrupt_records(&mut results, calls, payload);
        assert(results.deep_view() =~= interrupt_records(calls.deep_view(), payload@));
        let mut actions: Vec<ExecutorAction> = empty_list();
        push_shown(&mut actions, &results);
        assert(actions.deep_view() =~= shown(interrupt_records(calls.deep_view(), payload@)));
        actions
    }

    /// What is shown of a reply whose tools are run, given what the plugins left of it.
    /// They may change what it says, but not what it calls.
    pub fn shown_reply(&self, intercepted: Option<OutputEvent>) -> (res: Option<OutputEvent>)
        ensures
            res.deep_view() == shown_reply_of(self.stage@, intercepted.deep_view()),
    {
        match intercepted {
            None => None,
            Some(event) => match &self.stage {
                ExecutorStage::Tools(calls) => Some(put_calls(event, calls)),
                _ => Some(event),
            },
        }
    }

    /// Ends, whatever is under way.
    fn stop() -> (res: (TurnExecutor, Vec<ExecutorAction>))
        ensures
            res.0.stage@ == ExecutorStageView::Ended,
            res.1.deep_view() == seq![ExecutorActionView::Exit],
    {
        let mut actions: Vec<ExecutorAction> = empty_list();
        push_item(&mut actions, ExecutorAction::Exit);
        assert(actions.deep_view() =~= seq![ExecutorActionView::Exit]);
        (TurnExecutor { stage: ExecutorStage::Ended }, actions)
    }

    /// Tells an executor what happened. Returns the executor as it stands then, and
    /// what it asks for, in order.
    pub fn step(self, queues: &mut MessageQueues, event: ExecutorEvent) -> (res: (
        TurnExecutor,
        Vec<ExecutorAction>,
    ))
        ensures
            (ExecutorNext {
                stage: res.0.stage@,
                queues: final(queues)@,
                actions: res.1.deep_view(),
            }) == executor_step(self.stage@, old(queues)@, event@),
    {
        match self.stage {
            ExecutorStage::Idle => match event {
                ExecutorEvent::Woken | ExecutorEvent::Interrupted(_) => TurnExecutor::start(queues),
                ExecutorEvent::Stopped => TurnExecutor::stop(),
                _ => (TurnExecutor { stage: ExecutorStage::Idle }, empty_list()),
            },
            ExecutorStage::RoundStart => match event {
                ExecutorEvent::NoCommand => {
                    let mut actions: Vec<ExecutorAction> = empty_list();
                    push_item(&mut actions, ExecutorAction::CallModel);
                    assert(actions.deep_view() =~= seq![ExecutorActionView::CallModel]);
                    (TurnExecutor { stage: ExecutorStage::Streaming }, actions)
                },
                ExecutorEvent::Interrupted(_) => TurnExecutor::start(queues),
                ExecutorEvent::Stopped => TurnExecutor::stop(),
                _ => (TurnExecutor { stage: ExecutorStage::RoundStart }, empty_list()),
            },
            ExecutorStage::Streaming => match event {
                ExecutorEvent::Streamed(r) => TurnExecutor::handle_reply(queues, r),
                ExecutorEvent::StreamFailed => TurnExecutor::start(queues),
                ExecutorEvent::Stopped => TurnExecutor::stop(),
                ExecutorEvent::Interrupted(cut) => {
                    let last = TurnExecutor::finish_stream(&cut);
                    TurnExecutor::look_for_work(queues, last)
                },
                _ => (TurnExecutor { stage: ExecutorStage::Streaming }, empty_list()),
            },
            ExecutorStage::Tools(calls) => match event {
                ExecutorEvent::ToolsDone => TurnExecutor::handle_tools_done(queues),
                ExecutorEvent::Stopped => TurnExecutor::stop(),
                ExecutorEvent::Interrupted(cut) => {
                    let last = TurnExecutor::finish_tools(&calls, &cut.payload);
                    TurnExecutor::look_for_work(queues, last)
                },
                _ => (TurnExecutor { stage: ExecutorStage::Tools(calls) }, empty_list()),
            },
            ExecutorStage::Ended => (TurnExecutor { stage: ExecutorStage::Ended }, empty_list()),
        }
    }
}

// ---- laws ----

/// The messages of the user that a row of actions shows, in order.
pub open spec fn delivered(actions: Seq<ExecutorActionView>) -> Seq<UserMessageView>
    decreases actions.len(),
{
    if actions.len() == 0 {
        Seq::empty()
    } else {
        let before = delivered(actions.drop_last());
        match actions.last() {
            ExecutorActionView::Deliver(OutputEventView::User(m)) => before.push(m),
            _ => before,
        }
    }
}

/// The messages that wait, in the order in which they are due.
pub open spec fn waiting(q: MessageQueuesView) -> Seq<UserMessageView> {
    (q.guide + q.pending).map_values(|m: QueuedUserMessageView| m.message)
}

proof fn lemma_delivered_add(a: Seq<ExecutorActionView>, b: Seq<ExecutorActionView>)
    ensures
        delivered(a + b) == delivered(a) + delivered(b),
    decreases b.len(),
{
    if b.len() == 0 {
        assert(a + b =~= a);
        assert(delivered(a) + delivered(b) =~= delivered(a));
    } else {
        assert((a + b).drop_last() =~= a + b.drop_last());
        lemma_delivered_add(a, b.drop_last());
        assert(delivered(a + b) =~= delivered(a) + delivered(b));
    }
}

proof fn lemma_none_delivered(a: Seq<ExecutorActionView>)
    requires
        forall|i: int| 0 <= i < a.len() ==> !((#[trigger] a[i]) is Deliver),
    ensures
        delivered(a) == Seq::<UserMessageView>::empty(),
    decreases a.len(),
{
    if a.len() > 0 {
        lemma_none_delivered(a.drop_last());
        assert(!(a[a.len() - 1] is Deliver));
    }
}

proof fn lemma_one_delivered(m: QueuedUserMessageView, after: MessageQueuesView)
    ensures
        delivered(consumption(m, after)) == seq![m.message],
{
    let c = consumption(m, after);
    let first = seq![c[0]];
    let second = seq![c[1]];
    assert(c =~= first + second);
    lemma_delivered_add(first, second);
    lemma_none_delivered(second);
    lemma_none_delivered(first.drop_last());
    assert(delivered(first) =~= seq![m.message]);
    assert(delivered(c) =~= seq![m.message]);
}

proof fn lemma_poll_delivers(q: MessageQueuesView)
    ensures
        delivered(executor_poll(q).actions) + waiting(executor_poll(q).queues) == waiting(q),
{
    let n = executor_poll(q);
    let moved = q.transferred();
    let transfer = if q.pending.len() > 0 {
        seq![
            ExecutorActionView::Announce(
                queue_update(blank_base(), moved, QueueUpdateKind::Transferred),
            ),
        ]
    } else {
        Seq::empty()
    };
    lemma_none_delivered(transfer);
    if moved.guide.len() == 0 {
        let rest = seq![ExecutorActionView::Wait];
        lemma_none_delivered(rest);
        lemma_delivered_add(transfer, rest);
    } else {
        let c = consumption(moved.guide.first(), moved.popped());
        let rest = seq![
            ExecutorActionView::Send(
                OutgoingView::Notice(OutputEventView::TurnStart(blank_base())),
            ),
            ExecutorActionView::CheckCommand,
        ];
        lemma_none_delivered(rest);
        lemma_one_delivered(moved.guide.first(), moved.popped());
        lemma_delivered_add(transfer, c);
        lemma_delivered_add(transfer + c, rest);
    }
    assert(delivered(n.actions) + waiting(n.queues) =~= waiting(q));
}

proof fn lemma_next_delivers(q: MessageQueuesView, first: Seq<ExecutorActionView>)
    requires
        q.guide.len() > 0,
        forall|i: int| 0 <= i < first.len() ==> !((#[trigger] first[i]) is Deliver),
    ensures
        delivered(next_message(q, first).actions) + waiting(next_message(q, first).queues)
            == waiting(q),
{
    let n = next_message(q, first);
    let c = consumption(q.guide.first(), q.popped());
    let rest = seq![ExecutorActionView::CheckCommand];
    lemma_none_delivered(first);
    lemma_none_delivered(rest);
    lemma_one_delivered(q.guide.first(), q.popped());
    lemma_delivered_add(first, c);
    lemma_delivered_add(first + c, rest);
    assert(delivered(n.actions) + waiting(n.queues) =~= waiting(q));
}

/// Messages are shown in the order in which they are due, and each is shown once:
/// what a step shows and what still waits after it is what waited before it.
pub proof fn law_messages_are_shown_in_order(
    stage: ExecutorStageView,
    q: MessageQueuesView,
    e: ExecutorEventView,
)
    ensures
        ({
            let n = executor_step(stage, q, e);
            delivered(n.actions) + waiting(n.queues) == waiting(q)
        }),
{
    let n = executor_step(stage, q, e);
    lemma_poll_delivers(q);
    match (stage, e) {
        (ExecutorStageView::Streaming, ExecutorEventView::Streamed(r)) => {
            lemma_none_delivered(final_reply(r));
            if r.tool_calls.len() > 0 {
                lemma_none_delivered(n.actions);
                assert(delivered(n.actions) + waiting(n.queues) =~= waiting(q));
            } else if q.guide.len() > 0 {
                lemma_next_delivers(q, final_reply(r));
            } else {
                lemma_delivered_add(final_reply(r), executor_poll(q).actions);
                assert(delivered(n.actions) =~= delivered(executor_poll(q).actions));
            }
        },
        (ExecutorStageView::Streaming, ExecutorEventView::Interrupted(cut)) => {
            let last = interrupted_stream(cut);
            lemma_none_delivered(last);
            lemma_delivered_add(last, executor_poll(q).actions);
            assert(delivered(n.actions) =~= delivered(executor_poll(q).actions));
        },
        (ExecutorStageView::Tools(calls), ExecutorEventView::Interrupted(cut)) => {
            let last = shown(interrupt_records(calls, cut.payload));
            lemma_none_delivered(last);
            lemma_delivered_add(last, executor_poll(q).actions);
            assert(delivered(n.actions) =~= delivered(executor_poll(q).actions));
        },
        (ExecutorStageView::Tools(_), ExecutorEventView::ToolsDone) => {
            if q.guide.len() > 0 {
                lemma_next_delivers(q, Seq::empty());
            } else {
                lemma_none_delivered(n.actions);
                assert(delivered(n.actions) + waiting(n.queues) =~= waiting(q));
            }
        },
        (ExecutorStageView::RoundStart, ExecutorEventView::NoCommand) => {
            lemma_none_delivered(n.actions);
            assert(delivered(n.actions) + waiting(n.queues) =~= waiting(q));
        },
        (_, ExecutorEventView::Stopped) => {
            lemma_none_delivered(n.actions);
            assert(delivered(n.actions) + waiting(n.queues) =~= waiting(q));
        },
        _ => {
            if n.actions.len() == 0 {
                assert(delivered(n.actions) + waiting(n.queues) =~= waiting(q));
            }
        },
    }
}

/// The model always gets to see the results of its tools: once they are done,
/// another round begins, whether or not a message waits.
pub proof fn law_tool_results_go_back(calls: Seq<ToolCallDataView>, q: MessageQueuesView)
    ensures
        ({
            let n = executor_step(
                ExecutorStageView::Tools(calls),
                q,
                ExecutorEventView::ToolsDone,
            );
            n.stage is RoundStart && n.actions.last() is CheckCommand
        }),
{
}

/// The calls that are shown with a reply are the calls that are run, whatever the
/// plugins make of the reply as a whole.
pub proof fn law_shown_calls_are_the_ones_run(
    q: MessageQueuesView,
    r: StreamResultView,
    rewritten: OutputEventView,
)
    requires
        r.tool_calls.len() > 0,
        rewritten is Assistant,
    ensures
        ({
            let n = executor_step(
                ExecutorStageView::Streaming,
                q,
                ExecutorEventView::Streamed(r),
            );
            let shown = shown_reply_of(n.stage, Some(rewritten))->0;
            &&& n.actions.len() == 2
            &&& n.actions[0] is SendReply
            &&& n.actions[1] == ExecutorActionView::RunTools(r.tool_calls)
            &&& shown is Assistant
            &&& shown->Assistant_0.payload.tool_calls == held_calls(r.tool_calls)
            &&& stored_calls(shown->Assistant_0.payload.tool_calls) == Some(r.tool_calls)
        }),
{
    let held = held_calls(r.tool_calls)->0;
    assert(held.map_values(|c| call_data(c)) =~= r.tool_calls);
}

/// Tools that are interrupted all get a result, one each and in order, before anything
/// else happens; and so do the calls that a stream had completed when it was cut short,
/// right after the reply that holds exactly these calls.
pub proof fn law_interrupted_calls_all_get_a_result(
    calls: Seq<ToolCallDataView>,
    q: MessageQueuesView,
    cut: ExecutorCutView,
    k: int,
)
    requires
        0 <= k < calls.len(),
    ensures
        executor_step(
            ExecutorStageView::Tools(calls),
            q,
            ExecutorEventView::Interrupted(cut),
        ).actions[k] == ExecutorActionView::Send(
            OutgoingView::Notice(interrupt_result(calls[k], cut.payload)),
        ),
        cut.accumulator.phase == StreamPhase::Streaming && unfinished(
            cut.accumulator.tool_calls,
            Set::empty(),
        ) == calls ==> {
            let a = cut.accumulator;
            let actions = executor_step(
                ExecutorStageView::Streaming,
                q,
                ExecutorEventView::Interrupted(cut),
            ).actions;
            &&& actions[0] == reply_notice(a.text, a.reasoning, calls, "interrupted"@, a.usage)
            &&& actions[1 + k] == ExecutorActionView::Send(
                OutgoingView::Notice(interrupt_result(calls[k], cut.payload)),
            )
        },
{
    let results = shown(interrupt_records(calls, cut.payload));
    assert(results[k] == ExecutorActionView::Send(
        OutgoingView::Notice(interrupt_result(calls[k], cut.payload)),
    ));
    reveal(Seq::filter);
}

/// A final reply ends the turn exactly if no message waits in the guide queue.
pub proof fn law_waiting_messages_prolong_the_turn(q: MessageQueuesView, r: StreamResultView)
    requires
        r.tool_calls.len() == 0,
    ensures
        q.guide.len() > 0 ==> on_reply(q, r) == next_message(q, final_reply(r)),
        q.guide.len() == 0 ==> on_reply(q, r) == turn_over(q, final_reply(r)),
{
}

/// A stop ends an executor wherever it stands, also in the middle of a turn: no other
/// turn begins, and what waits in the queues stays there.
pub proof fn law_a_stop_ends_the_executor(stage: ExecutorStageView, q: MessageQueuesView)
    ensures
        ({
            let n = executor_step(stage, q, ExecutorEventView::Stopped);
            &&& n.stage is Ended
            &&& n.queues == q
            &&& !(stage is Ended) ==> n.actions == seq![ExecutorActionView::Exit]
        }),
{
}

/// An executor that has ended does nothing more.
pub proof fn law_ended_executors_stay_ended(q: MessageQueuesView, e: ExecutorEventView)
    ensures
        executor_step(ExecutorStageView::Ended, q, e) == (ExecutorNext {
            stage: ExecutorStageView::Ended,
            queues: q,
            actions: Seq::empty(),
        }),
{
}

// ---- what the executor does, outright ----

/// Whether two actions show a message that is taken up: the message itself, and under its
/// base how long the queues are after that.
pub open spec fn takes_up(
    shown: ExecutorActionView,
    told: ExecutorActionView,
    message: UserMessageView,
    after: MessageQueuesView,
) -> bool {
    &&& shown is Deliver
    &&& shown->Deliver_0 == OutputEventView::User(message)
    &&& told is Announce
    &&& told->Announce_0 is QueueUpdate
    &&& told->Announce_0->QueueUpdate_0.base == message.base
    &&& told->Announce_0->QueueUpdate_0.payload.kind == QueueUpdateKind::Consumed
    &&& after.guide.len() <= usize::MAX ==> told->Announce_0->QueueUpdate_0.payload.guide_count
        == after.guide.len()
    &&& after.pending.len() <= usize::MAX
        ==> told->Announce_0->QueueUpdate_0.payload.pending_count == after.pending.len()
}

/// An executor that looks for work moves what is pending behind the guide messages, and
/// says so if there was anything. Then it takes up the first message, alone, announces a
/// turn and begins a round; or it waits where there is none.
pub proof fn law_how_an_executor_looks_for_work(q: MessageQueuesView)
    ensures
        ({
            let n = executor_poll(q);
            let all = q.guide + q.pending;
            let first: int = if q.pending.len() > 0 {
                1
            } else {
                0
            };
            &&& n.queues.pending.len() == 0
            &&& first == 1 ==> n.actions[0] is Announce && n.actions[0]->Announce_0 is QueueUpdate
                && n.actions[0]->Announce_0->QueueUpdate_0.payload.kind
                == QueueUpdateKind::Transferred
            &&& all.len() == 0 ==> n.stage is Idle && n.queues.guide.len() == 0 && n.actions.len()
                == first + 1 && n.actions[first] is Wait
            &&& all.len() > 0 ==> {
                &&& n.stage is RoundStart
                &&& all == seq![all[0]] + n.queues.guide
                &&& n.actions.len() == first + 4
                &&& takes_up(
                    n.actions[first],
                    n.actions[first + 1],
                    all[0].message,
                    n.queues,
                )
                &&& n.actions[first + 2] is Send
                &&& n.actions[first + 2]->Send_0 is Notice
                &&& n.actions[first + 2]->Send_0->Notice_0 is TurnStart
                &&& n.actions[first + 3] is CheckCommand
            }
        }),
{
    let all = q.guide + q.pending;
    if all.len() > 0 {
        assert(all =~= seq![all[0]] + executor_poll(q).queues.guide);
    }
}

/// A round begins with a call of the model unless a command is waiting. A failed call
/// and an interrupt before the call end the turn, and the executor looks for work.
pub proof fn law_how_a_round_begins(q: MessageQueuesView, cut: ExecutorCutView)
    ensures
        ({
            let n = executor_step(
                ExecutorStageView::RoundStart,
                q,
                ExecutorEventView::NoCommand,
            );
            &&& n.stage is Streaming
            &&& n.queues == q
            &&& n.actions.len() == 1
            &&& n.actions[0] is CallModel
        }),
        executor_step(
            ExecutorStageView::RoundStart,
            q,
            ExecutorEventView::Interrupted(cut),
        ) == executor_poll(q),
        executor_step(ExecutorStageView::Streaming, q, ExecutorEventView::StreamFailed)
            == executor_poll(q),
        executor_step(ExecutorStageView::Idle, q, ExecutorEventView::Woken) == executor_poll(q),
        executor_step(ExecutorStageView::Idle, q, ExecutorEventView::Interrupted(cut))
            == executor_poll(q),
{
}

/// Whether an event is a reply of the model: what it says, thinks and calls, why it
/// ended and what it used.
pub open spec fn is_reply(
    event: OutputEventView,
    text: Seq<char>,
    reasoning: Seq<char>,
    calls: Seq<ToolCallDataView>,
    reason: Seq<char>,
    usage: StreamUsage,
) -> bool {
    let p = event->Assistant_0.payload;
    &&& event is Assistant
    &&& text.len() > 0 ==> p.content == Some(text)
    &&& text.len() == 0 ==> p.content is None
    &&& reasoning.len() > 0 ==> p.reasoning == Some(reasoning)
    &&& reasoning.len() == 0 ==> p.reasoning is None
    &&& p.tool_calls is Some <==> calls.len() > 0
    &&& calls.len() > 0 ==> p.tool_calls->0.len() == calls.len()
    &&& forall|k: int|
        #![trigger calls[k]]
        0 <= k < calls.len() ==> p.tool_calls->0[k].tool_call_id == calls[k].id
            && p.tool_calls->0[k].tool_name == calls[k].name && p.tool_calls->0[k].tool_args
            == args_in(calls[k].arguments)
    &&& p.finish_reason == Some(reason)
    &&& p.prompt_tokens == usage.prompt_tokens
    &&& p.completion_tokens == usage.completion_tokens
    &&& p.total_tokens == usage.total_tokens
}

/// A reply with calls is sent whole, and exactly its calls are run. A final reply is sent
/// whole where it says or thinks anything; then the first guide message is taken up, or
/// the turn is over and the executor looks for work.
pub proof fn law_what_a_reply_leads_to(q: MessageQueuesView, r: StreamResultView)
    ensures
        ({
            let n = executor_step(ExecutorStageView::Streaming, q, ExecutorEventView::Streamed(r));
            let said: int = if r.text.len() > 0 || r.reasoning.len() > 0 {
                1
            } else {
                0
            };
            &&& r.tool_calls.len() > 0 ==> {
                &&& n.stage == ExecutorStageView::Tools(r.tool_calls)
                &&& n.queues == q
                &&& n.actions.len() == 2
                &&& n.actions[0] is SendReply
                &&& is_reply(
                    n.actions[0]->SendReply_0,
                    r.text,
                    r.reasoning,
                    r.tool_calls,
                    "tool_calls"@,
                    r.usage,
                )
                &&& n.actions[1] is RunTools
                &&& n.actions[1]->RunTools_0 == r.tool_calls
            }
            &&& r.tool_calls.len() == 0 && said == 1 ==> {
                &&& n.actions[0] is Send
                &&& n.actions[0]->Send_0 is Notice
                &&& is_reply(
                    n.actions[0]->Send_0->Notice_0,
                    r.text,
                    r.reasoning,
                    Seq::empty(),
                    "stop"@,
                    r.usage,
                )
            }
            &&& r.tool_calls.len() == 0 && q.guide.len() > 0 ==> {
                &&& n.stage is RoundStart
                &&& n.queues.pending == q.pending
                &&& q.guide == seq![q.guide[0]] + n.queues.guide
                &&& n.actions.len() == said + 3
                &&& takes_up(n.actions[said], n.actions[said + 1], q.guide[0].message, n.queues)
                &&& n.actions[said + 2] is CheckCommand
            }
            &&& r.tool_calls.len() == 0 && q.guide.len() == 0 ==> {
                &&& n.stage == executor_poll(q).stage
                &&& n.queues == executor_poll(q).queues
                &&& n.actions.skip(said) == executor_poll(q).actions
            }
        }),
{
    let n = executor_step(ExecutorStageView::Streaming, q, ExecutorEventView::Streamed(r));
    let said: int = if r.text.len() > 0 || r.reasoning.len() > 0 {
        1
    } else {
        0
    };
    if r.tool_calls.len() == 0 {
        if q.guide.len() > 0 {
            assert(q.guide =~= seq![q.guide[0]] + n.queues.guide);
        } else {
            assert(n.actions.skip(said) =~= executor_poll(q).actions);
        }
    }
}

/// When the tools are done the first guide message is taken up, if there is one, and
/// another round begins; no other message is touched.
pub proof fn law_what_follows_the_tools(q: MessageQueuesView, calls: Seq<ToolCallDataView>)
    ensures
        ({
            let n = executor_step(
                ExecutorStageView::Tools(calls),
                q,
                ExecutorEventView::ToolsDone,
            );
            &&& n.stage is RoundStart
            &&& n.queues.pending == q.pending
            &&& q.guide.len() == 0 ==> n.queues.guide.len() == 0 && n.actions.len() == 1
                && n.actions[0] is CheckCommand
            &&& q.guide.len() > 0 ==> {
                &&& q.guide == seq![q.guide[0]] + n.queues.guide
                &&& n.actions.len() == 3
                &&& takes_up(n.actions[0], n.actions[1], q.guide[0].message, n.queues)
                &&& n.actions[2] is CheckCommand
            }
        }),
{
    let n = executor_step(ExecutorStageView::Tools(calls), q, ExecutorEventView::ToolsDone);
    if q.guide.len() > 0 {
        assert(q.guide =~= seq![q.guide[0]] + n.queues.guide);
    }
}

/// An interrupted stream shows what it had brought: nothing during the wait before
/// another call; else one reply where it had brought anything, with its text, its
/// reasoning and its complete calls, and then a result for each of these calls. After
/// that, as after the results of interrupted tools, the executor looks for work.
pub proof fn law_what_an_interrupt_leaves(
    q: MessageQueuesView,
    cut: ExecutorCutView,
    requested: Seq<ToolCallDataView>,
    k: int,
)
    ensures
        ({
            let a = cut.accumulator;
            let complete = complete_calls(a.tool_calls);
            let n = executor_step(
                ExecutorStageView::Streaming,
                q,
                ExecutorEventView::Interrupted(cut),
            );
            let content = a.text.len() > 0 || a.reasoning.len() > 0;
            let shown = a.phase == StreamPhase::Streaming && (content || complete.len() > 0);
            let last: int = if shown {
                1 + complete.len() as int
            } else {
                0
            };
            &&& shown ==> {
                &&& n.actions[0] is Send
                &&& n.actions[0]->Send_0 is Notice
                &&& is_reply(
                    n.actions[0]->Send_0->Notice_0,
                    a.text,
                    a.reasoning,
                    complete,
                    "interrupted"@,
                    a.usage,
                )
                &&& 0 <= k < complete.len() ==> shows_interrupted(
                    n.actions[1 + k],
                    complete[k],
                    cut.payload,
                )
            }
            &&& n.stage == executor_poll(q).stage
            &&& n.queues == executor_poll(q).queues
            &&& n.actions.skip(last) == executor_poll(q).actions
        }),
        ({
            let n = executor_step(
                ExecutorStageView::Tools(requested),
                q,
                ExecutorEventView::Interrupted(cut),
            );
            &&& 0 <= k < requested.len() ==> shows_interrupted(
                n.actions[k],
                requested[k],
                cut.payload,
            )
            &&& n.stage == executor_poll(q).stage
            &&& n.queues == executor_poll(q).queues
            &&& n.actions.skip(requested.len() as int) == executor_poll(q).actions
        }),
{
    let a = cut.accumulator;
    let complete = complete_calls(a.tool_calls);
    let valid = unfinished(a.tool_calls, Set::empty());
    lemma_complete(a.tool_calls);
    lemma_mark(cut.payload);
    let n = executor_step(ExecutorStageView::Streaming, q, ExecutorEventView::Interrupted(cut));
    let poll = executor_poll(q).actions;
    let content = a.text.len() > 0 || a.reasoning.len() > 0;
    let shown = a.phase == StreamPhase::Streaming && (content || complete.len() > 0);
    let last: int = if shown {
        1 + complete.len() as int
    } else {
        0
    };
    assert(n.actions.skip(last) =~= poll);
    if shown && 0 <= k < complete.len() {
        let results = shown_of(valid, cut.payload);
        assert(n.actions[1 + k] == results[k]);
    }
    let t = executor_step(ExecutorStageView::Tools(requested), q, ExecutorEventView::Interrupted(cut));
    assert(t.actions.skip(requested.len() as int) =~= poll);
    if 0 <= k < requested.len() {
        assert(t.actions[k] == shown_of(requested, cut.payload)[k]);
    }
}

spec fn shown_of(
    calls: Seq<ToolCallDataView>,
    payload: InterruptPayloadView,
) -> Seq<ExecutorActionView> {
    shown(interrupt_records(calls, payload))
}

/// Whether an action shows the result of an interrupted call.
pub open spec fn shows_interrupted(
    a: ExecutorActionView,
    call: ToolCallDataView,
    payload: InterruptPayloadView,
) -> bool {
    &&& a is Send
    &&& a->Send_0 is Notice
    &&& records_interrupted(OutgoingView::Record(a->Send_0->Notice_0), call, payload)
}

} // verus!
