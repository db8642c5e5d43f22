//! What is left to do when a turn is cut short.
//!
//! The user is told first. Then whatever the turn had produced so far is put on
//! record, and every tool call that will never be answered gets a result that says
//! so, since a model refuses a history in which a call has no result. A shutdown is
//! handled as an interrupt by the user is; only the source differs.
use crate::builders::{answered_ids, calls_of, nonempty, text_or_none, unanswered};
use crate::emit::{envelope, unsent};
use crate::history::{call_payload, calls_to_payloads, message_of};
use crate::json::args_in;
use crate::message::{
    AssistantPayload, AssistantPayloadView, InterruptPayload, InterruptPayloadView,
    InterruptSource, MessageRole, MessageView, OutputEvent, OutputEventView, ToolCallData,
    ToolCallDataView, ToolResultPayload, ToolResultPayloadView,
};
use crate::model::{empty_list, lemma_filter, push_item, Dup};
use crate::text::concat3;
use vstd::hash_set::StringHashSet;
use vstd::prelude::*;

verus! {

/// An event on its way out of a session.
#[derive(Debug)]
pub enum Outgoing {
    /// Shown, but not stored.
    Notice(OutputEvent),
    /// Stored and shown; nobody is billed for it.
    Record(OutputEvent),
}

/// The mathematical value of a [`Outgoing`].
#[verifier::ext_equal]
pub enum OutgoingView {
    Notice(OutputEventView),
    Record(OutputEventView),
}

impl View for Outgoing {
    type V = OutgoingView;

    open spec fn view(&self) -> OutgoingView {
        match self {
            Outgoing::Notice(x) => OutgoingView::Notice(x@),
            Outgoing::Record(x) => OutgoingView::Record(x@),
        }
    }
}

impl DeepView for Outgoing {
    type V = OutgoingView;

    open spec fn deep_view(&self) -> OutgoingView {
        self@
    }
}

impl Dup for Outgoing {
    fn dup(&self) -> (res: Self) {
        match self {
            Outgoing::Notice(x) => Outgoing::Notice(x.dup()),
            Outgoing::Record(x) => Outgoing::Record(x.dup()),
        }
    }
}

/// What a stream has brought so far.
#[derive(Debug)]
pub struct TurnState {
    pub text: String,
    pub reasoning: String,
    pub tool_calls: Vec<ToolCallData>,
}

/// The mathematical value of a [`TurnState`].
#[verifier::ext_equal]
pub struct TurnStateView {
    pub text: Seq<char>,
    pub reasoning: Seq<char>,
    pub tool_calls: Seq<ToolCallDataView>,
}

impl View for TurnState {
    type V = TurnStateView;

    open spec fn view(&self) -> TurnStateView {
        TurnStateView {
            text: self.text@,
            reasoning: self.reasoning@,
            tool_calls: self.tool_calls.deep_view(),
        }
    }
}

impl DeepView for TurnState {
    type V = TurnStateView;

    open spec fn deep_view(&self) -> TurnStateView {
        self@
    }
}

impl Dup for TurnState {
    fn dup(&self) -> (res: Self) {
        TurnState {
            text: self.text.dup(),
            reasoning: self.reasoning.dup(),
            tool_calls: self.tool_calls.dup(),
        }
    }
}

impl TurnState {
    /// Nothing yet.
    pub open spec fn blank() -> TurnStateView {
        TurnStateView { text: ""@, reasoning: ""@, tool_calls: Seq::empty() }
    }

    /// Nothing yet.
    pub fn new() -> (res: TurnState)
        ensures
            res@ == TurnState::blank(),
    {
        TurnState { text: "".to_owned(), reasoning: "".to_owned(), tool_calls: empty_list() }
    }

    /// Forgets everything, for another attempt.
    pub fn clear(&mut self)
        ensures
            final(self)@ == TurnState::blank(),
    {
        self.text = "".to_owned();
        self.reasoning = "".to_owned();
        self.tool_calls = empty_list();
    }

    /// Whether the model had begun to answer.
    pub fn has_started(&self) -> (res: bool)
        ensures
            res == (self@.text.len() > 0 || self@.reasoning.len() > 0),
    {
        !self.text.as_str().is_empty() || !self.reasoning.as_str().is_empty()
    }
}

impl Default for TurnState {
    fn default() -> (res: TurnState)
        ensures
            res@ == TurnState::blank(),
    {
        TurnState::new()
    }
}

/// What a stream was doing when it was interrupted.
#[derive(Clone, Copy, Debug, PartialEq, Eq, Structural)]
pub enum InterruptKind {
    /// It had begun to call tools.
    StreamingWithToolCalls,
    /// It had brought text or reasoning at most.
    Streaming,
}

/// What a stream was doing when it was interrupted.
pub fn classify(tool_calls: &Vec<ToolCallData>) -> (res: InterruptKind)
    ensures
        res == if tool_calls@.len() == 0 {
            InterruptKind::Streaming
        } else {
            InterruptKind::StreamingWithToolCalls
        },
{
    if tool_calls.len() == 0 {
        InterruptKind::Streaming
    } else {
        InterruptKind::StreamingWithToolCalls
    }
}

/// How a source is written.
pub open spec fn source_name(source: InterruptSource) -> Seq<char> {
    match source {
        InterruptSource::User => "User"@,
        InterruptSource::Stop => "Stop"@,
        InterruptSource::Shutdown => "Shutdown"@,
    }
}

/// How a source is written.
pub fn write_source(source: InterruptSource) -> (res: &'static str)
    ensures
        res@ == source_name(source),
{
    match source {
        InterruptSource::User => "User",
        InterruptSource::Stop => "Stop",
        InterruptSource::Shutdown => "Shutdown",
    }
}

/// What a result says that stands in for one which an interrupt prevented.
pub open spec fn interrupt_mark(payload: InterruptPayloadView) -> Seq<char> {
    "["@ + source_name(payload.source) + "]["@ + payload.reason + "]"@
}

/// The result that stands in for one which an interrupt prevented.
pub open spec fn interrupt_result(
    call: ToolCallDataView,
    payload: InterruptPayloadView,
) -> OutputEventView {
    OutputEventView::ToolResult(
        unsent(
            ToolResultPayloadView {
                tool_call_id: call.id,
                tool_name: call.name,
                content: interrupt_mark(payload),
            },
        ),
    )
}

/// Makes the result that stands in for one which an interrupt prevented.
pub fn make_interrupt_tool_result(
    tool_call_id: String,
    tool_name: String,
    payload: &InterruptPayload,
) -> (res: OutputEvent)
    ensures
        res@ == OutputEventView::ToolResult(
            unsent(
                ToolResultPayloadView {
                    tool_call_id: tool_call_id@,
                    tool_name: tool_name@,
                    content: interrupt_mark(payload@),
                },
            ),
        ),
{
    let head = concat3("[", write_source(payload.source), "][");
    let content = concat3(head.as_str(), payload.reason.as_str(), "]");
    OutputEvent::ToolResult(envelope(ToolResultPayload { tool_call_id, tool_name, content }))
}

/// The notice that the user gets of an interrupt.
pub open spec fn interrupt_notice(payload: InterruptPayloadView) -> OutgoingView {
    OutgoingView::Notice(OutputEventView::Interrupt(unsent(payload)))
}

/// Makes the notice that the user gets of an interrupt. It is all there is to do
/// when no turn is running.
pub fn notify_idle(payload: &InterruptPayload) -> (res: Outgoing)
    ensures
        res@ == interrupt_notice(payload@),
{
    Outgoing::Notice(OutputEvent::Interrupt(envelope(payload.dup())))
}

/// The reason that a shutdown gives.
pub const SHUTDOWN_REASON: &'static str = "引擎关闭";

/// A shutdown, as an interrupt.
pub open spec fn shutdown_interrupt() -> InterruptPayloadView {
    InterruptPayloadView { reason: SHUTDOWN_REASON@, source: InterruptSource::Shutdown }
}

/// A shutdown, as an interrupt.
pub fn shutdown_payload() -> (res: InterruptPayload)
    ensures
        res@ == shutdown_interrupt(),
{
    InterruptPayload { reason: SHUTDOWN_REASON.to_owned(), source: InterruptSource::Shutdown }
}

/// Whether a call is complete enough to be answered.
pub open spec fn valid_call(call: ToolCallDataView) -> bool {
    call.id.len() > 0 && call.name.len() > 0
}

/// Whether a call is complete enough to be answered.
pub fn is_valid_tool_call(call: &ToolCallData) -> (res: bool)
    ensures
        res == valid_call(call@),
{
    !call.id.as_str().is_empty() && !call.name.as_str().is_empty()
}

/// The calls that can be answered and are not, in order.
pub open spec fn unfinished(calls: Seq<ToolCallDataView>, answered: Set<Seq<char>>) -> Seq<
    ToolCallDataView,
> {
    calls.filter(|c: ToolCallDataView| valid_call(c) && !answered.contains(c.id))
}

/// Finds the calls that can be answered and are not.
pub fn unfinished_tool_calls(requested: &Vec<ToolCallData>, answered: &StringHashSet) -> (res: Vec<
    ToolCallData,
>)
    ensures
        res.deep_view() == unfinished(requested.deep_view(), answered@),
{
    let ghost all = requested.deep_view();
    let ghost open = |c: ToolCallDataView| valid_call(c) && !answered@.contains(c.id);
    let mut res: Vec<ToolCallData> = empty_list();
    let mut i: usize = 0;
    proof {
        reveal(Seq::filter);
        assert(all.take(0).filter(open) =~= Seq::empty());
    }
    while i < requested.len()
        invariant
            i <= requested.len(),
            all == requested.deep_view(),
            open == (|c: ToolCallDataView| valid_call(c) && !answered@.contains(c.id)),
            res.deep_view() == all.take(i as int).filter(open),
        decreases requested.len() - i,
    {
        let call = &requested[i];
        proof {
            reveal(Seq::filter);
            assert(all.take(i + 1).drop_last() =~= all.take(i as int));
            assert(all.take(i + 1).last() == call@);
        }
        if is_valid_tool_call(call) && !answered.contains(call.id.as_str()) {
            push_item(&mut res, call.dup());
        }
        i += 1;
    }
    assert(all.take(i as int) =~= all);
    res
}

/// A reply that was cut short. The model had not said what it used, so the token
/// counts are all 0.
pub open spec fn interrupted_payload(
    text: Seq<char>,
    reasoning: Seq<char>,
    calls: Option<Seq<ToolCallDataView>>,
) -> AssistantPayloadView {
    AssistantPayloadView {
        content: nonempty(text),
        reasoning: nonempty(reasoning),
        tool_calls: match calls {
            Some(list) => Some(list.map_values(|c| call_payload(c))),
            None => None,
        },
        finish_reason: Some("interrupted"@),
        completion_tokens: 0,
        prompt_tokens: 0,
        total_tokens: 0,
        reasoning_tokens: 0,
        cached_tokens: 0,
    }
}

/// Makes a reply that was cut short.
pub fn interrupted_assistant_payload(
    text: &str,
    reasoning: &str,
    tool_calls: Option<&Vec<ToolCallData>>,
) -> (res: AssistantPayload)
    ensures
        res@ == interrupted_payload(
            text@,
            reasoning@,
            match tool_calls {
                Some(list) => Some(list.deep_view()),
                None => None,
            },
        ),
{
    AssistantPayload {
        content: text_or_none(text),
        reasoning: text_or_none(reasoning),
        tool_calls: match tool_calls {
            Some(list) => Some(calls_to_payloads(list)),
            None => None,
        },
        finish_reason: Some("interrupted".to_owned()),
        completion_tokens: 0,
        prompt_tokens: 0,
        total_tokens: 0,
        reasoning_tokens: 0,
        cached_tokens: 0,
    }
}

/// A result on record for each of some calls, in order.
pub open spec fn interrupt_records(
    calls: Seq<ToolCallDataView>,
    payload: InterruptPayloadView,
) -> Seq<OutgoingView> {
    calls.map_values(|c| OutgoingView::Record(interrupt_result(c, payload)))
}

/// Puts a result on record for each of some calls.
pub fn push_interrupt_records(
    out: &mut Vec<Outgoing>,
    calls: &Vec<ToolCallData>,
    payload: &InterruptPayload,
)
    ensures
        final(out).deep_view() == old(out).deep_view() + interrupt_records(
            calls.deep_view(),
            payload@,
        ),
{
    let ghost before = out.deep_view();
    let ghost all = calls.deep_view();
    let mut i: usize = 0;
    assert(before + interrupt_records(all.take(0), payload@) =~= before);
    while i < calls.len()
        invariant
            i <= calls.len(),
            all == calls.deep_view(),
            out.deep_view() == before + interrupt_records(all.take(i as int), payload@),
        decreases calls.len() - i,
    {
        let call = &calls[i];
        let result = make_interrupt_tool_result(call.id.dup(), call.name.dup(), payload);
        push_item(out, Outgoing::Record(result));
        i += 1;
        assert(out.deep_view() =~= before + interrupt_records(all.take(i as int), payload@));
    }
    assert(all.take(i as int) =~= all);
}

/// A reply on record.
pub open spec fn reply_record(payload: AssistantPayloadView) -> OutgoingView {
    OutgoingView::Record(OutputEventView::Assistant(unsent(payload)))
}

/// What is left to do when a stream is interrupted: the notice, then what the
/// stream had brought, then a result for every call it had completed. A stream
/// that had brought nothing leaves no reply.
pub open spec fn finished_streaming(
    state: TurnStateView,
    payload: InterruptPayloadView,
) -> Seq<OutgoingView> {
    let notice = seq![interrupt_notice(payload)];
    if state.tool_calls.len() > 0 {
        let valid = unfinished(state.tool_calls, Set::empty());
        notice + seq![
            reply_record(interrupted_payload(state.text, state.reasoning, Some(valid))),
        ] + interrupt_records(valid, payload)
    } else if state.text.len() > 0 || state.reasoning.len() > 0 {
        notice + seq![reply_record(interrupted_payload(state.text, state.reasoning, None))]
    } else {
        notice
    }
}

/// Does what is left to do when a stream is interrupted.
pub fn finish_streaming(state: &TurnState, payload: &InterruptPayload) -> (res: Vec<Outgoing>)
    ensures
        res.deep_view() == finished_streaming(state@, payload@),
{
    let mut res: Vec<Outgoing> = empty_list();
    push_item(&mut res, notify_idle(payload));
    assert(res.deep_view() =~= seq![interrupt_notice(payload@)]);
    match classify(&state.tool_calls) {
        InterruptKind::StreamingWithToolCalls => {
            let none = StringHashSet::new();
            let valid = unfinished_tool_calls(&state.tool_calls, &none);
            let reply = interrupted_assistant_payload(
                state.text.as_str(),
                state.reasoning.as_str(),
                Some(&valid),
            );
            push_item(&mut res, Outgoing::Record(OutputEvent::Assistant(envelope(reply))));
            assert(res.deep_view() =~= seq![interrupt_notice(payload@)] + seq![
                reply_record(
                    interrupted_payload(state@.text, state@.reasoning, Some(valid.deep_view())),
                ),
            ]);
            push_interrupt_records(&mut res, &valid, payload);
        },
        InterruptKind::Streaming => {
            if state.has_started() {
                let reply = interrupted_assistant_payload(
                    state.text.as_str(),
                    state.reasoning.as_str(),
                    None,
                );
                push_item(&mut res, Outgoing::Record(OutputEvent::Assistant(envelope(reply))));
                assert(res.deep_view() =~= finished_streaming(state@, payload@));
            }
        },
    }
    res
}

/// What is left to do when a batch of tools is interrupted: the notice, then a
/// result for every call that has none. The reply that made the calls is on record
/// already.
pub open spec fn finished_tool_batch(
    requested: Seq<ToolCallDataView>,
    answered: Set<Seq<char>>,
    payload: InterruptPayloadView,
) -> Seq<OutgoingView> {
    seq![interrupt_notice(payload)] + interrupt_records(unfinished(requested, answered), payload)
}

/// Does what is left to do when a batch of tools is interrupted.
pub fn finish_tool_batch(
    requested: &Vec<ToolCallData>,
    answered: &StringHashSet,
    payload: &InterruptPayload,
) -> (res: Vec<Outgoing>)
    ensures
        res.deep_view() == finished_tool_batch(requested.deep_view(), answered@, payload@),
{
    let mut res: Vec<Outgoing> = empty_list();
    push_item(&mut res, notify_idle(payload));
    assert(res.deep_view() =~= seq![interrupt_notice(payload@)]);
    let open = unfinished_tool_calls(requested, answered);
    push_interrupt_records(&mut res, &open, payload);
    res
}

// ---- laws ----

/// Whether an event on its way out puts a result for a call on record.
pub open spec fn answers(out: OutgoingView, id: Seq<char>) -> bool {
    out is Record && out->Record_0 is ToolResult
        && out->Record_0->ToolResult_0.payload.tool_call_id == id
}

/// Whether a row of events on their way out answers a call.
pub open spec fn some_answers(outs: Seq<OutgoingView>, id: Seq<char>) -> bool {
    exists|i: int| 0 <= i < outs.len() && answers(#[trigger] outs[i], id)
}

proof fn lemma_records_answer(
    calls: Seq<ToolCallDataView>,
    payload: InterruptPayloadView,
    head: Seq<OutgoingView>,
    id: Seq<char>,
)
    requires
        forall|i: int| 0 <= i < head.len() ==> !answers(#[trigger] head[i], id),
    ensures
        some_answers(head + interrupt_records(calls, payload), id) <==> exists|k: int|
            0 <= k < calls.len() && (#[trigger] calls[k]).id == id,
{
    let records = interrupt_records(calls, payload);
    let outs = head + records;
    if some_answers(outs, id) {
        let i = choose|i: int| 0 <= i < outs.len() && answers(#[trigger] outs[i], id);
        if i < head.len() {
            assert(outs[i] == head[i]);
        } else {
            assert(outs[i] == records[i - head.len()]);
            assert(calls[i - head.len()].id == id);
        }
    }
    if exists|k: int| 0 <= k < calls.len() && (#[trigger] calls[k]).id == id {
        let k = choose|k: int| 0 <= k < calls.len() && (#[trigger] calls[k]).id == id;
        assert(outs[head.len() + k] == records[k]);
        assert(answers(outs[head.len() + k], id));
    }
}

/// When a batch of tools is interrupted, each call that can be answered ends with
/// a result: one it had already, or one that says it was interrupted. A call that
/// had a result gets no second one.
pub proof fn law_interrupted_batch_answers_the_rest(
    requested: Seq<ToolCallDataView>,
    answered: Set<Seq<char>>,
    payload: InterruptPayloadView,
    id: Seq<char>,
)
    ensures
        some_answers(finished_tool_batch(requested, answered, payload), id) <==> !answered.contains(
            id,
        ) && exists|k: int|
            0 <= k < requested.len() && valid_call(#[trigger] requested[k]) && requested[k].id
                == id,
{
    let open = unfinished(requested, answered);
    let keep = |c: ToolCallDataView| valid_call(c) && !answered.contains(c.id);
    lemma_filter(requested, keep);
    lemma_records_answer(open, payload, seq![interrupt_notice(payload)], id);
    if exists|k: int| 0 <= k < open.len() && (#[trigger] open[k]).id == id {
        let k = choose|k: int| 0 <= k < open.len() && (#[trigger] open[k]).id == id;
        assert(keep(open[k]));
        assert(requested.contains(open[k]));
        let j = choose|j: int| 0 <= j < requested.len() && requested[j] == open[k];
        assert(valid_call(requested[j]));
    }
    if !answered.contains(id) && exists|k: int|
        0 <= k < requested.len() && valid_call(#[trigger] requested[k]) && requested[k].id == id {
        let k = choose|k: int|
            0 <= k < requested.len() && valid_call(#[trigger] requested[k]) && requested[k].id == id;
        assert(keep(requested[k]));
        assert(open.contains(requested[k]));
        let j = choose|j: int| 0 <= j < open.len() && open[j] == requested[k];
        assert(open[j].id == id);
    }
}

/// When a stream is interrupted, each call it had completed gets a result, and no
/// other call does.
pub proof fn law_interrupted_stream_answers_its_calls(
    state: TurnStateView,
    payload: InterruptPayloadView,
    id: Seq<char>,
)
    ensures
        some_answers(finished_streaming(state, payload), id) <==> exists|k: int|
            0 <= k < state.tool_calls.len() && valid_call(#[trigger] state.tool_calls[k])
                && state.tool_calls[k].id == id,
{
    let calls = state.tool_calls;
    let outs = finished_streaming(state, payload);
    if calls.len() > 0 {
        let valid = unfinished(calls, Set::empty());
        let keep = |c: ToolCallDataView| valid_call(c) && !Set::<Seq<char>>::empty().contains(c.id);
        lemma_filter(calls, keep);
        let head = seq![interrupt_notice(payload)] + seq![
            reply_record(interrupted_payload(state.text, state.reasoning, Some(valid))),
        ];
        assert(outs == head + interrupt_records(valid, payload));
        lemma_records_answer(valid, payload, head, id);
        if exists|k: int| 0 <= k < valid.len() && (#[trigger] valid[k]).id == id {
            let k = choose|k: int| 0 <= k < valid.len() && (#[trigger] valid[k]).id == id;
            assert(keep(valid[k]));
            assert(calls.contains(valid[k]));
            let j = choose|j: int| 0 <= j < calls.len() && calls[j] == valid[k];
            assert(valid_call(calls[j]));
        }
        if exists|k: int|
            0 <= k < calls.len() && valid_call(#[trigger] calls[k]) && calls[k].id == id {
            let k = choose|k: int|
                0 <= k < calls.len() && valid_call(#[trigger] calls[k]) && calls[k].id == id;
            assert(keep(calls[k]));
            assert(valid.contains(calls[k]));
            let j = choose|j: int| 0 <= j < valid.len() && valid[j] == calls[k];
            assert(valid[j].id == id);
        }
    } else {
        assert forall|i: int| 0 <= i < outs.len() implies !answers(#[trigger] outs[i], id) by {
            assert(i == 0 || i == 1);
        }
    }
}

/// Whatever is interrupted, the notice comes first, and it is the only notice.
pub proof fn law_interrupt_is_announced_first(
    state: TurnStateView,
    requested: Seq<ToolCallDataView>,
    answered: Set<Seq<char>>,
    payload: InterruptPayloadView,
)
    ensures
        finished_streaming(state, payload).first() == interrupt_notice(payload),
        finished_tool_batch(requested, answered, payload).first() == interrupt_notice(payload),
        forall|i: int|
            0 < i < finished_streaming(state, payload).len() ==> (
            #[trigger] finished_streaming(state, payload)[i]) is Record,
        forall|i: int|
            0 < i < finished_tool_batch(requested, answered, payload).len() ==> (
            #[trigger] finished_tool_batch(requested, answered, payload)[i]) is Record,
{
}

/// The messages that a row of events on their way out puts in the history, if
/// nothing goes wrong.
pub open spec fn recorded(outs: Seq<OutgoingView>) -> Seq<MessageView>
    decreases outs.len(),
{
    if outs.len() == 0 {
        Seq::empty()
    } else {
        let before = recorded(outs.drop_last());
        match outs.last() {
            OutgoingView::Record(event) => match message_of(event, None) {
                Some(msg) => before.push(msg),
                None => before,
            },
            OutgoingView::Notice(_) => before,
        }
    }
}

proof fn lemma_recorded_has(outs: Seq<OutgoingView>, i: int)
    requires
        0 <= i < outs.len(),
        outs[i] is Record,
        message_of(outs[i]->Record_0, None) is Some,
    ensures
        recorded(outs).contains(message_of(outs[i]->Record_0, None)->0),
    decreases outs.len(),
{
    let m = message_of(outs[i]->Record_0, None)->0;
    let before = recorded(outs.drop_last());
    if i == outs.len() - 1 {
        assert(recorded(outs)[before.len() as int] == m);
    } else {
        assert(outs.drop_last()[i] == outs[i]);
        lemma_recorded_has(outs.drop_last(), i);
        let j = choose|j: int| 0 <= j < before.len() && before[j] == m;
        assert(recorded(outs)[j] == m);
    }
}

proof fn lemma_recorded_source(outs: Seq<OutgoingView>, j: int)
    requires
        0 <= j < recorded(outs).len(),
    ensures
        exists|i: int|
            0 <= i < outs.len() && (#[trigger] outs[i]) is Record && message_of(
                outs[i]->Record_0,
                None,
            ) == Some(recorded(outs)[j]),
    decreases outs.len(),
{
    let front = outs.drop_last();
    if j < recorded(front).len() {
        lemma_recorded_source(front, j);
        let i = choose|i: int|
            0 <= i < front.len() && (#[trigger] front[i]) is Record && message_of(
                front[i]->Record_0,
                None,
            ) == Some(recorded(front)[j]);
        assert(outs[i] == front[i]);
    } else {
        assert(outs[outs.len() - 1] is Record);
    }
}

/// What an interrupted stream leaves in the history is complete: every call that it
/// puts on record has a result on record too, so that the next request needs nothing
/// to stand in for one.
pub proof fn law_interrupted_stream_leaves_no_open_call(
    history: Seq<MessageView>,
    state: TurnStateView,
    payload: InterruptPayloadView,
    j: int,
    k: int,
)
    requires
        0 <= j < recorded(finished_streaming(state, payload)).len(),
        0 <= k < calls_of(recorded(finished_streaming(state, payload))[j]).len(),
    ensures
        !unanswered(
            calls_of(recorded(finished_streaming(state, payload))[j])[k],
            answered_ids(history + recorded(finished_streaming(state, payload))),
        ),
{
    let outs = finished_streaming(state, payload);
    let msgs = recorded(outs);
    let all = history + msgs;
    lemma_recorded_source(outs, j);
    let i = choose|i: int|
        0 <= i < outs.len() && (#[trigger] outs[i]) is Record && message_of(
            outs[i]->Record_0,
            None,
        ) == Some(msgs[j]);
    let valid = unfinished(state.tool_calls, Set::empty());
    if state.tool_calls.len() > 0 {
        let records = interrupt_records(valid, payload);
        if i >= 2 {
            assert(outs[i] == records[i - 2]);
            assert(msgs[j].role == MessageRole::Tool);
        } else {
            assert(i == 1);
            let call = calls_of(msgs[j])[k];
            assert(call.id == valid[k].id);
            let at = 2 + k;
            assert(outs[at] == records[k]);
            lemma_recorded_has(outs, at);
            let m = message_of(outs[at]->Record_0, None)->0;
            assert(m.role == MessageRole::Tool && m.tool_call_id == Some(call.id));
            let n = choose|n: int| 0 <= n < msgs.len() && msgs[n] == m;
            assert(all[history.len() + n] == m);
            assert(answered_ids(all).contains(call.id));
        }
    } else {
        assert(i == 1);
        assert(msgs[j].tool_calls is None);
    }
}

// ---- what an interrupt leaves behind, field by field ----

/// Whether an event puts the result of an interrupted call on record: under the
/// identifier and the tool of the call, and naming who interrupted and why, in brackets.
pub open spec fn records_interrupted(
    out: OutgoingView,
    call: ToolCallDataView,
    payload: InterruptPayloadView,
) -> bool {
    &&& out is Record
    &&& out->Record_0 is ToolResult
    &&& out->Record_0->ToolResult_0.payload.tool_call_id == call.id
    &&& out->Record_0->ToolResult_0.payload.tool_name == call.name
    &&& out->Record_0->ToolResult_0.payload.content == (match payload.source {
        InterruptSource::User => "[User]["@,
        InterruptSource::Stop => "[Stop]["@,
        InterruptSource::Shutdown => "[Shutdown]["@,
    }) + payload.reason + "]"@
}

pub proof fn lemma_mark(payload: InterruptPayloadView)
    ensures
        interrupt_mark(payload) == (match payload.source {
            InterruptSource::User => "[User]["@,
            InterruptSource::Stop => "[Stop]["@,
            InterruptSource::Shutdown => "[Shutdown]["@,
        }) + payload.reason + "]"@,
{
    reveal_strlit("[");
    reveal_strlit("][");
    reveal_strlit("User");
    reveal_strlit("Stop");
    reveal_strlit("Shutdown");
    reveal_strlit("[User][");
    reveal_strlit("[Stop][");
    reveal_strlit("[Shutdown][");
    match payload.source {
        InterruptSource::User => {
            assert("["@ + "User"@ + "]["@ =~= "[User]["@);
        },
        InterruptSource::Stop => {
            assert("["@ + "Stop"@ + "]["@ =~= "[Stop]["@);
        },
        InterruptSource::Shutdown => {
            assert("["@ + "Shutdown"@ + "]["@ =~= "[Shutdown]["@);
        },
    }
}

/// The calls that have both an identifier and a tool, in order.
pub open spec fn complete_calls(calls: Seq<ToolCallDataView>) -> Seq<ToolCallDataView> {
    calls.filter(|c: ToolCallDataView| c.id.len() > 0 && c.name.len() > 0)
}

/// A stream that is interrupted leaves the notice of the interrupt and, where it had
/// brought anything, exactly one reply, which keeps all of it: the text and the
/// reasoning, each where there is any, and the complete calls. Each of these calls has
/// one result on record after the reply, in order, and nothing else is on record.
pub proof fn law_interrupted_stream_keeps_what_it_brought(
    state: TurnStateView,
    payload: InterruptPayloadView,
)
    ensures
        ({
            let outs = finished_streaming(state, payload);
            let complete = complete_calls(state.tool_calls);
            let brought = state.text.len() > 0 || state.reasoning.len() > 0
                || state.tool_calls.len() > 0;
            &&& outs[0] is Notice
            &&& outs[0]->Notice_0 is Interrupt
            &&& outs[0]->Notice_0->Interrupt_0.payload == payload
            &&& !brought ==> outs.len() == 1
            &&& brought ==> {
                let reply = outs[1]->Record_0->Assistant_0.payload;
                &&& outs.len() == 2 + complete.len()
                &&& outs[1] is Record
                &&& outs[1]->Record_0 is Assistant
                &&& reply.content == if state.text.len() > 0 {
                    Some(state.text)
                } else {
                    None
                }
                &&& reply.reasoning == if state.reasoning.len() > 0 {
                    Some(state.reasoning)
                } else {
                    None
                }
                &&& reply.finish_reason == Some("interrupted"@)
                &&& reply.prompt_tokens == 0
                &&& reply.completion_tokens == 0
                &&& reply.total_tokens == 0
                &&& reply.reasoning_tokens == 0
                &&& reply.cached_tokens == 0
                &&& state.tool_calls.len() == 0 ==> reply.tool_calls is None
                &&& state.tool_calls.len() > 0 ==> reply.tool_calls is Some
                    && reply.tool_calls->0.len() == complete.len()
                &&& forall|k: int|
                    #![trigger complete[k]]
                    0 <= k < complete.len() ==> {
                        &&& reply.tool_calls->0[k].tool_call_id == complete[k].id
                        &&& reply.tool_calls->0[k].tool_name == complete[k].name
                        &&& reply.tool_calls->0[k].tool_args == args_in(complete[k].arguments)
                        &&& records_interrupted(outs[2 + k], complete[k], payload)
                    }
            }
        }),
{
    lemma_mark(payload);
    lemma_complete(state.tool_calls);
}

/// The calls that can be answered while none is answered are the complete ones.
pub proof fn lemma_complete(calls: Seq<ToolCallDataView>)
    ensures
        unfinished(calls, Set::empty()) == complete_calls(calls),
        calls.len() == 0 ==> complete_calls(calls).len() == 0,
{
    lemma_same_filter(
        calls,
        |c: ToolCallDataView| c.id.len() > 0 && c.name.len() > 0,
        |c: ToolCallDataView| valid_call(c) && !Set::<Seq<char>>::empty().contains(c.id),
    );
    lemma_filter(calls, |c: ToolCallDataView| c.id.len() > 0 && c.name.len() > 0);
}

/// Filters that keep the same items keep the same of a list.
proof fn lemma_same_filter<T>(s: Seq<T>, a: spec_fn(T) -> bool, b: spec_fn(T) -> bool)
    requires
        forall|x: T| #[trigger] a(x) == b(x),
    ensures
        s.filter(a) == s.filter(b),
    decreases s.len(),
{
    reveal(Seq::filter);
    if s.len() > 0 {
        lemma_same_filter(s.drop_last(), a, b);
        assert(a(s.last()) == b(s.last()));
    }
}

/// A batch of tools that is interrupted leaves the notice, and then exactly one result
/// for each complete call that has none yet, in the order of the calls.
pub proof fn law_interrupted_batch_leaves_one_result_each(
    requested: Seq<ToolCallDataView>,
    answered: Set<Seq<char>>,
    payload: InterruptPayloadView,
)
    ensures
        ({
            let outs = finished_tool_batch(requested, answered, payload);
            let open = requested.filter(
                |c: ToolCallDataView|
                    c.id.len() > 0 && c.name.len() > 0 && !answered.contains(c.id),
            );
            &&& outs.len() == 1 + open.len()
            &&& outs[0] is Notice
            &&& outs[0]->Notice_0 is Interrupt
            &&& outs[0]->Notice_0->Interrupt_0.payload == payload
            &&& forall|k: int|
                0 <= k < open.len() ==> records_interrupted(
                    outs[1 + k],
                    #[trigger] open[k],
                    payload,
                )
        }),
{
    lemma_mark(payload);
    lemma_same_filter(
        requested,
        |c: ToolCallDataView| c.id.len() > 0 && c.name.len() > 0 && !answered.contains(c.id),
        |c: ToolCallDataView| valid_call(c) && !answered.contains(c.id),
    );
}

/// A shutdown counts as an interrupt that says so, and an interrupt that nothing runs
/// under is only announced.
pub proof fn law_shutdown_names_itself(payload: InterruptPayloadView)
    ensures
        shutdown_interrupt().source == InterruptSource::Shutdown,
        shutdown_interrupt().reason == "引擎关闭"@,
        interrupt_notice(payload) is Notice,
        interrupt_notice(payload)->Notice_0 is Interrupt,
        interrupt_notice(payload)->Notice_0->Interrupt_0.payload == payload,
{
}

/// A turn's state that has just been cleared holds nothing.
pub proof fn law_a_cleared_state_holds_nothing()
    ensures
        TurnState::blank().text.len() == 0,
        TurnState::blank().reasoning.len() == 0,
        TurnState::blank().tool_calls.len() == 0,
{
    reveal_strlit("");
}

} // verus!
