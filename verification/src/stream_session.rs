//! One call of a model, from the first piece of its reply to the last tool call.
//!
//! A call that fails is repeated where the failure may pass and the plugins agree.
//! Any piece that comes sets the count of failures back. When the stream has ended,
//! the plugins see its tool calls one by one; what they leave is what is shown,
//! stored and run.
use crate::builders::{
    law_calls_go_past_the_plugins_whole, tool_call_data_to_event, tool_call_event,
    tool_call_event_to_data,
};
use crate::chat::{
    StreamOptions, StreamOptionsView, StreamResult, StreamResultView, StreamUsage, ThinkingType,
};
use crate::emit::{envelope, unsent};
use crate::interrupt::{Outgoing, OutgoingView};
use crate::message::{
    ErrorPayload, ErrorPayloadView, OutputEvent, OutputEventView, ToolCallData, ToolCallDataView,
};
use crate::model::{empty_list, push_item, Dup};
use crate::text::{
    concat, concat3, decimal, law_the_second_part, second, second_segment, write_decimal,
};
use crate::turn::{calls_left, shows, with_checked};
use vstd::prelude::*;
use vstd::string::*;

verus! {

/// What a stream is doing.
#[derive(Clone, Copy, Debug, PartialEq, Eq, Structural)]
pub enum StreamPhase {
    /// The model is replying.
    Streaming,
    /// The wait before another call is on.
    Backoff,
}

impl DeepView for StreamPhase {
    type V = StreamPhase;

    open spec fn deep_view(&self) -> StreamPhase {
        *self
    }
}

impl Dup for StreamPhase {
    fn dup(&self) -> (res: Self) {
        *self
    }
}

/// What a stream has brought so far, for whoever may have to cut it short.
#[derive(Debug)]
pub struct StreamAccumulator {
    pub text: String,
    pub reasoning: String,
    pub tool_calls: Vec<ToolCallData>,
    pub usage: StreamUsage,
    pub phase: StreamPhase,
}

/// The mathematical value of a [`StreamAccumulator`].
#[verifier::ext_equal]
pub struct StreamAccumulatorView {
    pub text: Seq<char>,
    pub reasoning: Seq<char>,
    pub tool_calls: Seq<ToolCallDataView>,
    pub usage: StreamUsage,
    pub phase: StreamPhase,
}

impl View for StreamAccumulator {
    type V = StreamAccumulatorView;

    open spec fn view(&self) -> StreamAccumulatorView {
        StreamAccumulatorView {
            text: self.text@,
            reasoning: self.reasoning@,
            tool_calls: self.tool_calls.deep_view(),
            usage: self.usage,
            phase: self.phase,
        }
    }
}

impl DeepView for StreamAccumulator {
    type V = StreamAccumulatorView;

    open spec fn deep_view(&self) -> StreamAccumulatorView {
        self@
    }
}

impl Dup for StreamAccumulator {
    fn dup(&self) -> (res: Self) {
        StreamAccumulator {
            text: self.text.dup(),
            reasoning: self.reasoning.dup(),
            tool_calls: self.tool_calls.dup(),
            usage: self.usage,
            phase: self.phase,
        }
    }
}

/// Which model an agent uses at the moment, and how.
#[derive(Debug)]
pub struct AgentModel {
    /// `provider/model`.
    pub model_id: Option<String>,
    pub thinking_type: Option<ThinkingType>,
    pub reasoning_effort: Option<String>,
}

/// The mathematical value of a [`AgentModel`].
#[verifier::ext_equal]
pub struct AgentModelView {
    pub model_id: Option<Seq<char>>,
    pub thinking_type: Option<ThinkingType>,
    pub reasoning_effort: Option<Seq<char>>,
}

impl View for AgentModel {
    type V = AgentModelView;

    open spec fn view(&self) -> AgentModelView {
        AgentModelView {
            model_id: self.model_id.deep_view(),
            thinking_type: self.thinking_type,
            reasoning_effort: self.reasoning_effort.deep_view(),
        }
    }
}

impl DeepView for AgentModel {
    type V = AgentModelView;

    open spec fn deep_view(&self) -> AgentModelView {
        self@
    }
}

impl Dup for AgentModel {
    fn dup(&self) -> (res: Self) {
        AgentModel {
            model_id: self.model_id.dup(),
            thinking_type: self.thinking_type,
            reasoning_effort: self.reasoning_effort.dup(),
        }
    }
}

/// A call of a model.
#[derive(Debug)]
pub struct StreamCall {
    /// The name that the provider knows the model by.
    pub model: String,
    pub options: StreamOptions,
}

/// The mathematical value of a [`StreamCall`].
#[verifier::ext_equal]
pub struct StreamCallView {
    pub model: Seq<char>,
    pub options: StreamOptionsView,
}

impl View for StreamCall {
    type V = StreamCallView;

    open spec fn view(&self) -> StreamCallView {
        StreamCallView {
            model: self.model@,
            options: self.options@,
        }
    }
}

impl DeepView for StreamCall {
    type V = StreamCallView;

    open spec fn deep_view(&self) -> StreamCallView {
        self@
    }
}

impl Dup for StreamCall {
    fn dup(&self) -> (res: Self) {
        StreamCall {
            model: self.model.dup(),
            options: self.options.dup(),
        }
    }
}

/// What a piece of the stream amounts to.
#[derive(Debug)]
pub struct DecodedEvent {
    /// The events that show it.
    pub events: Vec<OutputEvent>,
    /// The tool calls so far.
    pub tool_calls: Vec<ToolCallData>,
    /// The usage so far.
    pub usage: StreamUsage,
}

/// The mathematical value of a [`DecodedEvent`].
#[verifier::ext_equal]
pub struct DecodedEventView {
    pub events: Seq<OutputEventView>,
    pub tool_calls: Seq<ToolCallDataView>,
    pub usage: StreamUsage,
}

impl View for DecodedEvent {
    type V = DecodedEventView;

    open spec fn view(&self) -> DecodedEventView {
        DecodedEventView {
            events: self.events.deep_view(),
            tool_calls: self.tool_calls.deep_view(),
            usage: self.usage,
        }
    }
}

impl DeepView for DecodedEvent {
    type V = DecodedEventView;

    open spec fn deep_view(&self) -> DecodedEventView {
        self@
    }
}

impl Dup for DecodedEvent {
    fn dup(&self) -> (res: Self) {
        DecodedEvent {
            events: self.events.dup(),
            tool_calls: self.tool_calls.dup(),
            usage: self.usage,
        }
    }
}

/// A call that failed.
#[derive(Debug)]
pub struct LlmFailure {
    pub cause: String,
    /// Whether the failure may pass.
    pub retryable: bool,
}

/// The mathematical value of a [`LlmFailure`].
#[verifier::ext_equal]
pub struct LlmFailureView {
    pub cause: Seq<char>,
    pub retryable: bool,
}

impl View for LlmFailure {
    type V = LlmFailureView;

    open spec fn view(&self) -> LlmFailureView {
        LlmFailureView {
            cause: self.cause@,
            retryable: self.retryable,
        }
    }
}

impl DeepView for LlmFailure {
    type V = LlmFailureView;

    open spec fn deep_view(&self) -> LlmFailureView {
        self@
    }
}

impl Dup for LlmFailure {
    fn dup(&self) -> (res: Self) {
        LlmFailure {
            cause: self.cause.dup(),
            retryable: self.retryable,
        }
    }
}

/// What a stream that has ended leaves.
#[derive(Debug)]
pub struct StreamTail {
    /// All of its tool calls.
    pub tool_calls: Vec<ToolCallData>,
    pub usage: StreamUsage,
}

/// The mathematical value of a [`StreamTail`].
#[verifier::ext_equal]
pub struct StreamTailView {
    pub tool_calls: Seq<ToolCallDataView>,
    pub usage: StreamUsage,
}

impl View for StreamTail {
    type V = StreamTailView;

    open spec fn view(&self) -> StreamTailView {
        StreamTailView {
            tool_calls: self.tool_calls.deep_view(),
            usage: self.usage,
        }
    }
}

impl DeepView for StreamTail {
    type V = StreamTailView;

    open spec fn deep_view(&self) -> StreamTailView {
        self@
    }
}

impl Dup for StreamTail {
    fn dup(&self) -> (res: Self) {
        StreamTail {
            tool_calls: self.tool_calls.dup(),
            usage: self.usage,
        }
    }
}

/// A failure that the plugins are asked about.
#[derive(Debug)]
pub struct LlmErrorReport {
    pub cause: String,
    /// How many calls have failed in a row.
    pub attempt: u32,
}

/// The mathematical value of a [`LlmErrorReport`].
#[verifier::ext_equal]
pub struct LlmErrorReportView {
    pub cause: Seq<char>,
    pub attempt: u32,
}

impl View for LlmErrorReport {
    type V = LlmErrorReportView;

    open spec fn view(&self) -> LlmErrorReportView {
        LlmErrorReportView {
            cause: self.cause@,
            attempt: self.attempt,
        }
    }
}

impl DeepView for LlmErrorReport {
    type V = LlmErrorReportView;

    open spec fn deep_view(&self) -> LlmErrorReportView {
        self@
    }
}

impl Dup for LlmErrorReport {
    fn dup(&self) -> (res: Self) {
        LlmErrorReport {
            cause: self.cause.dup(),
            attempt: self.attempt,
        }
    }
}

/// What a stream is told.
#[derive(Debug)]
pub enum StreamSessionEvent {
    /// A piece has come.
    Decoded(DecodedEvent),
    /// The call failed.
    Failed(LlmFailure),
    /// The plugins have decided whether to call again.
    Decision(bool),
    /// The wait is over.
    Slept,
    /// The stream has ended.
    Ended(StreamTail),
    /// The plugins have seen a tool call: what they left of it, if anything.
    CallChecked(Option<OutputEvent>),
}

/// The mathematical value of a [`StreamSessionEvent`].
#[verifier::ext_equal]
pub enum StreamSessionEventView {
    Decoded(DecodedEventView),
    Failed(LlmFailureView),
    Decision(bool),
    Slept,
    Ended(StreamTailView),
    CallChecked(Option<OutputEventView>),
}

impl View for StreamSessionEvent {
    type V = StreamSessionEventView;

    open spec fn view(&self) -> StreamSessionEventView {
        match self {
            StreamSessionEvent::Decoded(x) => StreamSessionEventView::Decoded(x@),
            StreamSessionEvent::Failed(x) => StreamSessionEventView::Failed(x@),
            StreamSessionEvent::Decision(x) => StreamSessionEventView::Decision(*x),
            StreamSessionEvent::Slept => StreamSessionEventView::Slept,
            StreamSessionEvent::Ended(x) => StreamSessionEventView::Ended(x@),
            StreamSessionEvent::CallChecked(x) => StreamSessionEventView::CallChecked(x.deep_view()),
        }
    }
}

impl DeepView for StreamSessionEvent {
    type V = StreamSessionEventView;

    open spec fn deep_view(&self) -> StreamSessionEventView {
        self@
    }
}

impl Dup for StreamSessionEvent {
    fn dup(&self) -> (res: Self) {
        match self {
            StreamSessionEvent::Decoded(x) => StreamSessionEvent::Decoded(x.dup()),
            StreamSessionEvent::Failed(x) => StreamSessionEvent::Failed(x.dup()),
            StreamSessionEvent::Decision(x) => StreamSessionEvent::Decision(*x),
            StreamSessionEvent::Slept => StreamSessionEvent::Slept,
            StreamSessionEvent::Ended(x) => StreamSessionEvent::Ended(x.dup()),
            StreamSessionEvent::CallChecked(x) => StreamSessionEvent::CallChecked(x.dup()),
        }
    }
}

/// What a stream asks for.
#[derive(Debug)]
pub enum StreamSessionAction {
    /// Call the model that the agent uses at the moment.
    Open,
    /// Send an event.
    Send(Outgoing),
    /// Ask the plugins whether to call again.
    AskPlugins(LlmErrorReport),
    /// Wait as long as is due after so many failures in a row.
    Sleep(u32),
    /// Show a tool call to the plugins.
    CheckCall(OutputEvent),
    /// Show an event that has passed the plugins.
    Deliver(OutputEvent),
    /// The reply.
    Return(StreamResult),
    /// There is no reply, for this reason.
    Fail(String),
}

/// The mathematical value of a [`StreamSessionAction`].
#[verifier::ext_equal]
pub enum StreamSessionActionView {
    Open,
    Send(OutgoingView),
    AskPlugins(LlmErrorReportView),
    Sleep(u32),
    CheckCall(OutputEventView),
    Deliver(OutputEventView),
    Return(StreamResultView),
    Fail(Seq<char>),
}

impl View for StreamSessionAction {
    type V = StreamSessionActionView;

    open spec fn view(&self) -> StreamSessionActionView {
        match self {
            StreamSessionAction::Open => StreamSessionActionView::Open,
            StreamSessionAction::Send(x) => StreamSessionActionView::Send(x@),
            StreamSessionAction::AskPlugins(x) => StreamSessionActionView::AskPlugins(x@),
            StreamSessionAction::Sleep(x) => StreamSessionActionView::Sleep(*x),
            StreamSessionAction::CheckCall(x) => StreamSessionActionView::CheckCall(x@),
            StreamSessionAction::Deliver(x) => StreamSessionActionView::Deliver(x@),
            StreamSessionAction::Return(x) => StreamSessionActionView::Return(x@),
            StreamSessionAction::Fail(x) => StreamSessionActionView::Fail(x@),
        }
    }
}

impl DeepView for StreamSessionAction {
    type V = StreamSessionActionView;

    open spec fn deep_view(&self) -> StreamSessionActionView {
        self@
    }
}

impl Dup for StreamSessionAction {
    fn dup(&self) -> (res: Self) {
        match self {
            StreamSessionAction::Open => StreamSessionAction::Open,
            StreamSessionAction::Send(x) => StreamSessionAction::Send(x.dup()),
            StreamSessionAction::AskPlugins(x) => StreamSessionAction::AskPlugins(x.dup()),
            StreamSessionAction::Sleep(x) => StreamSessionAction::Sleep(*x),
            StreamSessionAction::CheckCall(x) => StreamSessionAction::CheckCall(x.dup()),
            StreamSessionAction::Deliver(x) => StreamSessionAction::Deliver(x.dup()),
            StreamSessionAction::Return(x) => StreamSessionAction::Return(x.dup()),
            StreamSessionAction::Fail(x) => StreamSessionAction::Fail(x.dup()),
        }
    }
}

impl StreamAccumulator {
    /// Nothing yet.
    pub open spec fn blank() -> StreamAccumulatorView {
        StreamAccumulatorView {
            text: ""@,
            reasoning: ""@,
            tool_calls: Seq::empty(),
            usage: StreamUsage::zero(),
            phase: StreamPhase::Streaming,
        }
    }

    /// Nothing yet.
    pub fn new() -> (res: StreamAccumulator)
        ensures
            res@ == StreamAccumulator::blank(),
    {
        StreamAccumulator {
            text: "".to_owned(),
            reasoning: "".to_owned(),
            tool_calls: empty_list(),
            usage: StreamUsage::new(),
            phase: StreamPhase::Streaming,
        }
    }

    /// Forgets everything.
    pub fn clear(&mut self)
        ensures
            final(self)@ == StreamAccumulator::blank(),
    {
        self.text = "".to_owned();
        self.reasoning = "".to_owned();
        self.tool_calls = empty_list();
        self.usage = StreamUsage::new();
        self.phase = StreamPhase::Streaming;
    }
}

// ---- the call ----

/// The name that the provider knows a model by: what stands between the first
/// slash and the second, or the whole name where there is no slash.
pub open spec fn short_name(model_id: Seq<char>) -> Seq<char> {
    match second_segment(model_id, '/') {
        Some(name) => name,
        None => model_id,
    }
}

/// The name that the provider knows a model by.
pub fn api_model_name(model_id: &str) -> (res: String)
    ensures
        res@ == short_name(model_id@),
{
    match second(model_id, '/') {
        Some(name) => name.to_owned(),
        None => model_id.to_owned(),
    }
}

/// The call that an agent makes with the model it uses at the moment.
pub open spec fn stream_call_of(model: AgentModelView, tools: Option<Seq<Seq<char>>>) -> StreamCallView {
    StreamCallView {
        model: short_name(
            match model.model_id {
                Some(id) => id,
                None => "unknown"@,
            },
        ),
        options: StreamOptionsView {
            tools,
            thinking_type: model.thinking_type,
            reasoning_effort: model.reasoning_effort,
        },
    }
}

/// Makes the call that an agent makes with the model it uses at the moment.
pub fn stream_call(model: &AgentModel, tools: Option<Vec<String>>) -> (res: StreamCall)
    ensures
        res@ == stream_call_of(model@, tools.deep_view()),
{
    StreamCall {
        model: match &model.model_id {
            Some(id) => api_model_name(id.as_str()),
            None => api_model_name("unknown"),
        },
        options: StreamOptions {
            tools,
            thinking_type: model.thinking_type,
            reasoning_effort: model.reasoning_effort.dup(),
        },
    }
}

// ---- the stream ----

/// The text that an event adds to the reply.
pub open spec fn event_text(event: OutputEventView) -> Seq<char> {
    match event {
        OutputEventView::Chunk(m) => match m.payload.content {
            Some(text) => text,
            None => Seq::empty(),
        },
        _ => Seq::empty(),
    }
}

/// The reasoning that an event adds to the reply.
pub open spec fn event_reasoning(event: OutputEventView) -> Seq<char> {
    match event {
        OutputEventView::Chunk(m) => match m.payload.reasoning {
            Some(text) => text,
            None => Seq::empty(),
        },
        _ => Seq::empty(),
    }
}

/// The text that a row of events adds to the reply.
pub open spec fn text_of(events: Seq<OutputEventView>) -> Seq<char>
    decreases events.len(),
{
    if events.len() == 0 {
        Seq::empty()
    } else {
        text_of(events.drop_last()) + event_text(events.last())
    }
}

/// The reasoning that a row of events adds to the reply.
pub open spec fn reasoning_of(events: Seq<OutputEventView>) -> Seq<char>
    decreases events.len(),
{
    if events.len() == 0 {
        Seq::empty()
    } else {
        reasoning_of(events.drop_last()) + event_reasoning(events.last())
    }
}

/// A reply whose tool calls the plugins are looking at.
pub struct TailCheck {
    pub tail: StreamTail,
    /// The call that the plugins are looking at.
    pub next: usize,
    /// What they have left of the calls before it.
    pub effective: Vec<ToolCallData>,
}

/// The mathematical value of a [`TailCheck`].
#[verifier::ext_equal]
pub struct TailCheckView {
    pub tail: StreamTailView,
    pub next: usize,
    pub effective: Seq<ToolCallDataView>,
}

impl View for TailCheck {
    type V = TailCheckView;

    open spec fn view(&self) -> TailCheckView {
        TailCheckView {
            tail: self.tail@,
            next: self.next,
            effective: self.effective.deep_view(),
        }
    }
}

/// Where a stream stands.
pub enum StreamStage {
    /// The model is replying.
    Streaming,
    /// The plugins are being asked about a failure.
    Asking(String),
    /// The wait before another call is on.
    Waiting,
    /// The plugins are looking at the tool calls.
    Checking(TailCheck),
    /// It is over.
    Over,
}

/// The mathematical value of a [`StreamStage`].
#[verifier::ext_equal]
pub enum StreamStageView {
    Streaming,
    Asking(Seq<char>),
    Waiting,
    Checking(TailCheckView),
    Over,
}

impl View for StreamStage {
    type V = StreamStageView;

    open spec fn view(&self) -> StreamStageView {
        match self {
            StreamStage::Streaming => StreamStageView::Streaming,
            StreamStage::Asking(cause) => StreamStageView::Asking(cause@),
            StreamStage::Waiting => StreamStageView::Waiting,
            StreamStage::Checking(c) => StreamStageView::Checking(c@),
            StreamStage::Over => StreamStageView::Over,
        }
    }
}

/// A stream.
pub struct StreamSession {
    pub stage: StreamStage,
    /// How many calls have failed in a row.
    pub retry_count: u32,
    /// What the stream has brought, for whoever may have to cut it short.
    pub accumulator: StreamAccumulator,
}

/// The mathematical value of a [`StreamSession`].
#[verifier::ext_equal]
pub struct StreamSessionView {
    pub stage: StreamStageView,
    pub retry_count: u32,
    pub accumulator: StreamAccumulatorView,
}

impl View for StreamSession {
    type V = StreamSessionView;

    open spec fn view(&self) -> StreamSessionView {
        StreamSessionView {
            stage: self.stage@,
            retry_count: self.retry_count,
            accumulator: self.accumulator@,
        }
    }
}

impl StreamSessionView {
    /// The plugins are looking at a call that there is.
    pub open spec fn wf(self) -> bool {
        self.stage is Checking ==> self.stage->Checking_0.next
            < self.stage->Checking_0.tail.tool_calls.len()
    }

    /// The reply, with given tool calls and usage.
    pub open spec fn reply(
        self,
        calls: Seq<ToolCallDataView>,
        usage: StreamUsage,
    ) -> StreamSessionActionView {
        StreamSessionActionView::Return(
            StreamResultView {
                text: self.accumulator.text,
                reasoning: self.accumulator.reasoning,
                tool_calls: calls,
                usage,
            },
        )
    }
}

/// The notice of an error.
pub open spec fn error_notice(message: Seq<char>, recoverable: bool) -> StreamSessionActionView {
    StreamSessionActionView::Send(
        OutgoingView::Notice(
            OutputEventView::Error(unsent(ErrorPayloadView { message, recoverable })),
        ),
    )
}

/// What is said of a failure that may pass.
pub open spec fn retry_message(attempt: nat, cause: Seq<char>) -> Seq<char> {
    "LLM 错误 (重试 "@ + decimal(attempt) + "): "@ + cause
}

/// Events, sent in order.
pub open spec fn notices(events: Seq<OutputEventView>) -> Seq<StreamSessionActionView> {
    events.map_values(|e| StreamSessionActionView::Send(OutgoingView::Notice(e)))
}

/// A piece has come: it is shown, it joins what has come before, and the count of
/// failures starts again.
pub open spec fn on_decoded(s: StreamSessionView, d: DecodedEventView) -> (
    StreamSessionView,
    Seq<StreamSessionActionView>,
) {
    (
        StreamSessionView {
            retry_count: 0,
            accumulator: StreamAccumulatorView {
                text: s.accumulator.text + text_of(d.events),
                reasoning: s.accumulator.reasoning + reasoning_of(d.events),
                tool_calls: d.tool_calls,
                usage: d.usage,
                ..s.accumulator
            },
            ..s
        },
        notices(d.events),
    )
}

/// A call has failed. Where the failure will not pass, that is the end; else the
/// user is told and the plugins are asked.
pub open spec fn on_failed(s: StreamSessionView, f: LlmFailureView) -> (
    StreamSessionView,
    Seq<StreamSessionActionView>,
) {
    if f.retryable {
        let attempt = (s.retry_count + 1) as u32;
        (
            StreamSessionView {
                stage: StreamStageView::Asking(f.cause),
                retry_count: attempt,
                ..s
            },
            seq![
                error_notice(retry_message(attempt as nat, f.cause), true),
                StreamSessionActionView::AskPlugins(
                    LlmErrorReportView { cause: f.cause, attempt },
                ),
            ],
        )
    } else {
        given_up(s, f.cause)
    }
}

/// The call is not repeated.
pub open spec fn given_up(s: StreamSessionView, cause: Seq<char>) -> (
    StreamSessionView,
    Seq<StreamSessionActionView>,
) {
    (
        StreamSessionView { stage: StreamStageView::Over, ..s },
        seq![error_notice(cause, false), StreamSessionActionView::Fail(cause)],
    )
}

/// The stream has ended: its tool calls are shown to the plugins, if there are any.
pub open spec fn on_ended(s: StreamSessionView, tail: StreamTailView) -> (
    StreamSessionView,
    Seq<StreamSessionActionView>,
) {
    if tail.tool_calls.len() == 0 {
        (
            StreamSessionView { stage: StreamStageView::Over, ..s },
            seq![s.reply(Seq::empty(), tail.usage)],
        )
    } else {
        (
            StreamSessionView {
                stage: StreamStageView::Checking(
                    TailCheckView { tail, next: 0, effective: Seq::empty() },
                ),
                ..s
            },
            seq![StreamSessionActionView::CheckCall(tool_call_event(tail.tool_calls[0]))],
        )
    }
}

/// The plugins have seen a call.
pub open spec fn on_checked(
    s: StreamSessionView,
    c: TailCheckView,
    checked: Option<OutputEventView>,
) -> (StreamSessionView, Seq<StreamSessionActionView>) {
    let effective = with_checked(c.effective, checked);
    let delivered = match checked {
        Some(event) => seq![StreamSessionActionView::Deliver(event)],
        None => Seq::empty(),
    };
    if c.next + 1 < c.tail.tool_calls.len() {
        (
            StreamSessionView {
                stage: StreamStageView::Checking(
                    TailCheckView { next: (c.next + 1) as usize, effective, ..c },
                ),
                ..s
            },
            delivered + seq![
                StreamSessionActionView::CheckCall(
                    tool_call_event(c.tail.tool_calls[c.next + 1]),
                ),
            ],
        )
    } else {
        (
            StreamSessionView { stage: StreamStageView::Over, ..s },
            delivered + seq![s.reply(effective, c.tail.usage)],
        )
    }
}

/// What a stream comes to, given what happened.
pub open spec fn stream_step(s: StreamSessionView, e: StreamSessionEventView) -> (
    StreamSessionView,
    Seq<StreamSessionActionView>,
) {
    match (e, s.stage) {
        (StreamSessionEventView::Decoded(d), StreamStageView::Streaming) => on_decoded(s, d),
        (StreamSessionEventView::Failed(f), StreamStageView::Streaming) => on_failed(s, f),
        (StreamSessionEventView::Decision(again), StreamStageView::Asking(cause)) => if again {
            (
                StreamSessionView {
                    stage: StreamStageView::Waiting,
                    accumulator: StreamAccumulatorView {
                        phase: StreamPhase::Backoff,
                        ..s.accumulator
                    },
                    ..s
                },
                seq![StreamSessionActionView::Sleep(s.retry_count)],
            )
        } else {
            given_up(s, cause)
        },
        (StreamSessionEventView::Slept, StreamStageView::Waiting) => (
            StreamSessionView {
                stage: StreamStageView::Streaming,
                accumulator: StreamAccumulatorView {
                    phase: StreamPhase::Streaming,
                    ..s.accumulator
                },
                ..s
            },
            seq![StreamSessionActionView::Open],
        ),
        (StreamSessionEventView::Ended(tail), StreamStageView::Streaming) => on_ended(s, tail),
        (StreamSessionEventView::CallChecked(checked), StreamStageView::Checking(c)) => on_checked(
            s,
            c,
            checked,
        ),
        _ => (s, Seq::empty()),
    }
}

/// Makes the notice of an error.
fn make_error_notice(message: String, recoverable: bool) -> (res: StreamSessionAction)
    ensures
        res@ == error_notice(message@, recoverable),
{
    StreamSessionAction::Send(
        Outgoing::Notice(OutputEvent::Error(envelope(ErrorPayload { message, recoverable }))),
    )
}

/// Calls the model.
pub fn run_stream_session() -> (res: (StreamSession, Vec<StreamSessionAction>))
    ensures
        res.0@ == stream_begin(),
        res.1.deep_view() == seq![StreamSessionActionView::Open],
        res.0@.wf(),
{
    let mut actions: Vec<StreamSessionAction> = empty_list();
    push_item(&mut actions, StreamSessionAction::Open);
    assert(actions.deep_view() =~= seq![StreamSessionActionView::Open]);
    (
        StreamSession {
            stage: StreamStage::Streaming,
            retry_count: 0,
            accumulator: StreamAccumulator::new(),
        },
        actions,
    )
}

impl StreamSession {
    /// Shows a piece and keeps it.
    fn take_decoded(&mut self, d: DecodedEvent) -> (res: Vec<StreamSessionAction>)
        ensures
            (final(self)@, res.deep_view()) == on_decoded(old(self)@, d@),
    {
        let ghost s = self@;
        let ghost all = d.events.deep_view();
        let mut actions: Vec<StreamSessionAction> = empty_list();
        let mut text = self.accumulator.text.dup();
        let mut reasoning = self.accumulator.reasoning.dup();
        let mut i: usize = 0;
        assert(actions.deep_view() =~= notices(all.take(0)));
        assert(text@ =~= s.accumulator.text + text_of(all.take(0)));
        assert(reasoning@ =~= s.accumulator.reasoning + reasoning_of(all.take(0)));
        while i < d.events.len()
            invariant
                i <= d.events.len(),
                all == d.events.deep_view(),
                actions.deep_view() == notices(all.take(i as int)),
                text@ == s.accumulator.text + text_of(all.take(i as int)),
                reasoning@ == s.accumulator.reasoning + reasoning_of(all.take(i as int)),
            decreases d.events.len() - i,
        {
            let event = &d.events[i];
            let ghost upto = all.take(i + 1);
            assert(upto.drop_last() =~= all.take(i as int));
            assert(upto.last() == event@);
            let ghost t = text@;
            let ghost r = reasoning@;
            if let OutputEvent::Chunk(m) = event {
                if let Some(content) = &m.payload.content {
                    text.append(content.as_str());
                }
                if let Some(more) = &m.payload.reasoning {
                    reasoning.append(more.as_str());
                }
            }
            assert(text@ =~= t + event_text(event@));
            assert(reasoning@ =~= r + event_reasoning(event@));
            push_item(&mut actions, StreamSessionAction::Send(Outgoing::Notice(event.dup())));
            i += 1;
            assert(actions.deep_view() =~= notices(all.take(i as int)));
            assert(text@ =~= s.accumulator.text + text_of(upto));
            assert(reasoning@ =~= s.accumulator.reasoning + reasoning_of(upto));
        }
        assert(all.take(i as int) =~= all);
        self.retry_count = 0;
        self.accumulator.text = text;
        self.accumulator.reasoning = reasoning;
        self.accumulator.tool_calls = d.tool_calls;
        self.accumulator.usage = d.usage;
        actions
    }

    /// Gives up.
    fn give_up(&mut self, cause: String) -> (res: Vec<StreamSessionAction>)
        ensures
            (final(self)@, res.deep_view()) == given_up(old(self)@, cause@),
    {
        let mut actions: Vec<StreamSessionAction> = empty_list();
        let ghost c = cause@;
        self.stage = StreamStage::Over;
        push_item(&mut actions, make_error_notice(cause.dup(), false));
        push_item(&mut actions, StreamSessionAction::Fail(cause));
        assert(actions.deep_view() =~= seq![
            error_notice(c, false),
            StreamSessionActionView::Fail(c),
        ]);
        actions
    }

    /// The reply.
    fn make_reply(&self, calls: Vec<ToolCallData>, usage: StreamUsage) -> (res: StreamSessionAction)
        ensures
            res@ == self@.reply(calls.deep_view(), usage),
    {
        StreamSessionAction::Return(
            StreamResult {
                text: self.accumulator.text.dup(),
                reasoning: self.accumulator.reasoning.dup(),
                tool_calls: calls,
                usage,
            },
        )
    }

    /// The plugins have seen a call.
    fn take_checked(self, c: TailCheck, checked: Option<OutputEvent>) -> (res: (
        StreamSession,
        Vec<StreamSessionAction>,
    ))
        requires
            c.next < c.tail.tool_calls@.len(),
        ensures
            (res.0@, res.1.deep_view()) == on_checked(self@, c@, checked.deep_view()),
            res.0@.wf(),
    {
        let ghost before = c@;
        let ghost view = checked.deep_view();
        let mut actions: Vec<StreamSessionAction> = empty_list();
        let mut effective = c.effective;
        if let Some(event) = checked {
            if let Some(call) = tool_call_event_to_data(&event) {
                push_item(&mut effective, call);
            }
            push_item(&mut actions, StreamSessionAction::Deliver(event));
        }
        let ghost delivered = match view {
            Some(event) => seq![StreamSessionActionView::Deliver(event)],
            None => Seq::empty(),
        };
        assert(actions.deep_view() =~= delivered);
        let count: usize = c.tail.tool_calls.len();
        let next: usize = c.next + 1;
        if next < count {
            let event = tool_call_data_to_event(&c.tail.tool_calls[next]);
            push_item(&mut actions, StreamSessionAction::CheckCall(event));
            assert(actions.deep_view() =~= delivered + seq![
                StreamSessionActionView::CheckCall(
                    tool_call_event(before.tail.tool_calls[next as int]),
                ),
            ]);
            let c = TailCheck { tail: c.tail, next, effective };
            (StreamSession { stage: StreamStage::Checking(c), ..self }, actions)
        } else {
            let usage = c.tail.usage;
            let ghost calls = effective.deep_view();
            let reply = self.make_reply(effective, usage);
            push_item(&mut actions, reply);
            assert(actions.deep_view() =~= delivered + seq![self@.reply(calls, usage)]);
            (StreamSession { stage: StreamStage::Over, ..self }, actions)
        }
    }

    /// Tells a stream what happened. Returns the stream as it stands then, and what
    /// it asks for, in order.
    pub fn step(self, event: StreamSessionEvent) -> (res: (
        StreamSession,
        Vec<StreamSessionAction>,
    ))
        requires
            self@.wf(),
            self.retry_count < u32::MAX,
        ensures
            (res.0@, res.1.deep_view()) == stream_step(self@, event@),
            res.0@.wf(),
    {
        let ghost s = self@;
        let ghost e = event@;
        let mut this = self;
        let mut actions: Vec<StreamSessionAction> = empty_list();
        match event {
            StreamSessionEvent::Decoded(d) => {
                if let StreamStage::Streaming = this.stage {
                    let actions = this.take_decoded(d);
                    return (this, actions);
                }
            },
            StreamSessionEvent::Failed(f) => {
                if let StreamStage::Streaming = this.stage {
                    if !f.retryable {
                        let actions = this.give_up(f.cause);
                        return (this, actions);
                    }
                    this.retry_count = this.retry_count + 1;
                    let attempt: u32 = this.retry_count;
                    let opening = concat3(
                        "LLM 错误 (重试 ",
                        write_decimal(attempt as u64).as_str(),
                        "): ",
                    );
                    let message = concat(opening.as_str(), f.cause.as_str());
                    push_item(&mut actions, make_error_notice(message, true));
                    push_item(
                        &mut actions,
                        StreamSessionAction::AskPlugins(
                            LlmErrorReport { cause: f.cause.dup(), attempt },
                        ),
                    );
                    this.stage = StreamStage::Asking(f.cause);
                }
            },
            StreamSessionEvent::Decision(again) => {
                if let StreamStage::Asking(cause) = &this.stage {
                    let cause = cause.dup();
                    if !again {
                        let actions = this.give_up(cause);
                        return (this, actions);
                    }
                    this.accumulator.phase = StreamPhase::Backoff;
                    this.stage = StreamStage::Waiting;
                    push_item(&mut actions, StreamSessionAction::Sleep(this.retry_count));
                }
            },
            StreamSessionEvent::Slept => {
                if let StreamStage::Waiting = this.stage {
                    this.accumulator.phase = StreamPhase::Streaming;
                    this.stage = StreamStage::Streaming;
                    push_item(&mut actions, StreamSessionAction::Open);
                }
            },
            StreamSessionEvent::Ended(tail) => {
                if let StreamStage::Streaming = this.stage {
                    if tail.tool_calls.len() == 0 {
                        let reply = this.make_reply(empty_list(), tail.usage);
                        push_item(&mut actions, reply);
                        this.stage = StreamStage::Over;
                    } else {
                        let event = tool_call_data_to_event(&tail.tool_calls[0]);
                        push_item(&mut actions, StreamSessionAction::CheckCall(event));
                        let c = TailCheck { tail, next: 0, effective: empty_list() };
                        this.stage = StreamStage::Checking(c);
                    }
                }
            },
            StreamSessionEvent::CallChecked(checked) => {
                match this.stage {
                    StreamStage::Checking(c) => {
                        let rest = StreamSession {
                            stage: StreamStage::Over,
                            retry_count: this.retry_count,
                            accumulator: this.accumulator,
                        };
                        let ghost cv = c@;
                        let ghost v = checked.deep_view();
                        let ghost r = rest@;
                        let res = rest.take_checked(c, checked);
                        assert(on_checked(r, cv, v) == on_checked(s, cv, v));
                        return res;
                    },
                    stage => {
                        this.stage = stage;
                    },
                }
            },
        }
        assert(actions.deep_view() =~= stream_step(s, e).1);
        (this, actions)
    }
}

// ---- laws ----

/// A call is never repeated without the plugins' consent: the model is called only
/// after a wait, and a wait begins only when they have agreed. After a failure that
/// will not pass they are not asked; the user is told once that it is over.
pub proof fn law_plugins_decide_on_retries(s: StreamSessionView, e: StreamSessionEventView)
    ensures
        stream_step(s, e).1.contains(StreamSessionActionView::Open) ==> s.stage is Waiting && e
            is Slept,
        stream_step(s, e).0.stage is Waiting && !(s.stage is Waiting) ==> s.stage is Asking && e
            == StreamSessionEventView::Decision(true),
        e is Failed && !e->Failed_0.retryable && s.stage is Streaming ==> {
            &&& stream_step(s, e).0.stage is Over
            &&& stream_step(s, e).1 == seq![
                error_notice(e->Failed_0.cause, false),
                StreamSessionActionView::Fail(e->Failed_0.cause),
            ]
        },
{
    let actions = stream_step(s, e).1;
    if actions.contains(StreamSessionActionView::Open) {
        let i = choose|i: int|
            0 <= i < actions.len() && actions[i] == StreamSessionActionView::Open;
        assert(actions[i] is Open);
    }
}

/// Any piece that comes sets the count of failures back, so the count is that of
/// failures in a row.
pub proof fn law_failures_are_counted_in_a_row(
    s: StreamSessionView,
    d: DecodedEventView,
    f: LlmFailureView,
)
    requires
        s.stage is Streaming,
        s.retry_count < u32::MAX,
        f.retryable,
    ensures
        stream_step(s, StreamSessionEventView::Decoded(d)).0.retry_count == 0,
        stream_step(s, StreamSessionEventView::Failed(f)).0.retry_count == s.retry_count + 1,
{
}

/// What a stream comes to, given all that happened, and all that it asks for.
pub open spec fn stream_run(s: StreamSessionView, events: Seq<StreamSessionEventView>) -> (
    StreamSessionView,
    Seq<StreamSessionActionView>,
)
    decreases events.len(),
{
    if events.len() == 0 {
        (s, Seq::empty())
    } else {
        let (m, before) = stream_run(s, events.drop_last());
        let (n, after) = stream_step(m, events.last());
        (n, before + after)
    }
}

/// A stream that has just begun.
pub open spec fn stream_begin() -> StreamSessionView {
    StreamSessionView {
        stage: StreamStageView::Streaming,
        retry_count: 0,
        accumulator: StreamAccumulator::blank(),
    }
}

/// The events among the actions that are sent, in order.
pub open spec fn sent_events(actions: Seq<StreamSessionActionView>) -> Seq<OutputEventView>
    decreases actions.len(),
{
    if actions.len() == 0 {
        Seq::empty()
    } else {
        let before = sent_events(actions.drop_last());
        match actions.last() {
            StreamSessionActionView::Send(OutgoingView::Notice(e)) => before.push(e),
            _ => before,
        }
    }
}

/// The tool calls among the actions that are shown, in order.
pub open spec fn shown_calls(actions: Seq<StreamSessionActionView>) -> Seq<ToolCallDataView>
    decreases actions.len(),
{
    if actions.len() == 0 {
        Seq::empty()
    } else {
        let before = shown_calls(actions.drop_last());
        match actions.last() {
            StreamSessionActionView::Deliver(e) => with_checked(before, Some(e)),
            _ => before,
        }
    }
}

/// Whether an action is the last of a stream.
pub open spec fn is_end(action: StreamSessionActionView) -> bool {
    action is Return || action is Fail
}

proof fn lemma_one_more(actions: Seq<StreamSessionActionView>, action: StreamSessionActionView)
    ensures
        sent_events(actions.push(action)) == match action {
            StreamSessionActionView::Send(OutgoingView::Notice(e)) => sent_events(actions).push(e),
            _ => sent_events(actions),
        },
        shown_calls(actions.push(action)) == match action {
            StreamSessionActionView::Deliver(e) => with_checked(shown_calls(actions), Some(e)),
            _ => shown_calls(actions),
        },
{
    assert(actions.push(action).drop_last() =~= actions);
}

/// One action, or two, after those there were.
proof fn lemma_more(
    actions: Seq<StreamSessionActionView>,
    more: Seq<StreamSessionActionView>,
)
    requires
        more.len() <= 2,
    ensures
        more.len() == 0 ==> actions + more == actions,
        more.len() == 1 ==> actions + more == actions.push(more[0]),
        more.len() == 2 ==> actions + more == actions.push(more[0]).push(more[1]),
{
    assert(more.len() == 0 ==> actions + more =~= actions);
    assert(more.len() == 1 ==> actions + more =~= actions.push(more[0]));
    assert(more.len() == 2 ==> actions + more =~= actions.push(more[0]).push(more[1]));
    if more.len() > 0 {
        lemma_one_more(actions, more[0]);
    }
    if more.len() > 1 {
        lemma_one_more(actions.push(more[0]), more[1]);
    }
}

/// Events that are sent in order add their text to what was sent before.
proof fn lemma_notices(actions: Seq<StreamSessionActionView>, events: Seq<OutputEventView>)
    ensures
        sent_events(actions + notices(events)) == sent_events(actions) + events,
        shown_calls(actions + notices(events)) == shown_calls(actions),
    decreases events.len(),
{
    if events.len() == 0 {
        assert(actions + notices(events) =~= actions);
        assert(sent_events(actions) + events =~= sent_events(actions));
    } else {
        let rest = events.drop_last();
        lemma_notices(actions, rest);
        let last = StreamSessionActionView::Send(OutgoingView::Notice(events.last()));
        assert(actions + notices(events) =~= (actions + notices(rest)).push(last));
        lemma_one_more(actions + notices(rest), last);
        assert(sent_events(actions) + events =~= (sent_events(actions) + rest).push(events.last()));
    }
}

proof fn lemma_text_of(a: Seq<OutputEventView>, b: Seq<OutputEventView>)
    ensures
        text_of(a + b) == text_of(a) + text_of(b),
        reasoning_of(a + b) == reasoning_of(a) + reasoning_of(b),
    decreases b.len(),
{
    if b.len() == 0 {
        assert(a + b =~= a);
        assert(text_of(a) + text_of(b) =~= text_of(a));
        assert(reasoning_of(a) + reasoning_of(b) =~= reasoning_of(a));
    } else {
        let rest = b.drop_last();
        lemma_text_of(a, rest);
        assert((a + b).drop_last() =~= a + rest);
        assert((a + b).last() == b.last());
        assert(text_of(a + b) =~= text_of(a) + text_of(b));
        assert(reasoning_of(a + b) =~= reasoning_of(a) + reasoning_of(b));
    }
}

/// What holds of a stream, and of all that it has asked for, at any time.
spec fn consistent(s: StreamSessionView, actions: Seq<StreamSessionActionView>) -> bool {
    &&& s.wf()
    &&& s.accumulator.text == text_of(sent_events(actions))
    &&& s.accumulator.reasoning == reasoning_of(sent_events(actions))
    &&& match s.stage {
        StreamStageView::Checking(c) => shown_calls(actions) == c.effective,
        StreamStageView::Over => true,
        _ => shown_calls(actions) == Seq::<ToolCallDataView>::empty(),
    }
    &&& forall|k: int|
        0 <= k < actions.len() && is_end(#[trigger] actions[k]) ==> s.stage is Over && k
            == actions.len() - 1
    &&& s.stage is Over ==> actions.len() > 0 && match actions.last() {
        StreamSessionActionView::Return(r) => {
            &&& r.text == text_of(sent_events(actions))
            &&& r.reasoning == reasoning_of(sent_events(actions))
            &&& r.tool_calls == shown_calls(actions)
        },
        StreamSessionActionView::Fail(_) => true,
        _ => false,
    }
}

proof fn lemma_consistent_step(
    s: StreamSessionView,
    actions: Seq<StreamSessionActionView>,
    e: StreamSessionEventView,
)
    requires
        consistent(s, actions),
    ensures
        consistent(stream_step(s, e).0, actions + stream_step(s, e).1),
{
    let (n, more) = stream_step(s, e);
    match (e, s.stage) {
        (StreamSessionEventView::Decoded(d), StreamStageView::Streaming) => {
            lemma_notices(actions, d.events);
            lemma_text_of(sent_events(actions), d.events);
        },
        _ => {
            assert(more.len() <= 2);
            lemma_more(actions, more);
            if more.len() > 0 {
                lemma_one_more(actions, more[0]);
                match more[0] {
                    StreamSessionActionView::Send(OutgoingView::Notice(x)) => {
                        lemma_text_of(sent_events(actions), seq![x]);
                        assert(sent_events(actions) + seq![x] =~= sent_events(actions).push(x));
                        assert(seq![x].drop_last() =~= Seq::<OutputEventView>::empty());
                        assert(text_of(seq![x]) =~= Seq::<char>::empty()) by {
                            assert(text_of(seq![x].drop_last()) =~= Seq::<char>::empty());
                        }
                        assert(reasoning_of(seq![x]) =~= Seq::<char>::empty()) by {
                            assert(reasoning_of(seq![x].drop_last()) =~= Seq::<char>::empty());
                        }
                        assert(s.accumulator.text + text_of(seq![x]) =~= s.accumulator.text);
                        assert(s.accumulator.reasoning + reasoning_of(seq![x])
                            =~= s.accumulator.reasoning);
                    },
                    _ => {},
                }
            }
            if more.len() > 1 {
                lemma_one_more(actions.push(more[0]), more[1]);
            }
        },
    }
    let all = actions + more;
    assert forall|k: int| 0 <= k < all.len() && is_end(#[trigger] all[k]) implies n.stage is Over
        && k == all.len() - 1 by {
        if k < actions.len() {
            assert(is_end(actions[k]));
        } else {
            assert(all[k] == more[k - actions.len()]);
        }
    }
    if n.stage is Over && more.len() > 0 {
        assert(all.last() == more.last());
    }
}

proof fn lemma_run_is_consistent(events: Seq<StreamSessionEventView>)
    ensures
        consistent(
            stream_run(stream_begin(), events).0,
            stream_run(stream_begin(), events).1,
        ),
    decreases events.len(),
{
    if events.len() == 0 {
        assert(""@ =~= Seq::<char>::empty()) by {
            reveal_strlit("");
        }
    } else {
        lemma_run_is_consistent(events.drop_last());
        let (m, before) = stream_run(stream_begin(), events.drop_last());
        lemma_consistent_step(m, before, events.last());
    }
}

/// Whatever happens, and however often the call is repeated: the reply says what was
/// shown of it, in order, and its tool calls are the ones that were shown. A call that
/// the plugins held back is neither shown nor in the reply.
pub proof fn law_reply_is_what_was_shown(events: Seq<StreamSessionEventView>, k: int)
    requires
        0 <= k < stream_run(stream_begin(), events).1.len(),
        stream_run(stream_begin(), events).1[k] is Return,
    ensures
        ({
            let actions = stream_run(stream_begin(), events).1;
            let reply = actions[k]->Return_0;
            &&& reply.text == text_of(sent_events(actions))
            &&& reply.reasoning == reasoning_of(sent_events(actions))
            &&& reply.tool_calls == shown_calls(actions)
        }),
{
    lemma_run_is_consistent(events);
    let actions = stream_run(stream_begin(), events).1;
    assert(is_end(actions[k]));
}

/// A stream ends once: with a reply or with a failure, after which it asks for nothing
/// more.
pub proof fn law_a_stream_ends_once(events: Seq<StreamSessionEventView>, k: int)
    requires
        0 <= k < stream_run(stream_begin(), events).1.len(),
        is_end(stream_run(stream_begin(), events).1[k]),
    ensures
        k == stream_run(stream_begin(), events).1.len() - 1,
        stream_run(stream_begin(), events).0.stage is Over,
        forall|e: StreamSessionEventView|
            (#[trigger] stream_step(stream_run(stream_begin(), events).0, e)).1.len() == 0,
{
    lemma_run_is_consistent(events);
}

// ---- a stream and its calls, outright ----

/// The text in a row of events: what their pieces of a reply say, one after the other.
pub open spec fn said_in(events: Seq<OutputEventView>) -> Seq<char>
    decreases events.len(),
{
    if events.len() == 0 {
        Seq::empty()
    } else {
        let before = said_in(events.drop_last());
        match events.last() {
            OutputEventView::Chunk(m) => if m.payload.content is Some {
                before + m.payload.content->0
            } else {
                before
            },
            _ => before,
        }
    }
}

/// The reasoning in a row of events.
pub open spec fn thought_in(events: Seq<OutputEventView>) -> Seq<char>
    decreases events.len(),
{
    if events.len() == 0 {
        Seq::empty()
    } else {
        let before = thought_in(events.drop_last());
        match events.last() {
            OutputEventView::Chunk(m) => if m.payload.reasoning is Some {
                before + m.payload.reasoning->0
            } else {
                before
            },
            _ => before,
        }
    }
}

/// What a row of events adds to a reply is what its pieces say, in order.
pub proof fn law_a_reply_is_made_of_its_pieces(events: Seq<OutputEventView>)
    ensures
        text_of(events) == said_in(events),
        reasoning_of(events) == thought_in(events),
    decreases events.len(),
{
    if events.len() > 0 {
        law_a_reply_is_made_of_its_pieces(events.drop_last());
    }
    assert(text_of(events) =~= said_in(events));
    assert(reasoning_of(events) =~= thought_in(events));
}

/// A piece is shown as it is and added to what came before, with the calls and the usage
/// so far; and the count of failures starts again.
pub proof fn law_a_piece_is_shown_and_kept(s: StreamSessionView, d: DecodedEventView, k: int)
    requires
        s.stage is Streaming,
    ensures
        ({
            let (n, actions) = stream_step(s, StreamSessionEventView::Decoded(d));
            &&& actions.len() == d.events.len()
            &&& 0 <= k < actions.len() ==> actions[k] == StreamSessionActionView::Send(
                OutgoingView::Notice(d.events[k]),
            )
            &&& n.accumulator.text == s.accumulator.text + said_in(d.events)
            &&& n.accumulator.reasoning == s.accumulator.reasoning + thought_in(d.events)
            &&& n.accumulator.tool_calls == d.tool_calls
            &&& n.accumulator.usage == d.usage
            &&& n.accumulator.phase == s.accumulator.phase
            &&& n.retry_count == 0
            &&& n.stage is Streaming
        }),
{
    law_a_reply_is_made_of_its_pieces(d.events);
}

/// A failure that may pass is told with its number and its cause, and the plugins are
/// asked about it. If they agree, the wait is as long as is due after so many failures,
/// and then the model is called again; what came before is kept. If not, the failure is
/// told as one that will not pass, and handed on.
pub proof fn law_what_follows_a_failure(s: StreamSessionView, f: LlmFailureView)
    requires
        s.stage is Streaming,
        f.retryable,
        s.retry_count < u32::MAX,
    ensures
        ({
            let (n, asked) = stream_step(s, StreamSessionEventView::Failed(f));
            let (w, wait) = stream_step(n, StreamSessionEventView::Decision(true));
            let (o, opened) = stream_step(w, StreamSessionEventView::Slept);
            let (g, ended) = stream_step(n, StreamSessionEventView::Decision(false));
            let first = asked[0]->Send_0->Notice_0->Error_0.payload;
            let last = ended[0]->Send_0->Notice_0->Error_0.payload;
            &&& asked.len() == 2
            &&& asked[0] is Send
            &&& asked[0]->Send_0 is Notice
            &&& asked[0]->Send_0->Notice_0 is Error
            &&& first.message == "LLM 错误 (重试 "@ + decimal((s.retry_count + 1) as nat)
                + "): "@ + f.cause
            &&& first.recoverable
            &&& asked[1] is AskPlugins
            &&& asked[1]->AskPlugins_0.cause == f.cause
            &&& asked[1]->AskPlugins_0.attempt == s.retry_count + 1
            &&& wait.len() == 1
            &&& wait[0] == StreamSessionActionView::Sleep((s.retry_count + 1) as u32)
            &&& w.accumulator.phase == StreamPhase::Backoff
            &&& opened.len() == 1
            &&& opened[0] is Open
            &&& o.stage is Streaming
            &&& o.accumulator.phase == StreamPhase::Streaming
            &&& o.accumulator.text == s.accumulator.text
            &&& o.accumulator.reasoning == s.accumulator.reasoning
            &&& o.retry_count == s.retry_count + 1
            &&& ended.len() == 2
            &&& ended[0] is Send
            &&& ended[0]->Send_0 is Notice
            &&& ended[0]->Send_0->Notice_0 is Error
            &&& last.message == f.cause
            &&& !last.recoverable
            &&& ended[1] is Fail
            &&& ended[1]->Fail_0 == f.cause
            &&& g.stage is Over
        }),
{
}

/// What a stream is told when it ends, and then of what the plugins leave of its calls.
pub open spec fn tail_events(
    tail: StreamTailView,
    answers: Seq<Option<OutputEventView>>,
) -> Seq<StreamSessionEventView> {
    seq![StreamSessionEventView::Ended(tail)] + answers.map_values(
        |a: Option<OutputEventView>| StreamSessionEventView::CallChecked(a),
    )
}

/// The events that a row of actions shows to the plugins for their consent, in order.
pub open spec fn put_to_plugins(actions: Seq<StreamSessionActionView>) -> Seq<OutputEventView>
    decreases actions.len(),
{
    if actions.len() == 0 {
        Seq::empty()
    } else {
        let before = put_to_plugins(actions.drop_last());
        match actions.last() {
            StreamSessionActionView::CheckCall(event) => before.push(event),
            _ => before,
        }
    }
}

proof fn lemma_put_one_more(actions: Seq<StreamSessionActionView>, a: StreamSessionActionView)
    ensures
        put_to_plugins(actions.push(a)) == match a {
            StreamSessionActionView::CheckCall(event) => put_to_plugins(actions).push(event),
            _ => put_to_plugins(actions),
        },
{
    assert(actions.push(a).drop_last() =~= actions);
}

proof fn lemma_tail_is_checked(
    s: StreamSessionView,
    tail: StreamTailView,
    answers: Seq<Option<OutputEventView>>,
)
    requires
        s.stage is Streaming,
        0 < tail.tool_calls.len() <= usize::MAX,
        answers.len() <= tail.tool_calls.len(),
    ensures
        ({
            let (n, actions) = stream_run(s, tail_events(tail, answers));
            let calls = tail.tool_calls;
            let asked = put_to_plugins(actions);
            &&& asked.len() == if answers.len() < calls.len() {
                answers.len() + 1
            } else {
                calls.len()
            }
            &&& forall|k: int| 0 <= k < asked.len() ==> shows(#[trigger] asked[k], calls[k])
            &&& n.accumulator == s.accumulator
            &&& answers.len() < calls.len() ==> n.stage == StreamStageView::Checking(
                TailCheckView {
                    tail,
                    next: answers.len() as usize,
                    effective: calls_left(answers),
                },
            )
            &&& answers.len() == calls.len() ==> {
                &&& n.stage is Over
                &&& actions.len() > 0
                &&& actions.last() == StreamSessionActionView::Return(
                    StreamResultView {
                        text: s.accumulator.text,
                        reasoning: s.accumulator.reasoning,
                        tool_calls: calls_left(answers),
                        usage: tail.usage,
                    },
                )
            }
        }),
    decreases answers.len(),
{
    let events = tail_events(tail, answers);
    let calls = tail.tool_calls;
    let (n, actions) = stream_run(s, events);
    if answers.len() == 0 {
        assert(events =~= seq![StreamSessionEventView::Ended(tail)]);
        assert(events.drop_last() =~= Seq::empty());
        reveal_with_fuel(stream_run, 2);
        let none = Seq::<StreamSessionActionView>::empty();
        let one = StreamSessionActionView::CheckCall(tool_call_event(calls[0]));
        assert(actions =~= none.push(one));
        lemma_put_one_more(none, one);
        law_calls_go_past_the_plugins_whole(calls[0], tool_call_event(calls[0]));
        assert(calls_left(answers) =~= Seq::empty());
    } else {
        let front = answers.drop_last();
        let last = answers.last();
        lemma_tail_is_checked(s, tail, front);
        assert(events.drop_last() =~= tail_events(tail, front));
        assert(events.last() == StreamSessionEventView::CallChecked(last));
        let (b, before) = stream_run(s, tail_events(tail, front));
        let (m, more) = stream_step(b, StreamSessionEventView::CallChecked(last));
        let c = b.stage->Checking_0;
        if last is Some {
            law_calls_go_past_the_plugins_whole(calls[0], last->0);
        }
        assert(with_checked(c.effective, last) =~= calls_left(answers));
        let tail_action = if c.next + 1 < calls.len() {
            StreamSessionActionView::CheckCall(tool_call_event(calls[c.next + 1]))
        } else {
            b.reply(with_checked(c.effective, last), tail.usage)
        };
        match last {
            Some(event) => {
                let shown = StreamSessionActionView::Deliver(event);
                assert(actions =~= before.push(shown).push(tail_action));
                lemma_put_one_more(before, shown);
                lemma_put_one_more(before.push(shown), tail_action);
            },
            None => {
                assert(actions =~= before.push(tail_action));
                lemma_put_one_more(before, tail_action);
            },
        }
        if c.next + 1 < calls.len() {
            law_calls_go_past_the_plugins_whole(
                calls[c.next + 1],
                tool_call_event(calls[c.next + 1]),
            );
        }
        let asked = put_to_plugins(actions);
        assert forall|k: int| 0 <= k < asked.len() implies shows(
            #[trigger] asked[k],
            calls[k],
        ) by {
            if k < put_to_plugins(before).len() {
                assert(asked[k] == put_to_plugins(before)[k]);
            }
        }
    }
}

/// When a stream has ended, the plugins are shown its calls one after the other: each
/// once, in order, and no other. When they have answered them all, the reply is handed
/// on: what was said and thought, the calls that they let pass, and what was used.
pub proof fn law_a_stream_hands_on_what_the_plugins_leave(
    s: StreamSessionView,
    tail: StreamTailView,
    answers: Seq<Option<OutputEventView>>,
)
    requires
        s.stage is Streaming,
        tail.tool_calls.len() <= usize::MAX,
        answers.len() == tail.tool_calls.len(),
    ensures
        ({
            let (n, actions) = stream_run(s, tail_events(tail, answers));
            let asked = put_to_plugins(actions);
            let reply = actions.last()->Return_0;
            &&& asked.len() == tail.tool_calls.len()
            &&& forall|k: int|
                0 <= k < asked.len() ==> shows(#[trigger] asked[k], tail.tool_calls[k])
            &&& actions.len() > 0
            &&& actions.last() is Return
            &&& reply.text == s.accumulator.text
            &&& reply.reasoning == s.accumulator.reasoning
            &&& reply.tool_calls == calls_left(answers)
            &&& reply.usage == tail.usage
        }),
{
    if tail.tool_calls.len() > 0 {
        lemma_tail_is_checked(s, tail, answers);
    } else {
        let events = tail_events(tail, answers);
        assert(events =~= seq![StreamSessionEventView::Ended(tail)]);
        assert(events.drop_last() =~= Seq::empty());
        reveal_with_fuel(stream_run, 2);
        let none = Seq::<StreamSessionActionView>::empty();
        let one = s.reply(Seq::empty(), tail.usage);
        assert(stream_run(s, events).1 =~= none.push(one));
        lemma_put_one_more(none, one);
        assert(calls_left(answers) =~= Seq::empty());
    }
}

/// The model is called by its name at the provider: what stands after the first slash of
/// its full name, up to the next one, or the whole name where there is no slash. The
/// tools that are offered and the way of thinking go with the call.
pub proof fn law_how_a_model_is_called(
    provider: Seq<char>,
    name: Seq<char>,
    model: AgentModelView,
    tools: Option<Seq<Seq<char>>>,
)
    requires
        !provider.contains('/'),
        !name.contains('/'),
    ensures
        short_name(provider + seq!['/'] + name) == name,
        short_name(name) == name,
        ({
            let call = stream_call_of(model, tools);
            &&& model.model_id is Some ==> call.model == short_name(model.model_id->0)
            &&& model.model_id is None ==> call.model == short_name("unknown"@)
            &&& call.options.tools == tools
            &&& call.options.thinking_type == model.thinking_type
            &&& call.options.reasoning_effort == model.reasoning_effort
        }),
{
    law_the_second_part(provider, name, Seq::empty(), '/');
    law_the_second_part(name, name, Seq::empty(), '/');
}

/// A stream that begins has brought nothing, used nothing and failed never; it is calling.
pub proof fn law_a_stream_begins_with_nothing()
    ensures
        stream_begin().stage is Streaming,
        stream_begin().retry_count == 0,
        stream_begin().accumulator.text.len() == 0,
        stream_begin().accumulator.reasoning.len() == 0,
        stream_begin().accumulator.tool_calls.len() == 0,
        stream_begin().accumulator.phase == StreamPhase::Streaming,
        stream_begin().accumulator.usage.prompt_tokens == 0,
        stream_begin().accumulator.usage.completion_tokens == 0,
        stream_begin().accumulator.usage.total_tokens == 0,
{
    reveal_strlit("");
}

} // verus!
