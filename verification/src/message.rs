//! The records that pass through the engine: events, their payloads, stored
//! messages and queue entries.
//!
//! A JSON value is held as its text, in the form `serde_json` prints it. A
//! floating-point number is held as its bit pattern.
use crate::model::Dup;
use vstd::prelude::*;

verus! {

/// Seconds since the Unix epoch, as the bits of an IEEE 754 double.
#[derive(Clone, Copy, Debug, PartialEq, Eq, Structural)]
pub struct Timestamp {
    pub bits: u64,
}

/// An amount of money, as the bits of an IEEE 754 double.
#[derive(Clone, Copy, Debug, PartialEq, Eq, Structural)]
pub struct Cost {
    pub bits: u64,
}

/// Who speaks in a stored message.
#[derive(Clone, Copy, Debug, PartialEq, Eq, Structural)]
pub enum MessageRole {
    /// The system prompt.
    System,
    /// The user, or whoever speaks for them.
    User,
    /// The model.
    Assistant,
    /// The result of a tool call.
    Tool,
}

impl DeepView for MessageRole {
    type V = MessageRole;

    open spec fn deep_view(&self) -> MessageRole {
        *self
    }
}

impl Dup for MessageRole {
    fn dup(&self) -> (res: Self) {
        *self
    }
}

/// What a stored message is for.
#[derive(Clone, Copy, Debug, PartialEq, Eq, Structural)]
pub enum MessageKind {
    /// An ordinary message of the conversation.
    Message,
    /// The summary that stands for everything before it.
    Compaction,
}

impl DeepView for MessageKind {
    type V = MessageKind;

    open spec fn deep_view(&self) -> MessageKind {
        *self
    }
}

impl Dup for MessageKind {
    fn dup(&self) -> (res: Self) {
        *self
    }
}

/// Which of the two queues an entry waits in.
#[derive(Clone, Copy, Debug, PartialEq, Eq, Structural)]
pub enum UserMessageMode {
    /// Consumed at the next opportunity.
    Guide,
    /// Consumed once the model stops calling tools.
    Pending,
}

impl DeepView for UserMessageMode {
    type V = UserMessageMode;

    open spec fn deep_view(&self) -> UserMessageMode {
        *self
    }
}

impl Dup for UserMessageMode {
    fn dup(&self) -> (res: Self) {
        *self
    }
}

/// Who asked for an interrupt.
#[derive(Clone, Copy, Debug, PartialEq, Eq, Structural)]
pub enum InterruptSource {
    /// The user cancelled.
    User,
    /// The session was told to stop its turn.
    Stop,
    /// The engine is shutting down.
    Shutdown,
}

impl DeepView for InterruptSource {
    type V = InterruptSource;

    open spec fn deep_view(&self) -> InterruptSource {
        *self
    }
}

impl Dup for InterruptSource {
    fn dup(&self) -> (res: Self) {
        *self
    }
}

/// Why a conversation is compressed.
#[derive(Clone, Copy, Debug, PartialEq, Eq, Structural)]
pub enum CompressionReason {
    /// The prompt came too close to the context limit.
    Auto,
    /// A control command asked for it.
    Manual,
}

impl DeepView for CompressionReason {
    type V = CompressionReason;

    open spec fn deep_view(&self) -> CompressionReason {
        *self
    }
}

impl Dup for CompressionReason {
    fn dup(&self) -> (res: Self) {
        *self
    }
}

/// What happened to the queues.
#[derive(Clone, Copy, Debug, PartialEq, Eq, Structural)]
pub enum QueueUpdateKind {
    /// An entry was put in a queue.
    Enqueued,
    /// An entry left the guide queue.
    Consumed,
    /// The pending entries moved to the guide queue.
    Transferred,
}

impl DeepView for QueueUpdateKind {
    type V = QueueUpdateKind;

    open spec fn deep_view(&self) -> QueueUpdateKind {
        *self
    }
}

impl Dup for QueueUpdateKind {
    fn dup(&self) -> (res: Self) {
        *self
    }
}

/// A command to the session itself.
#[derive(Clone, Copy, Debug, PartialEq, Eq, Structural)]
pub enum ControlCommand {
    /// Compress the conversation now.
    Compress,
    /// Delete every message from the given sequence number on.
    Rollback(i64),
}

impl DeepView for ControlCommand {
    type V = ControlCommand;

    open spec fn deep_view(&self) -> ControlCommand {
        *self
    }
}

impl Dup for ControlCommand {
    fn dup(&self) -> (res: Self) {
        *self
    }
}

/// What every event carries: identity, place in the history, time, session.
#[derive(Debug)]
pub struct EventBase {
    /// Identifier of the event.
    pub id: String,
    /// Sequence number of the stored message, once there is one.
    pub seq: Option<i64>,
    /// When the event came about.
    pub timestamp: Timestamp,
    /// The session the event belongs to.
    pub session_id: Option<String>,
}

/// The mathematical value of a [`EventBase`].
#[verifier::ext_equal]
pub struct EventBaseView {
    pub id: Seq<char>,
    pub seq: Option<i64>,
    pub timestamp: Timestamp,
    pub session_id: Option<Seq<char>>,
}

impl View for EventBase {
    type V = EventBaseView;

    open spec fn view(&self) -> EventBaseView {
        EventBaseView {
            id: self.id@,
            seq: self.seq,
            timestamp: self.timestamp,
            session_id: self.session_id.deep_view(),
        }
    }
}

impl DeepView for EventBase {
    type V = EventBaseView;

    open spec fn deep_view(&self) -> EventBaseView {
        self@
    }
}

impl Dup for EventBase {
    fn dup(&self) -> (res: Self) {
        EventBase {
            id: self.id.dup(),
            seq: self.seq,
            timestamp: self.timestamp,
            session_id: self.session_id.dup(),
        }
    }
}

/// An image, inline.
#[derive(Debug)]
pub struct ImageContent {
    /// Media type.
    pub mime_type: String,
    /// The encoded bytes, in base64.
    pub data: String,
}

/// The mathematical value of a [`ImageContent`].
#[verifier::ext_equal]
pub struct ImageContentView {
    pub mime_type: Seq<char>,
    pub data: Seq<char>,
}

impl View for ImageContent {
    type V = ImageContentView;

    open spec fn view(&self) -> ImageContentView {
        ImageContentView {
            mime_type: self.mime_type@,
            data: self.data@,
        }
    }
}

impl DeepView for ImageContent {
    type V = ImageContentView;

    open spec fn deep_view(&self) -> ImageContentView {
        self@
    }
}

impl Dup for ImageContent {
    fn dup(&self) -> (res: Self) {
        ImageContent {
            mime_type: self.mime_type.dup(),
            data: self.data.dup(),
        }
    }
}

/// The plugin a message comes from.
#[derive(Debug)]
pub struct PluginSource {
    /// Name of the plugin.
    pub name: String,
}

/// The mathematical value of a [`PluginSource`].
#[verifier::ext_equal]
pub struct PluginSourceView {
    pub name: Seq<char>,
}

impl View for PluginSource {
    type V = PluginSourceView;

    open spec fn view(&self) -> PluginSourceView {
        PluginSourceView {
            name: self.name@,
        }
    }
}

impl DeepView for PluginSource {
    type V = PluginSourceView;

    open spec fn deep_view(&self) -> PluginSourceView {
        self@
    }
}

impl Dup for PluginSource {
    fn dup(&self) -> (res: Self) {
        PluginSource {
            name: self.name.dup(),
        }
    }
}

/// Where a user message comes from.
#[derive(Debug)]
pub enum UserMessageSource {
    /// The user.
    User,
    /// A plugin.
    Plugin(PluginSource),
}

/// The mathematical value of a [`UserMessageSource`].
#[verifier::ext_equal]
pub enum UserMessageSourceView {
    User,
    Plugin(PluginSourceView),
}

impl View for UserMessageSource {
    type V = UserMessageSourceView;

    open spec fn view(&self) -> UserMessageSourceView {
        match self {
            UserMessageSource::User => UserMessageSourceView::User,
            UserMessageSource::Plugin(x) => UserMessageSourceView::Plugin(x@),
        }
    }
}

impl DeepView for UserMessageSource {
    type V = UserMessageSourceView;

    open spec fn deep_view(&self) -> UserMessageSourceView {
        self@
    }
}

impl Dup for UserMessageSource {
    fn dup(&self) -> (res: Self) {
        match self {
            UserMessageSource::User => UserMessageSource::User,
            UserMessageSource::Plugin(x) => UserMessageSource::Plugin(x.dup()),
        }
    }
}

/// A user message.
#[derive(Debug)]
pub struct UserPayload {
    /// The text.
    pub content: String,
    /// The images that go with it.
    pub images: Vec<ImageContent>,
    /// The queue it waits in.
    pub mode: UserMessageMode,
    /// Who sent it.
    pub source: UserMessageSource,
    /// The sender's own name for the message; never stored.
    pub client_message_id: Option<String>,
}

/// The mathematical value of a [`UserPayload`].
#[verifier::ext_equal]
pub struct UserPayloadView {
    pub content: Seq<char>,
    pub images: Seq<ImageContentView>,
    pub mode: UserMessageMode,
    pub source: UserMessageSourceView,
    pub client_message_id: Option<Seq<char>>,
}

impl View for UserPayload {
    type V = UserPayloadView;

    open spec fn view(&self) -> UserPayloadView {
        UserPayloadView {
            content: self.content@,
            images: self.images.deep_view(),
            mode: self.mode,
            source: self.source@,
            client_message_id: self.client_message_id.deep_view(),
        }
    }
}

impl DeepView for UserPayload {
    type V = UserPayloadView;

    open spec fn deep_view(&self) -> UserPayloadView {
        self@
    }
}

impl Dup for UserPayload {
    fn dup(&self) -> (res: Self) {
        UserPayload {
            content: self.content.dup(),
            images: self.images.dup(),
            mode: self.mode,
            source: self.source.dup(),
            client_message_id: self.client_message_id.dup(),
        }
    }
}

/// A piece of a streamed reply.
#[derive(Debug)]
pub struct ChunkPayload {
    /// More of the text.
    pub content: Option<String>,
    /// More of the reasoning.
    pub reasoning: Option<String>,
}

/// The mathematical value of a [`ChunkPayload`].
#[verifier::ext_equal]
pub struct ChunkPayloadView {
    pub content: Option<Seq<char>>,
    pub reasoning: Option<Seq<char>>,
}

impl View for ChunkPayload {
    type V = ChunkPayloadView;

    open spec fn view(&self) -> ChunkPayloadView {
        ChunkPayloadView {
            content: self.content.deep_view(),
            reasoning: self.reasoning.deep_view(),
        }
    }
}

impl DeepView for ChunkPayload {
    type V = ChunkPayloadView;

    open spec fn deep_view(&self) -> ChunkPayloadView {
        self@
    }
}

impl Dup for ChunkPayload {
    fn dup(&self) -> (res: Self) {
        ChunkPayload {
            content: self.content.dup(),
            reasoning: self.reasoning.dup(),
        }
    }
}

/// A tool call, as events show it.
#[derive(Debug)]
pub struct ToolCallPayload {
    /// Identifier of the call.
    pub tool_call_id: String,
    /// The tool.
    pub tool_name: String,
    /// The arguments, as JSON text.
    pub tool_args: String,
}

/// The mathematical value of a [`ToolCallPayload`].
#[verifier::ext_equal]
pub struct ToolCallPayloadView {
    pub tool_call_id: Seq<char>,
    pub tool_name: Seq<char>,
    pub tool_args: Seq<char>,
}

impl View for ToolCallPayload {
    type V = ToolCallPayloadView;

    open spec fn view(&self) -> ToolCallPayloadView {
        ToolCallPayloadView {
            tool_call_id: self.tool_call_id@,
            tool_name: self.tool_name@,
            tool_args: self.tool_args@,
        }
    }
}

impl DeepView for ToolCallPayload {
    type V = ToolCallPayloadView;

    open spec fn deep_view(&self) -> ToolCallPayloadView {
        self@
    }
}

impl Dup for ToolCallPayload {
    fn dup(&self) -> (res: Self) {
        ToolCallPayload {
            tool_call_id: self.tool_call_id.dup(),
            tool_name: self.tool_name.dup(),
            tool_args: self.tool_args.dup(),
        }
    }
}

/// The result of a tool call.
#[derive(Debug)]
pub struct ToolResultPayload {
    /// The call it answers.
    pub tool_call_id: String,
    /// The tool.
    pub tool_name: String,
    /// What the tool returned.
    pub content: String,
}

/// The mathematical value of a [`ToolResultPayload`].
#[verifier::ext_equal]
pub struct ToolResultPayloadView {
    pub tool_call_id: Seq<char>,
    pub tool_name: Seq<char>,
    pub content: Seq<char>,
}

impl View for ToolResultPayload {
    type V = ToolResultPayloadView;

    open spec fn view(&self) -> ToolResultPayloadView {
        ToolResultPayloadView {
            tool_call_id: self.tool_call_id@,
            tool_name: self.tool_name@,
            content: self.content@,
        }
    }
}

impl DeepView for ToolResultPayload {
    type V = ToolResultPayloadView;

    open spec fn deep_view(&self) -> ToolResultPayloadView {
        self@
    }
}

impl Dup for ToolResultPayload {
    fn dup(&self) -> (res: Self) {
        ToolResultPayload {
            tool_call_id: self.tool_call_id.dup(),
            tool_name: self.tool_name.dup(),
            content: self.content.dup(),
        }
    }
}

/// A complete reply of the model.
#[derive(Debug)]
pub struct AssistantPayload {
    /// The text.
    pub content: Option<String>,
    /// The reasoning.
    pub reasoning: Option<String>,
    /// The tools it calls.
    pub tool_calls: Option<Vec<ToolCallPayload>>,
    /// Why the reply ended.
    pub finish_reason: Option<String>,
    pub completion_tokens: i64,
    pub prompt_tokens: i64,
    pub total_tokens: i64,
    pub reasoning_tokens: i64,
    pub cached_tokens: i64,
}

/// The mathematical value of a [`AssistantPayload`].
#[verifier::ext_equal]
pub struct AssistantPayloadView {
    pub content: Option<Seq<char>>,
    pub reasoning: Option<Seq<char>>,
    pub tool_calls: Option<Seq<ToolCallPayloadView>>,
    pub finish_reason: Option<Seq<char>>,
    pub completion_tokens: i64,
    pub prompt_tokens: i64,
    pub total_tokens: i64,
    pub reasoning_tokens: i64,
    pub cached_tokens: i64,
}

impl View for AssistantPayload {
    type V = AssistantPayloadView;

    open spec fn view(&self) -> AssistantPayloadView {
        AssistantPayloadView {
            content: self.content.deep_view(),
            reasoning: self.reasoning.deep_view(),
            tool_calls: self.tool_calls.deep_view(),
            finish_reason: self.finish_reason.deep_view(),
            completion_tokens: self.completion_tokens,
            prompt_tokens: self.prompt_tokens,
            total_tokens: self.total_tokens,
            reasoning_tokens: self.reasoning_tokens,
            cached_tokens: self.cached_tokens,
        }
    }
}

impl DeepView for AssistantPayload {
    type V = AssistantPayloadView;

    open spec fn deep_view(&self) -> AssistantPayloadView {
        self@
    }
}

impl Dup for AssistantPayload {
    fn dup(&self) -> (res: Self) {
        AssistantPayload {
            content: self.content.dup(),
            reasoning: self.reasoning.dup(),
            tool_calls: self.tool_calls.dup(),
            finish_reason: self.finish_reason.dup(),
            completion_tokens: self.completion_tokens,
            prompt_tokens: self.prompt_tokens,
            total_tokens: self.total_tokens,
            reasoning_tokens: self.reasoning_tokens,
            cached_tokens: self.cached_tokens,
        }
    }
}

/// An interrupt.
#[derive(Debug)]
pub struct InterruptPayload {
    /// Why.
    pub reason: String,
    /// Who asked for it.
    pub source: InterruptSource,
}

/// The mathematical value of a [`InterruptPayload`].
#[verifier::ext_equal]
pub struct InterruptPayloadView {
    pub reason: Seq<char>,
    pub source: InterruptSource,
}

impl View for InterruptPayload {
    type V = InterruptPayloadView;

    open spec fn view(&self) -> InterruptPayloadView {
        InterruptPayloadView {
            reason: self.reason@,
            source: self.source,
        }
    }
}

impl DeepView for InterruptPayload {
    type V = InterruptPayloadView;

    open spec fn deep_view(&self) -> InterruptPayloadView {
        self@
    }
}

impl Dup for InterruptPayload {
    fn dup(&self) -> (res: Self) {
        InterruptPayload {
            reason: self.reason.dup(),
            source: self.source,
        }
    }
}

/// A failure, as the user sees it.
#[derive(Debug)]
pub struct ErrorPayload {
    /// What went wrong.
    pub message: String,
    /// Whether the session goes on by itself.
    pub recoverable: bool,
}

/// The mathematical value of a [`ErrorPayload`].
#[verifier::ext_equal]
pub struct ErrorPayloadView {
    pub message: Seq<char>,
    pub recoverable: bool,
}

impl View for ErrorPayload {
    type V = ErrorPayloadView;

    open spec fn view(&self) -> ErrorPayloadView {
        ErrorPayloadView {
            message: self.message@,
            recoverable: self.recoverable,
        }
    }
}

impl DeepView for ErrorPayload {
    type V = ErrorPayloadView;

    open spec fn deep_view(&self) -> ErrorPayloadView {
        self@
    }
}

impl Dup for ErrorPayload {
    fn dup(&self) -> (res: Self) {
        ErrorPayload {
            message: self.message.dup(),
            recoverable: self.recoverable,
        }
    }
}

/// A notice from a plugin.
#[derive(Debug)]
pub struct PluginPayload {
    /// The plugin.
    pub source: PluginSource,
    /// The kind of notice.
    pub event_type: String,
    /// Its data, as JSON text.
    pub data: String,
    /// The error it reports.
    pub error: Option<String>,
    /// The text it reports.
    pub message: Option<String>,
}

/// The mathematical value of a [`PluginPayload`].
#[verifier::ext_equal]
pub struct PluginPayloadView {
    pub source: PluginSourceView,
    pub event_type: Seq<char>,
    pub data: Seq<char>,
    pub error: Option<Seq<char>>,
    pub message: Option<Seq<char>>,
}

impl View for PluginPayload {
    type V = PluginPayloadView;

    open spec fn view(&self) -> PluginPayloadView {
        PluginPayloadView {
            source: self.source@,
            event_type: self.event_type@,
            data: self.data@,
            error: self.error.deep_view(),
            message: self.message.deep_view(),
        }
    }
}

impl DeepView for PluginPayload {
    type V = PluginPayloadView;

    open spec fn deep_view(&self) -> PluginPayloadView {
        self@
    }
}

impl Dup for PluginPayload {
    fn dup(&self) -> (res: Self) {
        PluginPayload {
            source: self.source.dup(),
            event_type: self.event_type.dup(),
            data: self.data.dup(),
            error: self.error.dup(),
            message: self.message.dup(),
        }
    }
}

/// A compression begins.
#[derive(Debug)]
pub struct CompressionStartedPayload {
    pub reason: CompressionReason,
    /// Size of the last prompt.
    pub prompt_tokens: u32,
    /// Context limit of the model; 0 where it is not known.
    pub context_length: u32,
}

/// The mathematical value of a [`CompressionStartedPayload`].
#[verifier::ext_equal]
pub struct CompressionStartedPayloadView {
    pub reason: CompressionReason,
    pub prompt_tokens: u32,
    pub context_length: u32,
}

impl View for CompressionStartedPayload {
    type V = CompressionStartedPayloadView;

    open spec fn view(&self) -> CompressionStartedPayloadView {
        CompressionStartedPayloadView {
            reason: self.reason,
            prompt_tokens: self.prompt_tokens,
            context_length: self.context_length,
        }
    }
}

impl DeepView for CompressionStartedPayload {
    type V = CompressionStartedPayloadView;

    open spec fn deep_view(&self) -> CompressionStartedPayloadView {
        self@
    }
}

impl Dup for CompressionStartedPayload {
    fn dup(&self) -> (res: Self) {
        CompressionStartedPayload {
            reason: self.reason,
            prompt_tokens: self.prompt_tokens,
            context_length: self.context_length,
        }
    }
}

/// A piece of a summary.
#[derive(Debug)]
pub struct CompressionDeltaPayload {
    pub content: Option<String>,
    pub reasoning: Option<String>,
}

/// The mathematical value of a [`CompressionDeltaPayload`].
#[verifier::ext_equal]
pub struct CompressionDeltaPayloadView {
    pub content: Option<Seq<char>>,
    pub reasoning: Option<Seq<char>>,
}

impl View for CompressionDeltaPayload {
    type V = CompressionDeltaPayloadView;

    open spec fn view(&self) -> CompressionDeltaPayloadView {
        CompressionDeltaPayloadView {
            content: self.content.deep_view(),
            reasoning: self.reasoning.deep_view(),
        }
    }
}

impl DeepView for CompressionDeltaPayload {
    type V = CompressionDeltaPayloadView;

    open spec fn deep_view(&self) -> CompressionDeltaPayloadView {
        self@
    }
}

impl Dup for CompressionDeltaPayload {
    fn dup(&self) -> (res: Self) {
        CompressionDeltaPayload {
            content: self.content.dup(),
            reasoning: self.reasoning.dup(),
        }
    }
}

/// A compression is done.
#[derive(Debug)]
pub struct CompressionEndedPayload {
    pub reason: CompressionReason,
    /// The summary.
    pub content: String,
    /// The reasoning behind it.
    pub reasoning: Option<String>,
    /// Sequence number of the boundary message.
    pub new_seq: i64,
}

/// The mathematical value of a [`CompressionEndedPayload`].
#[verifier::ext_equal]
pub struct CompressionEndedPayloadView {
    pub reason: CompressionReason,
    pub content: Seq<char>,
    pub reasoning: Option<Seq<char>>,
    pub new_seq: i64,
}

impl View for CompressionEndedPayload {
    type V = CompressionEndedPayloadView;

    open spec fn view(&self) -> CompressionEndedPayloadView {
        CompressionEndedPayloadView {
            reason: self.reason,
            content: self.content@,
            reasoning: self.reasoning.deep_view(),
            new_seq: self.new_seq,
        }
    }
}

impl DeepView for CompressionEndedPayload {
    type V = CompressionEndedPayloadView;

    open spec fn deep_view(&self) -> CompressionEndedPayloadView {
        self@
    }
}

impl Dup for CompressionEndedPayload {
    fn dup(&self) -> (res: Self) {
        CompressionEndedPayload {
            reason: self.reason,
            content: self.content.dup(),
            reasoning: self.reasoning.dup(),
            new_seq: self.new_seq,
        }
    }
}

/// A compression failed; the history is as before.
#[derive(Debug)]
pub struct CompressionFailedPayload {
    pub reason: CompressionReason,
    /// What went wrong.
    pub cause: String,
}

/// The mathematical value of a [`CompressionFailedPayload`].
#[verifier::ext_equal]
pub struct CompressionFailedPayloadView {
    pub reason: CompressionReason,
    pub cause: Seq<char>,
}

impl View for CompressionFailedPayload {
    type V = CompressionFailedPayloadView;

    open spec fn view(&self) -> CompressionFailedPayloadView {
        CompressionFailedPayloadView {
            reason: self.reason,
            cause: self.cause@,
        }
    }
}

impl DeepView for CompressionFailedPayload {
    type V = CompressionFailedPayloadView;

    open spec fn deep_view(&self) -> CompressionFailedPayloadView {
        self@
    }
}

impl Dup for CompressionFailedPayload {
    fn dup(&self) -> (res: Self) {
        CompressionFailedPayload {
            reason: self.reason,
            cause: self.cause.dup(),
        }
    }
}

/// The stages of a compression.
#[derive(Debug)]
pub enum CompressionPayload {
    Started(CompressionStartedPayload),
    Delta(CompressionDeltaPayload),
    Ended(CompressionEndedPayload),
    Failed(CompressionFailedPayload),
}

/// The mathematical value of a [`CompressionPayload`].
#[verifier::ext_equal]
pub enum CompressionPayloadView {
    Started(CompressionStartedPayloadView),
    Delta(CompressionDeltaPayloadView),
    Ended(CompressionEndedPayloadView),
    Failed(CompressionFailedPayloadView),
}

impl View for CompressionPayload {
    type V = CompressionPayloadView;

    open spec fn view(&self) -> CompressionPayloadView {
        match self {
            CompressionPayload::Started(x) => CompressionPayloadView::Started(x@),
            CompressionPayload::Delta(x) => CompressionPayloadView::Delta(x@),
            CompressionPayload::Ended(x) => CompressionPayloadView::Ended(x@),
            CompressionPayload::Failed(x) => CompressionPayloadView::Failed(x@),
        }
    }
}

impl DeepView for CompressionPayload {
    type V = CompressionPayloadView;

    open spec fn deep_view(&self) -> CompressionPayloadView {
        self@
    }
}

impl Dup for CompressionPayload {
    fn dup(&self) -> (res: Self) {
        match self {
            CompressionPayload::Started(x) => CompressionPayload::Started(x.dup()),
            CompressionPayload::Delta(x) => CompressionPayload::Delta(x.dup()),
            CompressionPayload::Ended(x) => CompressionPayload::Ended(x.dup()),
            CompressionPayload::Failed(x) => CompressionPayload::Failed(x.dup()),
        }
    }
}

/// A new title of the session.
#[derive(Debug)]
pub struct TitlePayload {
    pub title: String,
}

/// The mathematical value of a [`TitlePayload`].
#[verifier::ext_equal]
pub struct TitlePayloadView {
    pub title: Seq<char>,
}

impl View for TitlePayload {
    type V = TitlePayloadView;

    open spec fn view(&self) -> TitlePayloadView {
        TitlePayloadView {
            title: self.title@,
        }
    }
}

impl DeepView for TitlePayload {
    type V = TitlePayloadView;

    open spec fn deep_view(&self) -> TitlePayloadView {
        self@
    }
}

impl Dup for TitlePayload {
    fn dup(&self) -> (res: Self) {
        TitlePayload {
            title: self.title.dup(),
        }
    }
}

/// The model will be called again.
#[derive(Debug)]
pub struct RetryPayload {
    /// The attempt that failed, counted from 1.
    pub attempt: u32,
    /// How often a call is repeated at most.
    pub max_retries: u32,
    /// How long the engine waits first.
    pub wait_ms: u64,
    /// Why the attempt failed.
    pub cause: String,
}

/// The mathematical value of a [`RetryPayload`].
#[verifier::ext_equal]
pub struct RetryPayloadView {
    pub attempt: u32,
    pub max_retries: u32,
    pub wait_ms: u64,
    pub cause: Seq<char>,
}

impl View for RetryPayload {
    type V = RetryPayloadView;

    open spec fn view(&self) -> RetryPayloadView {
        RetryPayloadView {
            attempt: self.attempt,
            max_retries: self.max_retries,
            wait_ms: self.wait_ms,
            cause: self.cause@,
        }
    }
}

impl DeepView for RetryPayload {
    type V = RetryPayloadView;

    open spec fn deep_view(&self) -> RetryPayloadView {
        self@
    }
}

impl Dup for RetryPayload {
    fn dup(&self) -> (res: Self) {
        RetryPayload {
            attempt: self.attempt,
            max_retries: self.max_retries,
            wait_ms: self.wait_ms,
            cause: self.cause.dup(),
        }
    }
}

/// A control command.
#[derive(Debug)]
pub struct ControlPayload {
    pub command: ControlCommand,
    /// The queue it waits in.
    pub mode: UserMessageMode,
    /// The sender's own name for the command.
    pub client_message_id: Option<String>,
    /// What the sender adds to it.
    pub note: Option<String>,
}

/// The mathematical value of a [`ControlPayload`].
#[verifier::ext_equal]
pub struct ControlPayloadView {
    pub command: ControlCommand,
    pub mode: UserMessageMode,
    pub client_message_id: Option<Seq<char>>,
    pub note: Option<Seq<char>>,
}

impl View for ControlPayload {
    type V = ControlPayloadView;

    open spec fn view(&self) -> ControlPayloadView {
        ControlPayloadView {
            command: self.command,
            mode: self.mode,
            client_message_id: self.client_message_id.deep_view(),
            note: self.note.deep_view(),
        }
    }
}

impl DeepView for ControlPayload {
    type V = ControlPayloadView;

    open spec fn deep_view(&self) -> ControlPayloadView {
        self@
    }
}

impl Dup for ControlPayload {
    fn dup(&self) -> (res: Self) {
        ControlPayload {
            command: self.command,
            mode: self.mode,
            client_message_id: self.client_message_id.dup(),
            note: self.note.dup(),
        }
    }
}

/// A rollback is done.
#[derive(Debug)]
pub struct RollbackPayload {
    /// Where the history was cut.
    pub target_seq: i64,
    pub deleted_count: i64,
    pub deleted_total: i64,
    /// The user message at the cut, to be edited and sent anew.
    pub target_message: Option<UserPayload>,
    pub message_count: i64,
    pub tool_call_count: i64,
    pub last_compacted_seq: Option<i64>,
    pub compression_count: i64,
}

/// The mathematical value of a [`RollbackPayload`].
#[verifier::ext_equal]
pub struct RollbackPayloadView {
    pub target_seq: i64,
    pub deleted_count: i64,
    pub deleted_total: i64,
    pub target_message: Option<UserPayloadView>,
    pub message_count: i64,
    pub tool_call_count: i64,
    pub last_compacted_seq: Option<i64>,
    pub compression_count: i64,
}

impl View for RollbackPayload {
    type V = RollbackPayloadView;

    open spec fn view(&self) -> RollbackPayloadView {
        RollbackPayloadView {
            target_seq: self.target_seq,
            deleted_count: self.deleted_count,
            deleted_total: self.deleted_total,
            target_message: self.target_message.deep_view(),
            message_count: self.message_count,
            tool_call_count: self.tool_call_count,
            last_compacted_seq: self.last_compacted_seq,
            compression_count: self.compression_count,
        }
    }
}

impl DeepView for RollbackPayload {
    type V = RollbackPayloadView;

    open spec fn deep_view(&self) -> RollbackPayloadView {
        self@
    }
}

impl Dup for RollbackPayload {
    fn dup(&self) -> (res: Self) {
        RollbackPayload {
            target_seq: self.target_seq,
            deleted_count: self.deleted_count,
            deleted_total: self.deleted_total,
            target_message: self.target_message.dup(),
            message_count: self.message_count,
            tool_call_count: self.tool_call_count,
            last_compacted_seq: self.last_compacted_seq,
            compression_count: self.compression_count,
        }
    }
}

/// The lengths of the queues after a change.
#[derive(Debug)]
pub struct QueueUpdatePayload {
    pub guide_count: usize,
    pub pending_count: usize,
    pub kind: QueueUpdateKind,
}

/// The mathematical value of a [`QueueUpdatePayload`].
#[verifier::ext_equal]
pub struct QueueUpdatePayloadView {
    pub guide_count: usize,
    pub pending_count: usize,
    pub kind: QueueUpdateKind,
}

impl View for QueueUpdatePayload {
    type V = QueueUpdatePayloadView;

    open spec fn view(&self) -> QueueUpdatePayloadView {
        QueueUpdatePayloadView {
            guide_count: self.guide_count,
            pending_count: self.pending_count,
            kind: self.kind,
        }
    }
}

impl DeepView for QueueUpdatePayload {
    type V = QueueUpdatePayloadView;

    open spec fn deep_view(&self) -> QueueUpdatePayloadView {
        self@
    }
}

impl Dup for QueueUpdatePayload {
    fn dup(&self) -> (res: Self) {
        QueueUpdatePayload {
            guide_count: self.guide_count,
            pending_count: self.pending_count,
            kind: self.kind,
        }
    }
}

/// A payload under its base: the form of every event but [`OutputEvent::TurnStart`].
#[derive(Debug)]
pub struct Envelope<P> {
    pub base: EventBase,
    pub payload: P,
}

/// The mathematical value of an [`Envelope`].
#[verifier::ext_equal]
pub struct EnvelopeView<V> {
    pub base: EventBaseView,
    pub payload: V,
}

impl<P: DeepView> View for Envelope<P> {
    type V = EnvelopeView<P::V>;

    open spec fn view(&self) -> EnvelopeView<P::V> {
        EnvelopeView { base: self.base@, payload: self.payload.deep_view() }
    }
}

impl<P: DeepView> DeepView for Envelope<P> {
    type V = EnvelopeView<P::V>;

    open spec fn deep_view(&self) -> EnvelopeView<P::V> {
        self@
    }
}

impl<P: Dup> Dup for Envelope<P> {
    fn dup(&self) -> (res: Self) {
        Envelope { base: self.base.dup(), payload: self.payload.dup() }
    }
}

pub type UserMessage = Envelope<UserPayload>;

pub type UserMessageView = EnvelopeView<UserPayloadView>;

pub type ChunkMessage = Envelope<ChunkPayload>;

pub type ChunkMessageView = EnvelopeView<ChunkPayloadView>;

pub type ToolCallMessage = Envelope<ToolCallPayload>;

pub type ToolCallMessageView = EnvelopeView<ToolCallPayloadView>;

pub type ToolResultMessage = Envelope<ToolResultPayload>;

pub type ToolResultMessageView = EnvelopeView<ToolResultPayloadView>;

pub type AssistantMessage = Envelope<AssistantPayload>;

pub type AssistantMessageView = EnvelopeView<AssistantPayloadView>;

pub type InterruptMessage = Envelope<InterruptPayload>;

pub type InterruptMessageView = EnvelopeView<InterruptPayloadView>;

pub type ErrorMessage = Envelope<ErrorPayload>;

pub type ErrorMessageView = EnvelopeView<ErrorPayloadView>;

pub type PluginMessage = Envelope<PluginPayload>;

pub type PluginMessageView = EnvelopeView<PluginPayloadView>;

pub type CompressionMessage = Envelope<CompressionPayload>;

pub type CompressionMessageView = EnvelopeView<CompressionPayloadView>;

pub type TitleMessage = Envelope<TitlePayload>;

pub type TitleMessageView = EnvelopeView<TitlePayloadView>;

pub type RetryMessage = Envelope<RetryPayload>;

pub type RetryMessageView = EnvelopeView<RetryPayloadView>;

pub type ControlMessage = Envelope<ControlPayload>;

pub type ControlMessageView = EnvelopeView<ControlPayloadView>;

pub type RollbackMessage = Envelope<RollbackPayload>;

pub type RollbackMessageView = EnvelopeView<RollbackPayloadView>;

pub type QueueUpdateMessage = Envelope<QueueUpdatePayload>;

pub type QueueUpdateMessageView = EnvelopeView<QueueUpdatePayloadView>;


/// What a session emits.
#[derive(Debug)]
pub enum OutputEvent {
    Chunk(ChunkMessage),
    User(UserMessage),
    ToolCall(ToolCallMessage),
    ToolResult(ToolResultMessage),
    Assistant(AssistantMessage),
    Interrupt(InterruptMessage),
    Error(ErrorMessage),
    Plugin(PluginMessage),
    Compression(CompressionMessage),
    Title(TitleMessage),
    Retry(RetryMessage),
    Control(ControlMessage),
    Rollback(RollbackMessage),
    QueueUpdate(QueueUpdateMessage),
    /// A turn begins.
    TurnStart(EventBase),
}

/// The mathematical value of a [`OutputEvent`].
#[verifier::ext_equal]
pub enum OutputEventView {
    Chunk(ChunkMessageView),
    User(UserMessageView),
    ToolCall(ToolCallMessageView),
    ToolResult(ToolResultMessageView),
    Assistant(AssistantMessageView),
    Interrupt(InterruptMessageView),
    Error(ErrorMessageView),
    Plugin(PluginMessageView),
    Compression(CompressionMessageView),
    Title(TitleMessageView),
    Retry(RetryMessageView),
    Control(ControlMessageView),
    Rollback(RollbackMessageView),
    QueueUpdate(QueueUpdateMessageView),
    TurnStart(EventBaseView),
}

impl View for OutputEvent {
    type V = OutputEventView;

    open spec fn view(&self) -> OutputEventView {
        match self {
            OutputEvent::Chunk(x) => OutputEventView::Chunk(x@),
            OutputEvent::User(x) => OutputEventView::User(x@),
            OutputEvent::ToolCall(x) => OutputEventView::ToolCall(x@),
            OutputEvent::ToolResult(x) => OutputEventView::ToolResult(x@),
            OutputEvent::Assistant(x) => OutputEventView::Assistant(x@),
            OutputEvent::Interrupt(x) => OutputEventView::Interrupt(x@),
            OutputEvent::Error(x) => OutputEventView::Error(x@),
            OutputEvent::Plugin(x) => OutputEventView::Plugin(x@),
            OutputEvent::Compression(x) => OutputEventView::Compression(x@),
            OutputEvent::Title(x) => OutputEventView::Title(x@),
            OutputEvent::Retry(x) => OutputEventView::Retry(x@),
            OutputEvent::Control(x) => OutputEventView::Control(x@),
            OutputEvent::Rollback(x) => OutputEventView::Rollback(x@),
            OutputEvent::QueueUpdate(x) => OutputEventView::QueueUpdate(x@),
            OutputEvent::TurnStart(x) => OutputEventView::TurnStart(x@),
        }
    }
}

impl DeepView for OutputEvent {
    type V = OutputEventView;

    open spec fn deep_view(&self) -> OutputEventView {
        self@
    }
}

impl Dup for OutputEvent {
    fn dup(&self) -> (res: Self) {
        match self {
            OutputEvent::Chunk(x) => OutputEvent::Chunk(x.dup()),
            OutputEvent::User(x) => OutputEvent::User(x.dup()),
            OutputEvent::ToolCall(x) => OutputEvent::ToolCall(x.dup()),
            OutputEvent::ToolResult(x) => OutputEvent::ToolResult(x.dup()),
            OutputEvent::Assistant(x) => OutputEvent::Assistant(x.dup()),
            OutputEvent::Interrupt(x) => OutputEvent::Interrupt(x.dup()),
            OutputEvent::Error(x) => OutputEvent::Error(x.dup()),
            OutputEvent::Plugin(x) => OutputEvent::Plugin(x.dup()),
            OutputEvent::Compression(x) => OutputEvent::Compression(x.dup()),
            OutputEvent::Title(x) => OutputEvent::Title(x.dup()),
            OutputEvent::Retry(x) => OutputEvent::Retry(x.dup()),
            OutputEvent::Control(x) => OutputEvent::Control(x.dup()),
            OutputEvent::Rollback(x) => OutputEvent::Rollback(x.dup()),
            OutputEvent::QueueUpdate(x) => OutputEvent::QueueUpdate(x.dup()),
            OutputEvent::TurnStart(x) => OutputEvent::TurnStart(x.dup()),
        }
    }
}

/// What waits in a queue.
#[derive(Debug)]
pub enum QueueEntry {
    /// A user message.
    User(UserMessage),
    /// A control command.
    Control(ControlMessage),
}

/// The mathematical value of a [`QueueEntry`].
#[verifier::ext_equal]
pub enum QueueEntryView {
    User(UserMessageView),
    Control(ControlMessageView),
}

impl View for QueueEntry {
    type V = QueueEntryView;

    open spec fn view(&self) -> QueueEntryView {
        match self {
            QueueEntry::User(x) => QueueEntryView::User(x@),
            QueueEntry::Control(x) => QueueEntryView::Control(x@),
        }
    }
}

impl DeepView for QueueEntry {
    type V = QueueEntryView;

    open spec fn deep_view(&self) -> QueueEntryView {
        self@
    }
}

impl Dup for QueueEntry {
    fn dup(&self) -> (res: Self) {
        match self {
            QueueEntry::User(x) => QueueEntry::User(x.dup()),
            QueueEntry::Control(x) => QueueEntry::Control(x.dup()),
        }
    }
}

/// A tool call, as it is stored and executed.
#[derive(Debug)]
pub struct ToolCallData {
    /// Identifier of the call.
    pub id: String,
    /// The tool.
    pub name: String,
    /// The arguments, as the model wrote them: meant to be JSON text.
    pub arguments: String,
}

/// The mathematical value of a [`ToolCallData`].
#[verifier::ext_equal]
pub struct ToolCallDataView {
    pub id: Seq<char>,
    pub name: Seq<char>,
    pub arguments: Seq<char>,
}

impl View for ToolCallData {
    type V = ToolCallDataView;

    open spec fn view(&self) -> ToolCallDataView {
        ToolCallDataView {
            id: self.id@,
            name: self.name@,
            arguments: self.arguments@,
        }
    }
}

impl DeepView for ToolCallData {
    type V = ToolCallDataView;

    open spec fn deep_view(&self) -> ToolCallDataView {
        self@
    }
}

impl Dup for ToolCallData {
    fn dup(&self) -> (res: Self) {
        ToolCallData {
            id: self.id.dup(),
            name: self.name.dup(),
            arguments: self.arguments.dup(),
        }
    }
}

/// A stored message.
#[derive(Debug)]
pub struct Message {
    /// Row number.
    pub id: Option<i64>,
    pub session_id: String,
    /// The model that was billed for it.
    pub model_id: Option<String>,
    pub role: MessageRole,
    pub content: Option<String>,
    pub images: Vec<ImageContent>,
    pub reasoning: Option<String>,
    /// The call that a tool result answers.
    pub tool_call_id: Option<String>,
    pub tool_calls: Option<Vec<ToolCallData>>,
    pub tool_name: Option<String>,
    pub finish_reason: Option<String>,
    pub timestamp: Timestamp,
    pub prompt_tokens: i64,
    pub completion_tokens: i64,
    pub reasoning_tokens: i64,
    pub cached_tokens: i64,
    pub cost: Cost,
    /// Place in the history; set when the message is stored.
    pub seq: i64,
    pub kind: MessageKind,
}

/// The mathematical value of a [`Message`].
#[verifier::ext_equal]
pub struct MessageView {
    pub id: Option<i64>,
    pub session_id: Seq<char>,
    pub model_id: Option<Seq<char>>,
    pub role: MessageRole,
    pub content: Option<Seq<char>>,
    pub images: Seq<ImageContentView>,
    pub reasoning: Option<Seq<char>>,
    pub tool_call_id: Option<Seq<char>>,
    pub tool_calls: Option<Seq<ToolCallDataView>>,
    pub tool_name: Option<Seq<char>>,
    pub finish_reason: Option<Seq<char>>,
    pub timestamp: Timestamp,
    pub prompt_tokens: i64,
    pub completion_tokens: i64,
    pub reasoning_tokens: i64,
    pub cached_tokens: i64,
    pub cost: Cost,
    pub seq: i64,
    pub kind: MessageKind,
}

impl View for Message {
    type V = MessageView;

    open spec fn view(&self) -> MessageView {
        MessageView {
            id: self.id,
            session_id: self.session_id@,
            model_id: self.model_id.deep_view(),
            role: self.role,
            content: self.content.deep_view(),
            images: self.images.deep_view(),
            reasoning: self.reasoning.deep_view(),
            tool_call_id: self.tool_call_id.deep_view(),
            tool_calls: self.tool_calls.deep_view(),
            tool_name: self.tool_name.deep_view(),
            finish_reason: self.finish_reason.deep_view(),
            timestamp: self.timestamp,
            prompt_tokens: self.prompt_tokens,
            completion_tokens: self.completion_tokens,
            reasoning_tokens: self.reasoning_tokens,
            cached_tokens: self.cached_tokens,
            cost: self.cost,
            seq: self.seq,
            kind: self.kind,
        }
    }
}

impl DeepView for Message {
    type V = MessageView;

    open spec fn deep_view(&self) -> MessageView {
        self@
    }
}

impl Dup for Message {
    fn dup(&self) -> (res: Self) {
        Message {
            id: self.id,
            session_id: self.session_id.dup(),
            model_id: self.model_id.dup(),
            role: self.role,
            content: self.content.dup(),
            images: self.images.dup(),
            reasoning: self.reasoning.dup(),
            tool_call_id: self.tool_call_id.dup(),
            tool_calls: self.tool_calls.dup(),
            tool_name: self.tool_name.dup(),
            finish_reason: self.finish_reason.dup(),
            timestamp: self.timestamp,
            prompt_tokens: self.prompt_tokens,
            completion_tokens: self.completion_tokens,
            reasoning_tokens: self.reasoning_tokens,
            cached_tokens: self.cached_tokens,
            cost: self.cost,
            seq: self.seq,
            kind: self.kind,
        }
    }
}

} // verus!
