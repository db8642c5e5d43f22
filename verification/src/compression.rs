//! Compressing a conversation that has grown too long.
//!
//! A summary takes the place of everything before it. Compression is checked for
//! before a turn, and can be asked for by a command; what is then done is the same.
//! Whoever was told that a compression began is told how it ended.
use crate::builders::{resolution_view, ResolvedModel, ResolvedModelView};
use crate::chat::{StreamOptions, StreamOptionsView, StreamUsage};
use crate::emit::{blank_base, envelope, unsent};
use crate::interrupt::{Outgoing, OutgoingView};
use crate::message::{
    CompressionDeltaPayload, CompressionDeltaPayloadView, CompressionEndedPayload,
    CompressionEndedPayloadView, CompressionFailedPayload, CompressionFailedPayloadView,
    CompressionPayload, CompressionPayloadView, CompressionReason, CompressionStartedPayload,
    CompressionStartedPayloadView, EnvelopeView, EventBaseView, Message, MessageView, OutputEvent,
    OutputEventView,
};
use crate::model::{empty_list, push_item, Dup};
use vstd::prelude::*;

verus! {

/// What a system prompt is written for.
#[derive(Clone, Copy, Debug, PartialEq, Eq, Structural)]
pub enum PromptUsage {
    /// A conversation of its own.
    Primary,
    /// A task of another session.
    Subagent,
}

impl DeepView for PromptUsage {
    type V = PromptUsage;

    open spec fn deep_view(&self) -> PromptUsage {
        *self
    }
}

impl Dup for PromptUsage {
    fn dup(&self) -> (res: Self) {
        *self
    }
}

/// A compression that is to be carried out.
#[derive(Debug)]
pub struct CompressionJob {
    pub reason: CompressionReason,
    /// Size of the last prompt; 0 where there was none.
    pub prompt_tokens: u32,
    /// The model of the conversation, which also writes the summary.
    pub model: ResolvedModel,
    /// What the sender of the command wants the summary to stress.
    pub note: Option<String>,
    /// Whether the session is a task of another.
    pub is_child: bool,
}

/// The mathematical value of a [`CompressionJob`].
#[verifier::ext_equal]
pub struct CompressionJobView {
    pub reason: CompressionReason,
    pub prompt_tokens: u32,
    pub model: ResolvedModelView,
    pub note: Option<Seq<char>>,
    pub is_child: bool,
}

impl View for CompressionJob {
    type V = CompressionJobView;

    open spec fn view(&self) -> CompressionJobView {
        CompressionJobView {
            reason: self.reason,
            prompt_tokens: self.prompt_tokens,
            model: self.model@,
            note: self.note.deep_view(),
            is_child: self.is_child,
        }
    }
}

impl DeepView for CompressionJob {
    type V = CompressionJobView;

    open spec fn deep_view(&self) -> CompressionJobView {
        self@
    }
}

impl Dup for CompressionJob {
    fn dup(&self) -> (res: Self) {
        CompressionJob {
            reason: self.reason,
            prompt_tokens: self.prompt_tokens,
            model: self.model.dup(),
            note: self.note.dup(),
            is_child: self.is_child,
        }
    }
}

/// What there is to summarize.
#[derive(Debug)]
pub struct LoadedHistory {
    /// The conversation as the model sees it, oldest first.
    pub messages: Vec<Message>,
    /// The system prompt.
    pub system: Option<String>,
}

/// The mathematical value of a [`LoadedHistory`].
#[verifier::ext_equal]
pub struct LoadedHistoryView {
    pub messages: Seq<MessageView>,
    pub system: Option<Seq<char>>,
}

impl View for LoadedHistory {
    type V = LoadedHistoryView;

    open spec fn view(&self) -> LoadedHistoryView {
        LoadedHistoryView {
            messages: self.messages.deep_view(),
            system: self.system.deep_view(),
        }
    }
}

impl DeepView for LoadedHistory {
    type V = LoadedHistoryView;

    open spec fn deep_view(&self) -> LoadedHistoryView {
        self@
    }
}

impl Dup for LoadedHistory {
    fn dup(&self) -> (res: Self) {
        LoadedHistory {
            messages: self.messages.dup(),
            system: self.system.dup(),
        }
    }
}

/// A call for a summary.
#[derive(Debug)]
pub struct SummaryRequest {
    pub history: LoadedHistory,
    /// The model's own name, without the provider.
    pub model: String,
    pub note: Option<String>,
    pub options: StreamOptions,
}

/// The mathematical value of a [`SummaryRequest`].
#[verifier::ext_equal]
pub struct SummaryRequestView {
    pub history: LoadedHistoryView,
    pub model: Seq<char>,
    pub note: Option<Seq<char>>,
    pub options: StreamOptionsView,
}

impl View for SummaryRequest {
    type V = SummaryRequestView;

    open spec fn view(&self) -> SummaryRequestView {
        SummaryRequestView {
            history: self.history@,
            model: self.model@,
            note: self.note.deep_view(),
            options: self.options@,
        }
    }
}

impl DeepView for SummaryRequest {
    type V = SummaryRequestView;

    open spec fn deep_view(&self) -> SummaryRequestView {
        self@
    }
}

impl Dup for SummaryRequest {
    fn dup(&self) -> (res: Self) {
        SummaryRequest {
            history: self.history.dup(),
            model: self.model.dup(),
            note: self.note.dup(),
            options: self.options.dup(),
        }
    }
}

/// A summary.
#[derive(Debug)]
pub struct Summary {
    pub content: String,
    pub reasoning: Option<String>,
}

/// The mathematical value of a [`Summary`].
#[verifier::ext_equal]
pub struct SummaryView {
    pub content: Seq<char>,
    pub reasoning: Option<Seq<char>>,
}

impl View for Summary {
    type V = SummaryView;

    open spec fn view(&self) -> SummaryView {
        SummaryView {
            content: self.content@,
            reasoning: self.reasoning.deep_view(),
        }
    }
}

impl DeepView for Summary {
    type V = SummaryView;

    open spec fn deep_view(&self) -> SummaryView {
        self@
    }
}

impl Dup for Summary {
    fn dup(&self) -> (res: Self) {
        Summary {
            content: self.content.dup(),
            reasoning: self.reasoning.dup(),
        }
    }
}

/// What a compression is told.
#[derive(Debug)]
pub enum CompressionEvent {
    /// The history has been read.
    Loaded(LoadedHistory),
    /// The history could not be read.
    LoadFailed(String),
    /// A piece of the summary has come.
    Delta(CompressionDeltaPayload),
    /// The summary is complete.
    Summarized(Summary),
    /// There is no summary.
    SummaryFailed(String),
    /// The summary has been stored; this is its place in the history.
    Marked(i64),
    /// The summary could not be stored.
    MarkFailed(String),
}

/// The mathematical value of a [`CompressionEvent`].
#[verifier::ext_equal]
pub enum CompressionEventView {
    Loaded(LoadedHistoryView),
    LoadFailed(Seq<char>),
    Delta(CompressionDeltaPayloadView),
    Summarized(SummaryView),
    SummaryFailed(Seq<char>),
    Marked(i64),
    MarkFailed(Seq<char>),
}

impl View for CompressionEvent {
    type V = CompressionEventView;

    open spec fn view(&self) -> CompressionEventView {
        match self {
            CompressionEvent::Loaded(x) => CompressionEventView::Loaded(x@),
            CompressionEvent::LoadFailed(x) => CompressionEventView::LoadFailed(x@),
            CompressionEvent::Delta(x) => CompressionEventView::Delta(x@),
            CompressionEvent::Summarized(x) => CompressionEventView::Summarized(x@),
            CompressionEvent::SummaryFailed(x) => CompressionEventView::SummaryFailed(x@),
            CompressionEvent::Marked(x) => CompressionEventView::Marked(*x),
            CompressionEvent::MarkFailed(x) => CompressionEventView::MarkFailed(x@),
        }
    }
}

impl DeepView for CompressionEvent {
    type V = CompressionEventView;

    open spec fn deep_view(&self) -> CompressionEventView {
        self@
    }
}

impl Dup for CompressionEvent {
    fn dup(&self) -> (res: Self) {
        match self {
            CompressionEvent::Loaded(x) => CompressionEvent::Loaded(x.dup()),
            CompressionEvent::LoadFailed(x) => CompressionEvent::LoadFailed(x.dup()),
            CompressionEvent::Delta(x) => CompressionEvent::Delta(x.dup()),
            CompressionEvent::Summarized(x) => CompressionEvent::Summarized(x.dup()),
            CompressionEvent::SummaryFailed(x) => CompressionEvent::SummaryFailed(x.dup()),
            CompressionEvent::Marked(x) => CompressionEvent::Marked(*x),
            CompressionEvent::MarkFailed(x) => CompressionEvent::MarkFailed(x.dup()),
        }
    }
}

/// What a compression asks for.
#[derive(Debug)]
pub enum CompressionAction {
    /// Send an event.
    Send(Outgoing),
    /// Read the history and the system prompt.
    Load,
    /// Have a summary written.
    Summarize(SummaryRequest),
    /// Store a summary as the new start of the history.
    Mark(String),
    /// Write the system prompt anew and store it; failing to do so changes nothing.
    RebuildPrompt(PromptUsage),
}

/// The mathematical value of a [`CompressionAction`].
#[verifier::ext_equal]
pub enum CompressionActionView {
    Send(OutgoingView),
    Load,
    Summarize(SummaryRequestView),
    Mark(Seq<char>),
    RebuildPrompt(PromptUsage),
}

impl View for CompressionAction {
    type V = CompressionActionView;

    open spec fn view(&self) -> CompressionActionView {
        match self {
            CompressionAction::Send(x) => CompressionActionView::Send(x@),
            CompressionAction::Load => CompressionActionView::Load,
            CompressionAction::Summarize(x) => CompressionActionView::Summarize(x@),
            CompressionAction::Mark(x) => CompressionActionView::Mark(x@),
            CompressionAction::RebuildPrompt(x) => CompressionActionView::RebuildPrompt(*x),
        }
    }
}

impl DeepView for CompressionAction {
    type V = CompressionActionView;

    open spec fn deep_view(&self) -> CompressionActionView {
        self@
    }
}

impl Dup for CompressionAction {
    fn dup(&self) -> (res: Self) {
        match self {
            CompressionAction::Send(x) => CompressionAction::Send(x.dup()),
            CompressionAction::Load => CompressionAction::Load,
            CompressionAction::Summarize(x) => CompressionAction::Summarize(x.dup()),
            CompressionAction::Mark(x) => CompressionAction::Mark(x.dup()),
            CompressionAction::RebuildPrompt(x) => CompressionAction::RebuildPrompt(*x),
        }
    }
}

// ---- whether to compress ----

/// Whether a session is spared: a task of another session, where such tasks are.
/// Only the check before a turn spares anyone; a command does not.
pub fn compression_exempt(is_child: bool, skip_child: bool) -> (res: bool)
    ensures
        res == (is_child && skip_child),
{
    is_child && skip_child
}

/// What is said of a provider that is not registered.
pub const PROVIDER_NOT_REGISTERED: &'static str = "Provider 实例未注册";

/// The model that writes the summary, or why there is none. It is the model of the
/// conversation, on the same provider, since only then does the provider know the
/// conversation already.
pub open spec fn compression_model(
    model: Result<ResolvedModelView, Seq<char>>,
    registered: bool,
) -> Result<ResolvedModelView, Seq<char>> {
    match model {
        Err(cause) => Err(cause),
        Ok(m) => if registered {
            Ok(m)
        } else {
            Err(PROVIDER_NOT_REGISTERED@)
        },
    }
}

/// Finds the model that writes the summary.
pub fn resolve_compression_model(model: Result<ResolvedModel, String>, registered: bool) -> (res:
    Result<ResolvedModel, String>)
    ensures
        resolution_view(res) == compression_model(resolution_view(model), registered),
{
    match model {
        Err(cause) => Err(cause),
        Ok(m) => if registered {
            Ok(m)
        } else {
            Err(PROVIDER_NOT_REGISTERED.to_owned())
        },
    }
}

/// The compression that a turn would begin with if the prompt has grown too long,
/// and the context limit to hold the prompt against. There is none for a session
/// that is spared, before the first reply, without a model, or where the limit is
/// not known.
pub open spec fn pre_turn_job(
    is_child: bool,
    skip_child: bool,
    last_usage: Option<StreamUsage>,
    model: Result<ResolvedModelView, Seq<char>>,
) -> Option<(CompressionJobView, u32)> {
    if is_child && skip_child {
        None
    } else {
        match (last_usage, model) {
            (Some(usage), Ok(m)) => match m.context_length {
                Some(limit) => Some(
                    (
                        CompressionJobView {
                            reason: CompressionReason::Auto,
                            prompt_tokens: usage.prompt_tokens,
                            model: m,
                            note: None,
                            is_child,
                        },
                        limit,
                    ),
                ),
                None => None,
            },
            _ => None,
        }
    }
}

/// The check before a turn: the compression to carry out if the prompt has grown
/// too long for the context limit that comes with it.
pub fn check_before_turn(
    is_child: bool,
    skip_child: bool,
    last_usage: Option<StreamUsage>,
    model: Result<ResolvedModel, String>,
) -> (res: Option<(CompressionJob, u32)>)
    ensures
        match res {
            Some((job, limit)) => Some((job@, limit)),
            None => None,
        } == pre_turn_job(is_child, skip_child, last_usage, resolution_view(model)),
{
    if compression_exempt(is_child, skip_child) {
        return None;
    }
    let usage = match last_usage {
        Some(usage) => usage,
        None => {
            return None;
        },
    };
    let m = match model {
        Ok(m) => m,
        Err(_) => {
            return None;
        },
    };
    match m.context_length {
        Some(limit) => Some(
            (
                CompressionJob {
                    reason: CompressionReason::Auto,
                    prompt_tokens: usage.prompt_tokens,
                    model: m,
                    note: None,
                    is_child,
                },
                limit,
            ),
        ),
        None => None,
    }
}

/// The notice that a compression has failed.
pub open spec fn failed_notice(reason: CompressionReason, cause: Seq<char>) -> OutgoingView {
    OutgoingView::Notice(
        OutputEventView::Compression(
            unsent(
                CompressionPayloadView::Failed(CompressionFailedPayloadView { reason, cause }),
            ),
        ),
    )
}

/// Makes the notice that a compression has failed.
fn make_failed_notice(reason: CompressionReason, cause: String) -> (res: Outgoing)
    ensures
        res@ == failed_notice(reason, cause@),
{
    Outgoing::Notice(
        OutputEvent::Compression(
            envelope(CompressionPayload::Failed(CompressionFailedPayload { reason, cause })),
        ),
    )
}

/// What a command to compress comes to: a compression, whatever the size of the
/// prompt and whoever the session belongs to; or, without a model, the notice that
/// it has failed.
pub open spec fn manual_job(
    is_child: bool,
    last_usage: Option<StreamUsage>,
    model: Result<ResolvedModelView, Seq<char>>,
    note: Option<Seq<char>>,
) -> Result<CompressionJobView, OutgoingView> {
    match model {
        Err(cause) => Err(failed_notice(CompressionReason::Manual, cause)),
        Ok(m) => Ok(
            CompressionJobView {
                reason: CompressionReason::Manual,
                prompt_tokens: match last_usage {
                    Some(usage) => usage.prompt_tokens,
                    None => 0,
                },
                model: m,
                note,
                is_child,
            },
        ),
    }
}

/// Decides what a command to compress comes to.
pub fn on_compress_command(
    is_child: bool,
    last_usage: Option<StreamUsage>,
    model: Result<ResolvedModel, String>,
    note: Option<String>,
) -> (res: Result<CompressionJob, Outgoing>)
    ensures
        match res {
            Ok(job) => Ok(job@),
            Err(notice) => Err(notice@),
        } == manual_job(is_child, last_usage, resolution_view(model), note.deep_view()),
{
    match model {
        Err(cause) => Err(make_failed_notice(CompressionReason::Manual, cause)),
        Ok(m) => Ok(
            CompressionJob {
                reason: CompressionReason::Manual,
                prompt_tokens: match last_usage {
                    Some(usage) => usage.prompt_tokens,
                    None => 0,
                },
                model: m,
                note,
                is_child,
            },
        ),
    }
}

/// A command compresses where the check before a turn would not: without a reply
/// so far, for any session, and without a known limit.
pub proof fn law_command_overrides_the_check(
    is_child: bool,
    skip_child: bool,
    last_usage: Option<StreamUsage>,
    model: ResolvedModelView,
    note: Option<Seq<char>>,
)
    ensures
        manual_job(is_child, last_usage, Ok(model), note) is Ok,
        manual_job(is_child, last_usage, Ok(model), note)->Ok_0.note == note,
        match pre_turn_job(is_child, skip_child, last_usage, Ok(model)) {
            Some((job, _)) => job.note is None && job.reason == CompressionReason::Auto,
            None => true,
        },
{
}

// ---- how to compress ----

/// Where a compression stands.
pub enum CompressionStage {
    /// The history is being read.
    Loading,
    /// The summary is being written.
    Summarizing,
    /// The summary is being stored.
    Marking(Summary),
    /// It is over.
    Over,
}

/// The mathematical value of a [`CompressionStage`].
#[verifier::ext_equal]
pub enum CompressionStageView {
    Loading,
    Summarizing,
    Marking(SummaryView),
    Over,
}

impl View for CompressionStage {
    type V = CompressionStageView;

    open spec fn view(&self) -> CompressionStageView {
        match self {
            CompressionStage::Loading => CompressionStageView::Loading,
            CompressionStage::Summarizing => CompressionStageView::Summarizing,
            CompressionStage::Marking(x) => CompressionStageView::Marking(x@),
            CompressionStage::Over => CompressionStageView::Over,
        }
    }
}

/// A compression.
pub struct CompressionRun {
    pub job: CompressionJob,
    pub stage: CompressionStage,
}

/// The mathematical value of a [`CompressionRun`].
#[verifier::ext_equal]
pub struct CompressionRunView {
    pub job: CompressionJobView,
    pub stage: CompressionStageView,
}

impl View for CompressionRun {
    type V = CompressionRunView;

    open spec fn view(&self) -> CompressionRunView {
        CompressionRunView { job: self.job@, stage: self.stage@ }
    }
}

/// The notice that a compression begins.
pub open spec fn started_notice(job: CompressionJobView) -> OutgoingView {
    OutgoingView::Notice(
        OutputEventView::Compression(
            unsent(
                CompressionPayloadView::Started(
                    CompressionStartedPayloadView {
                        reason: job.reason,
                        prompt_tokens: job.prompt_tokens,
                        context_length: match job.model.context_length {
                            Some(n) => n,
                            None => 0,
                        },
                    },
                ),
            ),
        ),
    )
}

/// The notice that a compression is done. It stands where the summary stands.
pub open spec fn ended_notice(
    reason: CompressionReason,
    summary: SummaryView,
    new_seq: i64,
) -> OutgoingView {
    OutgoingView::Notice(
        OutputEventView::Compression(
            EnvelopeView {
                base: EventBaseView { seq: Some(new_seq), ..blank_base() },
                payload: CompressionPayloadView::Ended(
                    CompressionEndedPayloadView {
                        reason,
                        content: summary.content,
                        reasoning: summary.reasoning,
                        new_seq,
                    },
                ),
            },
        ),
    )
}

/// The notice of a piece of the summary.
pub open spec fn delta_notice(delta: CompressionDeltaPayloadView) -> OutgoingView {
    OutgoingView::Notice(
        OutputEventView::Compression(unsent(CompressionPayloadView::Delta(delta))),
    )
}

/// The call for a summary: the conversation as it is, without any tools.
pub open spec fn summary_request(
    job: CompressionJobView,
    history: LoadedHistoryView,
) -> SummaryRequestView {
    SummaryRequestView {
        history,
        model: job.model.model,
        note: job.note,
        options: StreamOptionsView {
            tools: None,
            thinking_type: job.model.options.thinking_type,
            reasoning_effort: job.model.options.reasoning_effort,
        },
    }
}

/// What the system prompt of a session is written for.
pub open spec fn prompt_usage(is_child: bool) -> PromptUsage {
    if is_child {
        PromptUsage::Subagent
    } else {
        PromptUsage::Primary
    }
}

/// What the system prompt of a session is written for.
pub fn usage_for(is_child: bool) -> (res: PromptUsage)
    ensures
        res == prompt_usage(is_child),
{
    if is_child {
        PromptUsage::Subagent
    } else {
        PromptUsage::Primary
    }
}

/// How a compression begins.
pub open spec fn compression_start(job: CompressionJobView) -> (
    CompressionRunView,
    Seq<CompressionActionView>,
) {
    (
        CompressionRunView { job, stage: CompressionStageView::Loading },
        seq![
            CompressionActionView::Send(started_notice(job)),
            CompressionActionView::Load,
        ],
    )
}

/// How a compression fails.
pub open spec fn compression_failed(c: CompressionRunView, cause: Seq<char>) -> (
    CompressionRunView,
    Seq<CompressionActionView>,
) {
    (
        CompressionRunView { stage: CompressionStageView::Over, ..c },
        seq![CompressionActionView::Send(failed_notice(c.job.reason, cause))],
    )
}

/// What a compression comes to, given what happened.
pub open spec fn compression_step(c: CompressionRunView, e: CompressionEventView) -> (
    CompressionRunView,
    Seq<CompressionActionView>,
) {
    match (e, c.stage) {
        (CompressionEventView::Loaded(history), CompressionStageView::Loading) => (
            CompressionRunView { stage: CompressionStageView::Summarizing, ..c },
            seq![CompressionActionView::Summarize(summary_request(c.job, history))],
        ),
        (
            CompressionEventView::LoadFailed(cause),
            CompressionStageView::Loading,
        ) => compression_failed(c, cause),
        (CompressionEventView::Delta(delta), CompressionStageView::Summarizing) => (
            c,
            seq![CompressionActionView::Send(delta_notice(delta))],
        ),
        (CompressionEventView::Summarized(summary), CompressionStageView::Summarizing) => (
            CompressionRunView { stage: CompressionStageView::Marking(summary), ..c },
            seq![CompressionActionView::Mark(summary.content)],
        ),
        (
            CompressionEventView::SummaryFailed(cause),
            CompressionStageView::Summarizing,
        ) => compression_failed(c, cause),
        (CompressionEventView::Marked(seq), CompressionStageView::Marking(summary)) => (
            CompressionRunView { stage: CompressionStageView::Over, ..c },
            seq![
                CompressionActionView::RebuildPrompt(prompt_usage(c.job.is_child)),
                CompressionActionView::Send(ended_notice(c.job.reason, summary, seq)),
            ],
        ),
        (
            CompressionEventView::MarkFailed(cause),
            CompressionStageView::Marking(summary),
        ) => compression_failed(c, cause),
        _ => (c, Seq::empty()),
    }
}

impl CompressionRun {
    /// Begins a compression.
    pub fn begin(job: CompressionJob) -> (res: (CompressionRun, Vec<CompressionAction>))
        ensures
            (res.0@, res.1.deep_view()) == compression_start(job@),
    {
        let mut actions: Vec<CompressionAction> = empty_list();
        let payload = CompressionStartedPayload {
            reason: job.reason,
            prompt_tokens: job.prompt_tokens,
            context_length: match job.model.context_length {
                Some(n) => n,
                None => 0,
            },
        };
        push_item(
            &mut actions,
            CompressionAction::Send(
                Outgoing::Notice(
                    OutputEvent::Compression(envelope(CompressionPayload::Started(payload))),
                ),
            ),
        );
        push_item(&mut actions, CompressionAction::Load);
        assert(actions.deep_view() =~= compression_start(job@).1);
        (CompressionRun { job, stage: CompressionStage::Loading }, actions)
    }

    /// Fails.
    fn fail(&mut self, cause: String) -> (res: Vec<CompressionAction>)
        ensures
            (final(self)@, res.deep_view()) == compression_failed(old(self)@, cause@),
    {
        let mut actions: Vec<CompressionAction> = empty_list();
        let ghost cause_view = cause@;
        self.stage = CompressionStage::Over;
        push_item(
            &mut actions,
            CompressionAction::Send(make_failed_notice(self.job.reason, cause)),
        );
        assert(actions.deep_view() =~= seq![
            CompressionActionView::Send(failed_notice(self.job.reason, cause_view)),
        ]);
        actions
    }

    /// The call for a summary.
    fn request(&self, history: LoadedHistory) -> (res: SummaryRequest)
        ensures
            res@ == summary_request(self@.job, history@),
    {
        SummaryRequest {
            history,
            model: self.job.model.model.dup(),
            note: self.job.note.dup(),
            options: StreamOptions {
                tools: None,
                thinking_type: self.job.model.options.thinking_type,
                reasoning_effort: self.job.model.options.reasoning_effort.dup(),
            },
        }
    }

    /// Tells a compression what happened. Returns what it asks for, in order.
    pub fn step(&mut self, event: CompressionEvent) -> (res: Vec<CompressionAction>)
        ensures
            (final(self)@, res.deep_view()) == compression_step(old(self)@, event@),
    {
        let ghost c = self@;
        let ghost e = event@;
        let mut actions: Vec<CompressionAction> = empty_list();
        match event {
            CompressionEvent::Loaded(history) => {
                if let CompressionStage::Loading = self.stage {
                    let request = self.request(history);
                    self.stage = CompressionStage::Summarizing;
                    push_item(&mut actions, CompressionAction::Summarize(request));
                }
            },
            CompressionEvent::LoadFailed(cause) => {
                if let CompressionStage::Loading = self.stage {
                    return self.fail(cause);
                }
            },
            CompressionEvent::Delta(delta) => {
                if let CompressionStage::Summarizing = self.stage {
                    push_item(
                        &mut actions,
                        CompressionAction::Send(
                            Outgoing::Notice(
                                OutputEvent::Compression(
                                    envelope(CompressionPayload::Delta(delta)),
                                ),
                            ),
                        ),
                    );
                }
            },
            CompressionEvent::Summarized(summary) => {
                if let CompressionStage::Summarizing = self.stage {
                    push_item(&mut actions, CompressionAction::Mark(summary.content.dup()));
                    self.stage = CompressionStage::Marking(summary);
                }
            },
            CompressionEvent::SummaryFailed(cause) => {
                if let CompressionStage::Summarizing = self.stage {
                    return self.fail(cause);
                }
            },
            CompressionEvent::Marked(seq) => {
                if let CompressionStage::Marking(summary) = &self.stage {
                    let mut ended = envelope(
                        CompressionPayload::Ended(
                            CompressionEndedPayload {
                                reason: self.job.reason,
                                content: summary.content.dup(),
                                reasoning: summary.reasoning.dup(),
                                new_seq: seq,
                            },
                        ),
                    );
                    ended.base.seq = Some(seq);
                    push_item(
                        &mut actions,
                        CompressionAction::RebuildPrompt(usage_for(self.job.is_child)),
                    );
                    push_item(
                        &mut actions,
                        CompressionAction::Send(Outgoing::Notice(OutputEvent::Compression(ended))),
                    );
                    self.stage = CompressionStage::Over;
                }
            },
            CompressionEvent::MarkFailed(cause) => {
                if let CompressionStage::Marking(_) = &self.stage {
                    return self.fail(cause);
                }
            },
        }
        assert(actions.deep_view() =~= compression_step(c, e).1);
        actions
    }
}

// ---- laws ----

/// Whether an action says how a compression ended.
pub open spec fn is_verdict(a: CompressionActionView) -> bool {
    a is Send && a->Send_0 is Notice && a->Send_0->Notice_0 is Compression && (
    a->Send_0->Notice_0->Compression_0.payload is Ended
        || a->Send_0->Notice_0->Compression_0.payload is Failed)
}

/// How often a row of actions says how a compression ended.
pub open spec fn verdicts(actions: Seq<CompressionActionView>) -> nat
    decreases actions.len(),
{
    if actions.len() == 0 {
        0
    } else {
        verdicts(actions.drop_last()) + if is_verdict(actions.last()) {
            1nat
        } else {
            0nat
        }
    }
}

proof fn lemma_verdicts_add(a: Seq<CompressionActionView>, b: Seq<CompressionActionView>)
    ensures
        verdicts(a + b) == verdicts(a) + verdicts(b),
    decreases b.len(),
{
    if b.len() == 0 {
        assert(a + b =~= a);
    } else {
        assert((a + b).drop_last() =~= a + b.drop_last());
        lemma_verdicts_add(a, b.drop_last());
    }
}

/// Where a compression stands after a row of events, and all that it asked for.
pub open spec fn compression_run(job: CompressionJobView, events: Seq<CompressionEventView>) -> (
    CompressionRunView,
    Seq<CompressionActionView>,
)
    decreases events.len(),
{
    if events.len() == 0 {
        compression_start(job)
    } else {
        let (c, actions) = compression_run(job, events.drop_last());
        let (n, more) = compression_step(c, events.last());
        (n, actions + more)
    }
}

/// A compression begins by saying so, and says once how it ended, exactly if it is
/// over: nobody is left waiting, and nobody is told twice.
pub proof fn law_every_compression_has_one_verdict(
    job: CompressionJobView,
    events: Seq<CompressionEventView>,
)
    ensures
        ({
            let (c, actions) = compression_run(job, events);
            &&& actions.len() > 0
            &&& actions[0] == CompressionActionView::Send(started_notice(job))
            &&& verdicts(actions) == if c.stage is Over {
                1nat
            } else {
                0nat
            }
            &&& c.job == job
        }),
    decreases events.len(),
{
    reveal_with_fuel(verdicts, 3);
    if events.len() > 0 {
        law_every_compression_has_one_verdict(job, events.drop_last());
        let (c, actions) = compression_run(job, events.drop_last());
        let (n, more) = compression_step(c, events.last());
        lemma_verdicts_add(actions, more);
        if more.len() > 0 {
            assert(more.drop_last().len() <= 1);
        }
    }
}

/// A summary is stored only once it is complete, and nothing is stored by a
/// compression that fails before that.
pub proof fn law_only_a_summary_is_stored(c: CompressionRunView, e: CompressionEventView, i: int)
    requires
        0 <= i < compression_step(c, e).1.len(),
        compression_step(c, e).1[i] is Mark,
    ensures
        c.stage is Summarizing,
        e is Summarized,
        compression_step(c, e).1[i]->Mark_0 == e->Summarized_0.content,
{
}

/// What is announced at the end is what was stored, and the announcement stands at
/// the place where it was stored.
pub proof fn law_the_end_announces_what_was_stored(
    c: CompressionRunView,
    summary: SummaryView,
    seq: i64,
)
    requires
        c.stage is Summarizing,
    ensures
        ({
            let (n, marked) = compression_step(c, CompressionEventView::Summarized(summary));
            let (m, ended) = compression_step(n, CompressionEventView::Marked(seq));
            let event = ended[1]->Send_0->Notice_0;
            &&& marked == seq![CompressionActionView::Mark(summary.content)]
            &&& ended[1] == CompressionActionView::Send(ended_notice(c.job.reason, summary, seq))
            &&& event.base().seq == Some(seq)
            &&& event->Compression_0.payload->Ended_0.new_seq == seq
            &&& event->Compression_0.payload->Ended_0.content == summary.content
            &&& m.stage is Over
        }),
{
}

/// The model that writes the summary is asked for by its own name, without the
/// provider, and is offered no tools.
pub proof fn law_summary_goes_to_the_bare_model(
    job: CompressionJobView,
    history: LoadedHistoryView,
)
    ensures
        summary_request(job, history).model == job.model.model,
        summary_request(job, history).options.tools is None,
        summary_request(job, history).note == job.note,
{
}

/// The compression notice that an action sends, if it sends one.
pub open spec fn told(a: CompressionActionView) -> Option<CompressionPayloadView> {
    match a {
        CompressionActionView::Send(OutgoingView::Notice(OutputEventView::Compression(m))) => Some(
            m.payload,
        ),
        _ => None,
    }
}

/// A compression begins by telling its reason and the numbers it goes by, and then reads
/// the history.
pub proof fn law_a_compression_tells_why_it_begins(job: CompressionJobView)
    ensures
        ({
            let (c, actions) = compression_start(job);
            let started = told(actions[0])->0->Started_0;
            &&& actions.len() == 2
            &&& told(actions[0]) is Some
            &&& told(actions[0])->0 is Started
            &&& started.reason == job.reason
            &&& started.prompt_tokens == job.prompt_tokens
            &&& job.model.context_length is Some ==> started.context_length
                == job.model.context_length->0
            &&& job.model.context_length is None ==> started.context_length == 0
            &&& actions[1] is Load
            &&& c.stage is Loading
            &&& c.job == job
        }),
{
}

/// The summary is asked for over all that was loaded: every message in order and
/// unchanged, and the system prompt. It goes to the model of the conversation, with the
/// same way of thinking and the note of the command, and without tools.
pub proof fn law_the_whole_history_is_summarized(c: CompressionRunView, history: LoadedHistoryView)
    requires
        c.stage is Loading,
    ensures
        ({
            let (n, actions) = compression_step(c, CompressionEventView::Loaded(history));
            let request = actions[0]->Summarize_0;
            &&& actions.len() == 1
            &&& actions[0] is Summarize
            &&& request.history.messages == history.messages
            &&& request.history.system == history.system
            &&& request.model == c.job.model.model
            &&& request.note == c.job.note
            &&& request.options.tools is None
            &&& request.options.thinking_type == c.job.model.options.thinking_type
            &&& request.options.reasoning_effort == c.job.model.options.reasoning_effort
            &&& n.stage is Summarizing
            &&& n.job == c.job
        }),
{
}

/// While the summary is written, each piece is shown as it comes. Then exactly the text
/// of the summary is stored, the system prompt is written anew for the kind of session
/// this is, and the end is told: why, what was stored, what the model thought, and where
/// it stands.
pub proof fn law_the_summary_is_stored_and_told(
    c: CompressionRunView,
    delta: CompressionDeltaPayloadView,
    summary: SummaryView,
    seq: i64,
)
    requires
        c.stage is Summarizing,
    ensures
        ({
            let (d, shown) = compression_step(c, CompressionEventView::Delta(delta));
            let (n, marked) = compression_step(d, CompressionEventView::Summarized(summary));
            let (m, ended) = compression_step(n, CompressionEventView::Marked(seq));
            let end = told(ended[1])->0->Ended_0;
            &&& d == c
            &&& shown.len() == 1
            &&& told(shown[0]) == Some(CompressionPayloadView::Delta(delta))
            &&& marked.len() == 1
            &&& marked[0] is Mark
            &&& marked[0]->Mark_0 == summary.content
            &&& ended.len() == 2
            &&& ended[0] is RebuildPrompt
            &&& ended[0]->RebuildPrompt_0 == if c.job.is_child {
                PromptUsage::Subagent
            } else {
                PromptUsage::Primary
            }
            &&& told(ended[1]) is Some
            &&& told(ended[1])->0 is Ended
            &&& end.reason == c.job.reason
            &&& end.content == summary.content
            &&& end.reasoning == summary.reasoning
            &&& end.new_seq == seq
            &&& ended[1]->Send_0->Notice_0->Compression_0.base.seq == Some(seq)
            &&& m.stage is Over
        }),
{
}

/// A compression that fails, at whatever point, tells its reason and the cause, and
/// does nothing more.
pub proof fn law_a_failed_compression_tells_the_cause(
    c: CompressionRunView,
    e: CompressionEventView,
    cause: Seq<char>,
    later: CompressionEventView,
)
    requires
        ({
            ||| c.stage is Loading && e == CompressionEventView::LoadFailed(cause)
            ||| c.stage is Summarizing && e == CompressionEventView::SummaryFailed(cause)
            ||| c.stage is Marking && e == CompressionEventView::MarkFailed(cause)
        }),
    ensures
        ({
            let (n, actions) = compression_step(c, e);
            &&& actions.len() == 1
            &&& told(actions[0]) is Some
            &&& told(actions[0])->0 is Failed
            &&& told(actions[0])->0->Failed_0.reason == c.job.reason
            &&& told(actions[0])->0->Failed_0.cause == cause
            &&& n.stage is Over
            &&& compression_step(n, later).1.len() == 0
        }),
{
}

/// The check before a turn comes to a compression exactly if the session is not spared,
/// there has been a reply, and its model and the model's context limit are known. It is
/// then measured by what the last prompt took, and is that of the session's own model.
pub proof fn law_when_the_check_compresses(
    is_child: bool,
    skip_child: bool,
    last_usage: Option<StreamUsage>,
    model: Result<ResolvedModelView, Seq<char>>,
)
    ensures
        pre_turn_job(is_child, skip_child, last_usage, model) is Some <==> !(is_child && skip_child)
            && last_usage is Some && model is Ok && model->Ok_0.context_length is Some,
        match pre_turn_job(is_child, skip_child, last_usage, model) {
            Some((job, limit)) => {
                &&& job.reason == CompressionReason::Auto
                &&& job.prompt_tokens == last_usage->0.prompt_tokens
                &&& job.model == model->Ok_0
                &&& job.note is None
                &&& job.is_child == is_child
                &&& Some(limit) == model->Ok_0.context_length
            },
            None => true,
        },
{
}

/// A command compresses whenever the model is known, with the note it came with;
/// without a model it tells that it failed, and why.
pub proof fn law_what_a_command_comes_to(
    is_child: bool,
    last_usage: Option<StreamUsage>,
    model: Result<ResolvedModelView, Seq<char>>,
    note: Option<Seq<char>>,
)
    ensures
        match manual_job(is_child, last_usage, model, note) {
            Ok(job) => {
                &&& model is Ok
                &&& job.reason == CompressionReason::Manual
                &&& job.model == model->Ok_0
                &&& job.note == note
                &&& job.is_child == is_child
                &&& last_usage is Some ==> job.prompt_tokens == last_usage->0.prompt_tokens
                &&& last_usage is None ==> job.prompt_tokens == 0
            },
            Err(notice) => {
                let failed = told(CompressionActionView::Send(notice));
                &&& model is Err
                &&& failed is Some
                &&& failed->0 is Failed
                &&& failed->0->Failed_0.reason == CompressionReason::Manual
                &&& failed->0->Failed_0.cause == model->Err_0
            },
        },
{
}

/// The summary is written by the model of the conversation where its provider is
/// registered, and by none otherwise.
pub proof fn law_who_writes_the_summary(
    model: Result<ResolvedModelView, Seq<char>>,
    registered: bool,
)
    ensures
        compression_model(model, registered) is Ok <==> model is Ok && registered,
        model is Ok && registered ==> compression_model(model, registered)->Ok_0 == model->Ok_0,
        model is Err ==> compression_model(model, registered)->Err_0 == model->Err_0,
        model is Ok && !registered ==> compression_model(model, registered)->Err_0
            == "Provider 实例未注册"@,
{
}

} // verus!
