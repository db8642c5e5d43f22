//! The engine: which sessions there are, and what may be asked of them.
//!
//! An engine runs many sessions side by side. It keeps a table of those it runs and
//! decides what becomes of each request; reading and writing the store, loading
//! definitions and running the sessions is up to whoever drives it.
use crate::chat::{ModelConfig, ModelConfigView};
use crate::compression::{prompt_usage, usage_for, PromptUsage};
use crate::emit::{envelope, unsent};
use crate::error::{EngineError, EngineErrorView};
use crate::input::{InputEvent, InputEventView};
use crate::message::{
    ControlPayload, ControlPayloadView, Envelope, EnvelopeView, InterruptMessage,
    InterruptMessageView, InterruptPayload, InterruptPayloadView, InterruptSource, QueueEntry,
    QueueEntryView, UserPayload, UserPayloadView,
};
use crate::model::Dup;
use crate::provider_ops::{
    reload_error, reloaded, skipped, DiskProvider, ProviderTable, ProviderTableView,
};
use crate::queue::{remove_queued, without, Queues};
use crate::session::TurnPhase;
use crate::text::concat;
use vstd::hash_map::StringHashMap;
use vstd::prelude::*;

verus! {

/// How long a session gets to come to rest, in seconds.
pub const STOP_TURN_TIMEOUT_SECS: u64 = 10;

/// How long the task of a session gets to end, in seconds.
pub const SHUTDOWN_TASK_TIMEOUT_SECS: u64 = 10;

/// Who the agent of a session is.
#[derive(Debug)]
pub struct AgentConfig {
    /// The name of its definition.
    pub definition: String,
}

/// The mathematical value of a [`AgentConfig`].
#[verifier::ext_equal]
pub struct AgentConfigView {
    pub definition: Seq<char>,
}

impl View for AgentConfig {
    type V = AgentConfigView;

    open spec fn view(&self) -> AgentConfigView {
        AgentConfigView {
            definition: self.definition@,
        }
    }
}

impl DeepView for AgentConfig {
    type V = AgentConfigView;

    open spec fn deep_view(&self) -> AgentConfigView {
        self@
    }
}

impl Dup for AgentConfig {
    fn dup(&self) -> (res: Self) {
        AgentConfig {
            definition: self.definition.dup(),
        }
    }
}

/// What a session is run with.
#[derive(Debug)]
pub struct SessionParams {
    pub agent_config: AgentConfig,
    pub model_config: ModelConfig,
}

/// The mathematical value of a [`SessionParams`].
#[verifier::ext_equal]
pub struct SessionParamsView {
    pub agent_config: AgentConfigView,
    pub model_config: ModelConfigView,
}

impl View for SessionParams {
    type V = SessionParamsView;

    open spec fn view(&self) -> SessionParamsView {
        SessionParamsView {
            agent_config: self.agent_config@,
            model_config: self.model_config@,
        }
    }
}

impl DeepView for SessionParams {
    type V = SessionParamsView;

    open spec fn deep_view(&self) -> SessionParamsView {
        self@
    }
}

impl Dup for SessionParams {
    fn dup(&self) -> (res: Self) {
        SessionParams {
            agent_config: self.agent_config.dup(),
            model_config: self.model_config.dup(),
        }
    }
}

/// A session that the engine runs.
#[derive(Debug)]
pub struct SessionRecord {
    pub params: SessionParams,
    /// Whether it is a task of another session.
    pub is_child: bool,
}

/// The mathematical value of a [`SessionRecord`].
#[verifier::ext_equal]
pub struct SessionRecordView {
    pub params: SessionParamsView,
    pub is_child: bool,
}

impl View for SessionRecord {
    type V = SessionRecordView;

    open spec fn view(&self) -> SessionRecordView {
        SessionRecordView {
            params: self.params@,
            is_child: self.is_child,
        }
    }
}

impl DeepView for SessionRecord {
    type V = SessionRecordView;

    open spec fn deep_view(&self) -> SessionRecordView {
        self@
    }
}

impl Dup for SessionRecord {
    fn dup(&self) -> (res: Self) {
        SessionRecord {
            params: self.params.dup(),
            is_child: self.is_child,
        }
    }
}

/// What a task of another session begins with.
#[derive(Debug)]
pub enum ChildSessionSource {
    /// Nothing.
    Fresh,
    /// What the model sees of another session.
    Fork(String),
}

/// The mathematical value of a [`ChildSessionSource`].
#[verifier::ext_equal]
pub enum ChildSessionSourceView {
    Fresh,
    Fork(Seq<char>),
}

impl View for ChildSessionSource {
    type V = ChildSessionSourceView;

    open spec fn view(&self) -> ChildSessionSourceView {
        match self {
            ChildSessionSource::Fresh => ChildSessionSourceView::Fresh,
            ChildSessionSource::Fork(x) => ChildSessionSourceView::Fork(x@),
        }
    }
}

impl DeepView for ChildSessionSource {
    type V = ChildSessionSourceView;

    open spec fn deep_view(&self) -> ChildSessionSourceView {
        self@
    }
}

impl Dup for ChildSessionSource {
    fn dup(&self) -> (res: Self) {
        match self {
            ChildSessionSource::Fresh => ChildSessionSource::Fresh,
            ChildSessionSource::Fork(x) => ChildSessionSource::Fork(x.dup()),
        }
    }
}

/// A session that is to be copied.
#[derive(Debug)]
pub struct ForkRequest {
    /// The session to copy.
    pub source_id: String,
    /// The session that the copy is a task of.
    pub parent_id: String,
}

/// The mathematical value of a [`ForkRequest`].
#[verifier::ext_equal]
pub struct ForkRequestView {
    pub source_id: Seq<char>,
    pub parent_id: Seq<char>,
}

impl View for ForkRequest {
    type V = ForkRequestView;

    open spec fn view(&self) -> ForkRequestView {
        ForkRequestView {
            source_id: self.source_id@,
            parent_id: self.parent_id@,
        }
    }
}

impl DeepView for ForkRequest {
    type V = ForkRequestView;

    open spec fn deep_view(&self) -> ForkRequestView {
        self@
    }
}

impl Dup for ForkRequest {
    fn dup(&self) -> (res: Self) {
        ForkRequest {
            source_id: self.source_id.dup(),
            parent_id: self.parent_id.dup(),
        }
    }
}

/// What the store has to do for a session that is being opened.
#[derive(Debug)]
pub enum OpeningStore {
    /// Create a session, with this parent.
    Create(Option<String>),
    /// Copy a session.
    Fork(ForkRequest),
    /// Nothing: the session is there already.
    Keep(String),
}

/// The mathematical value of a [`OpeningStore`].
#[verifier::ext_equal]
pub enum OpeningStoreView {
    Create(Option<Seq<char>>),
    Fork(ForkRequestView),
    Keep(Seq<char>),
}

impl View for OpeningStore {
    type V = OpeningStoreView;

    open spec fn view(&self) -> OpeningStoreView {
        match self {
            OpeningStore::Create(x) => OpeningStoreView::Create(x.deep_view()),
            OpeningStore::Fork(x) => OpeningStoreView::Fork(x@),
            OpeningStore::Keep(x) => OpeningStoreView::Keep(x@),
        }
    }
}

impl DeepView for OpeningStore {
    type V = OpeningStoreView;

    open spec fn deep_view(&self) -> OpeningStoreView {
        self@
    }
}

impl Dup for OpeningStore {
    fn dup(&self) -> (res: Self) {
        match self {
            OpeningStore::Create(x) => OpeningStore::Create(x.dup()),
            OpeningStore::Fork(x) => OpeningStore::Fork(x.dup()),
            OpeningStore::Keep(x) => OpeningStore::Keep(x.dup()),
        }
    }
}

/// A session that is being opened.
#[derive(Debug)]
pub struct Opening {
    pub store: OpeningStore,
    pub params: SessionParams,
    /// What the system prompt is written for.
    pub usage: PromptUsage,
}

/// The mathematical value of a [`Opening`].
#[verifier::ext_equal]
pub struct OpeningView {
    pub store: OpeningStoreView,
    pub params: SessionParamsView,
    pub usage: PromptUsage,
}

impl View for Opening {
    type V = OpeningView;

    open spec fn view(&self) -> OpeningView {
        OpeningView {
            store: self.store@,
            params: self.params@,
            usage: self.usage,
        }
    }
}

impl DeepView for Opening {
    type V = OpeningView;

    open spec fn deep_view(&self) -> OpeningView {
        self@
    }
}

impl Dup for Opening {
    fn dup(&self) -> (res: Self) {
        Opening {
            store: self.store.dup(),
            params: self.params.dup(),
            usage: self.usage,
        }
    }
}

/// Why the store could not do what it was asked for.
#[derive(Debug)]
pub enum StoreFailure {
    /// There is no such session; in the words of the store.
    NotFound(String),
    /// Anything else, in the words of the store.
    Other(String),
}

/// The mathematical value of a [`StoreFailure`].
#[verifier::ext_equal]
pub enum StoreFailureView {
    NotFound(Seq<char>),
    Other(Seq<char>),
}

impl View for StoreFailure {
    type V = StoreFailureView;

    open spec fn view(&self) -> StoreFailureView {
        match self {
            StoreFailure::NotFound(x) => StoreFailureView::NotFound(x@),
            StoreFailure::Other(x) => StoreFailureView::Other(x@),
        }
    }
}

impl DeepView for StoreFailure {
    type V = StoreFailureView;

    open spec fn deep_view(&self) -> StoreFailureView {
        self@
    }
}

impl Dup for StoreFailure {
    fn dup(&self) -> (res: Self) {
        match self {
            StoreFailure::NotFound(x) => StoreFailure::NotFound(x.dup()),
            StoreFailure::Other(x) => StoreFailure::Other(x.dup()),
        }
    }
}

/// Where something that came in goes.
#[derive(Debug)]
pub enum Delivery {
    /// To the session, as an entry.
    Inbound(QueueEntry),
    /// To whatever the session is doing.
    Interrupt(InterruptMessage),
}

/// The mathematical value of a [`Delivery`].
#[verifier::ext_equal]
pub enum DeliveryView {
    Inbound(QueueEntryView),
    Interrupt(InterruptMessageView),
}

impl View for Delivery {
    type V = DeliveryView;

    open spec fn view(&self) -> DeliveryView {
        match self {
            Delivery::Inbound(x) => DeliveryView::Inbound(x@),
            Delivery::Interrupt(x) => DeliveryView::Interrupt(x@),
        }
    }
}

impl DeepView for Delivery {
    type V = DeliveryView;

    open spec fn deep_view(&self) -> DeliveryView {
        self@
    }
}

impl Dup for Delivery {
    fn dup(&self) -> (res: Self) {
        match self {
            Delivery::Inbound(x) => Delivery::Inbound(x.dup()),
            Delivery::Interrupt(x) => Delivery::Interrupt(x.dup()),
        }
    }
}

/// What is done to bring a session to rest.
#[derive(Debug)]
pub enum StopStep {
    /// Nothing: it is at rest.
    Quiet,
    /// Interrupt it, and wait.
    Interrupt(InterruptMessage),
}

/// The mathematical value of a [`StopStep`].
#[verifier::ext_equal]
pub enum StopStepView {
    Quiet,
    Interrupt(InterruptMessageView),
}

impl View for StopStep {
    type V = StopStepView;

    open spec fn view(&self) -> StopStepView {
        match self {
            StopStep::Quiet => StopStepView::Quiet,
            StopStep::Interrupt(x) => StopStepView::Interrupt(x@),
        }
    }
}

impl DeepView for StopStep {
    type V = StopStepView;

    open spec fn deep_view(&self) -> StopStepView {
        self@
    }
}

impl Dup for StopStep {
    fn dup(&self) -> (res: Self) {
        match self {
            StopStep::Quiet => StopStep::Quiet,
            StopStep::Interrupt(x) => StopStep::Interrupt(x.dup()),
        }
    }
}

/// How the task of a session ended.
#[derive(Debug)]
pub enum SessionExitOutcome {
    /// By itself.
    Finished,
    /// It panicked.
    Panicked(String),
    /// It did not end in time and was aborted.
    Aborted,
}

/// The mathematical value of a [`SessionExitOutcome`].
#[verifier::ext_equal]
pub enum SessionExitOutcomeView {
    Finished,
    Panicked(Seq<char>),
    Aborted,
}

impl View for SessionExitOutcome {
    type V = SessionExitOutcomeView;

    open spec fn view(&self) -> SessionExitOutcomeView {
        match self {
            SessionExitOutcome::Finished => SessionExitOutcomeView::Finished,
            SessionExitOutcome::Panicked(x) => SessionExitOutcomeView::Panicked(x@),
            SessionExitOutcome::Aborted => SessionExitOutcomeView::Aborted,
        }
    }
}

impl DeepView for SessionExitOutcome {
    type V = SessionExitOutcomeView;

    open spec fn deep_view(&self) -> SessionExitOutcomeView {
        self@
    }
}

impl Dup for SessionExitOutcome {
    fn dup(&self) -> (res: Self) {
        match self {
            SessionExitOutcome::Finished => SessionExitOutcome::Finished,
            SessionExitOutcome::Panicked(x) => SessionExitOutcome::Panicked(x.dup()),
            SessionExitOutcome::Aborted => SessionExitOutcome::Aborted,
        }
    }
}

/// Why a task did not end by itself.
#[derive(Debug)]
pub enum JoinFailure {
    /// It panicked, with this message, if there is one.
    Panic(Option<String>),
    /// It was cancelled.
    Cancelled,
    /// Anything else.
    Other(String),
}

/// The mathematical value of a [`JoinFailure`].
#[verifier::ext_equal]
pub enum JoinFailureView {
    Panic(Option<Seq<char>>),
    Cancelled,
    Other(Seq<char>),
}

impl View for JoinFailure {
    type V = JoinFailureView;

    open spec fn view(&self) -> JoinFailureView {
        match self {
            JoinFailure::Panic(x) => JoinFailureView::Panic(x.deep_view()),
            JoinFailure::Cancelled => JoinFailureView::Cancelled,
            JoinFailure::Other(x) => JoinFailureView::Other(x@),
        }
    }
}

impl DeepView for JoinFailure {
    type V = JoinFailureView;

    open spec fn deep_view(&self) -> JoinFailureView {
        self@
    }
}

impl Dup for JoinFailure {
    fn dup(&self) -> (res: Self) {
        match self {
            JoinFailure::Panic(x) => JoinFailure::Panic(x.dup()),
            JoinFailure::Cancelled => JoinFailure::Cancelled,
            JoinFailure::Other(x) => JoinFailure::Other(x.dup()),
        }
    }
}

/// An engine.
pub struct Engine {
    closed: bool,
    sessions: StringHashMap<SessionRecord>,
    providers: ProviderTable,
}

/// The mathematical value of an [`Engine`].
#[verifier::ext_equal]
pub struct EngineView {
    /// Whether the engine has been shut down.
    pub shutdown: bool,
    /// The sessions it runs.
    pub sessions: Map<Seq<char>, SessionRecordView>,
    /// What it knows of providers.
    pub providers: ProviderTableView,
}

impl View for Engine {
    type V = EngineView;

    closed spec fn view(&self) -> EngineView {
        EngineView {
            shutdown: self.closed,
            sessions: self.sessions@.map_values(|r: SessionRecord| r@),
            providers: self.providers@,
        }
    }
}

/// The value of a result without a value of its own.
pub open spec fn outcome_view(res: Result<(), EngineError>) -> Result<(), EngineErrorView> {
    match res {
        Ok(()) => Ok(()),
        Err(e) => Err(e@),
    }
}

/// The entry that a user message or a command becomes, field by field; where an
/// interrupt goes.
pub open spec fn delivery_of(event: InputEventView) -> DeliveryView {
    match event {
        InputEventView::User(m) => DeliveryView::Inbound(
            QueueEntryView::User(
                EnvelopeView {
                    base: m.base,
                    payload: UserPayloadView {
                        content: m.payload.content,
                        images: m.payload.images,
                        mode: m.payload.mode,
                        source: m.payload.source,
                        client_message_id: m.payload.client_message_id,
                    },
                },
            ),
        ),
        InputEventView::Control(m) => DeliveryView::Inbound(
            QueueEntryView::Control(
                EnvelopeView {
                    base: m.base,
                    payload: ControlPayloadView {
                        command: m.payload.command,
                        mode: m.payload.mode,
                        client_message_id: m.payload.client_message_id,
                        note: m.payload.note,
                    },
                },
            ),
        ),
        InputEventView::Interrupt(m) => DeliveryView::Interrupt(
            unsent(InterruptPayloadView { reason: m.payload.reason, source: m.payload.source }),
        ),
    }
}

/// Turns what came in into what a session works with.
pub fn deliver_input(event: InputEvent) -> (res: Delivery)
    ensures
        res@ == delivery_of(event@),
{
    match event {
        InputEvent::User(m) => Delivery::Inbound(
            QueueEntry::User(
                Envelope {
                    base: m.base,
                    payload: UserPayload {
                        content: m.payload.content,
                        images: m.payload.images,
                        mode: m.payload.mode,
                        source: m.payload.source,
                        client_message_id: m.payload.client_message_id,
                    },
                },
            ),
        ),
        InputEvent::Control(m) => Delivery::Inbound(
            QueueEntry::Control(
                Envelope {
                    base: m.base,
                    payload: ControlPayload {
                        command: m.payload.command,
                        mode: m.payload.mode,
                        client_message_id: m.payload.client_message_id,
                        note: m.payload.note,
                    },
                },
            ),
        ),
        InputEvent::Interrupt(m) => Delivery::Interrupt(
            envelope(InterruptPayload { reason: m.payload.reason, source: m.payload.source }),
        ),
    }
}

impl EngineView {
    /// Why a request that concerns a session is refused, if it is: the engine is
    /// shut down, or there is no such session.
    pub open spec fn refusal(self, id: Seq<char>) -> Option<EngineErrorView> {
        if self.shutdown {
            Some(EngineErrorView::Shutdown)
        } else if !self.sessions.contains_key(id) {
            Some(EngineErrorView::SessionNotFound(id))
        } else {
            None
        }
    }
}

impl Engine {
    /// An engine without sessions.
    pub fn new() -> (res: Engine)
        ensures
            res@ == (EngineView {
                shutdown: false,
                sessions: Map::empty(),
                providers: ProviderTableView {
                    instances: Set::empty(),
                    configs: Set::empty(),
                    models: Set::empty(),
                },
            }),
    {
        let res = Engine {
            closed: false,
            sessions: StringHashMap::new(),
            providers: ProviderTable::new(),
        };
        assert(res@.sessions =~= Map::empty());
        res
    }

    /// Whether the engine has been shut down.
    pub fn is_shutdown(&self) -> (res: bool)
        ensures
            res == self@.shutdown,
    {
        self.closed
    }

    /// Whether the engine runs a session.
    pub fn contains(&self, id: &str) -> (res: bool)
        ensures
            res == self@.sessions.contains_key(id@),
    {
        self.sessions.contains_key(id)
    }

    /// What a session is run with.
    pub fn session_params(&self, id: &str) -> (res: Option<SessionParams>)
        ensures
            res.deep_view() == if self@.sessions.contains_key(id@) {
                Some(self@.sessions[id@].params)
            } else {
                None
            },
    {
        match self.sessions.get(id) {
            Some(record) => Some(record.params.dup()),
            None => None,
        }
    }

    /// Refuses a request that concerns a session, where it is to be refused.
    fn check_request(&self, id: &str) -> (res: Result<(), EngineError>)
        ensures
            match res {
                Ok(()) => self@.refusal(id@) is None,
                Err(e) => self@.refusal(id@) == Some(e@),
            },
    {
        if self.closed {
            return Err(EngineError::Shutdown);
        }
        if self.sessions.contains_key(id) {
            Ok(())
        } else {
            Err(EngineError::SessionNotFound(id.to_owned()))
        }
    }

    // ---- providers ----

    /// Whether sessions can use a provider, named in lower case.
    pub fn has_provider(&self, id: &str) -> (res: bool)
        ensures
            res == self@.providers.instances.contains(id@),
    {
        self.providers.instances.contains(id)
    }

    /// Brings the providers in line with the configuration on disk. Returns those
    /// that are configured but cannot be used.
    pub fn reload_providers(&mut self, config: Result<Vec<DiskProvider>, String>) -> (res: Result<
        Vec<String>,
        EngineError,
    >)
        ensures
            match config {
                Ok(disk) => res is Ok && res->Ok_0.deep_view() == skipped(disk.deep_view())
                    && final(self)@ == (EngineView {
                    providers: reloaded(old(self)@.providers, disk.deep_view()),
                    ..old(self)@
                }),
                Err(cause) => res is Err && res->Err_0@ == reload_error(cause@) && final(self)@
                    == old(self)@,
            },
    {
        self.providers.reload_providers(config)
    }

    // ---- opening sessions ----

    /// Opens a new conversation.
    pub fn create_session(&self, params: SessionParams) -> (res: Opening)
        ensures
            res@ == (OpeningView {
                store: OpeningStoreView::Create(None),
                params: params@,
                usage: PromptUsage::Primary,
            }),
    {
        Opening { store: OpeningStore::Create(None), params, usage: PromptUsage::Primary }
    }

    /// Opens a conversation that the store holds, given what the store says of it:
    /// whether it is a task of another session, that there is none, or that the
    /// store failed.
    pub fn resume_session(
        &self,
        id: &str,
        row: Result<Option<bool>, String>,
        params: SessionParams,
    ) -> (res: Result<Opening, EngineError>)
        ensures
            match row {
                Ok(Some(is_child)) => res is Ok && res->Ok_0@ == (OpeningView {
                    store: OpeningStoreView::Keep(id@),
                    params: params@,
                    usage: prompt_usage(is_child),
                }),
                Ok(None) => res is Err && res->Err_0@ == EngineErrorView::SessionNotFound(id@),
                Err(e) => res is Err && res->Err_0@ == EngineErrorView::Storage(e@),
            },
    {
        match row {
            Ok(Some(is_child)) => Ok(
                Opening {
                    store: OpeningStore::Keep(id.to_owned()),
                    params,
                    usage: usage_for(is_child),
                },
            ),
            Ok(None) => Err(EngineError::SessionNotFound(id.to_owned())),
            Err(e) => Err(EngineError::Storage(e)),
        }
    }

    /// Opens a task of another session, which must be running. The task uses the
    /// model of that session.
    pub fn create_child_session(
        &self,
        parent_session_id: &str,
        source: ChildSessionSource,
        child_agent_config: AgentConfig,
    ) -> (res: Result<Opening, EngineError>)
        ensures
            self@.sessions.contains_key(parent_session_id@) ==> res is Ok && res->Ok_0@ == (
            OpeningView {
                store: match source@ {
                    ChildSessionSourceView::Fresh => OpeningStoreView::Create(
                        Some(parent_session_id@),
                    ),
                    ChildSessionSourceView::Fork(source_id) => OpeningStoreView::Fork(
                        ForkRequestView { source_id, parent_id: parent_session_id@ },
                    ),
                },
                params: SessionParamsView {
                    agent_config: child_agent_config@,
                    model_config: self@.sessions[parent_session_id@].params.model_config,
                },
                usage: PromptUsage::Subagent,
            }),
            !self@.sessions.contains_key(parent_session_id@) ==> res is Err && res->Err_0@
                == EngineErrorView::SessionNotFound(parent_session_id@),
    {
        let model_config = match self.sessions.get(parent_session_id) {
            Some(record) => record.params.model_config.dup(),
            None => {
                return Err(EngineError::SessionNotFound(parent_session_id.to_owned()));
            },
        };
        let parent_id = parent_session_id.to_owned();
        Ok(
            Opening {
                store: match source {
                    ChildSessionSource::Fresh => OpeningStore::Create(Some(parent_id)),
                    ChildSessionSource::Fork(source_id) => OpeningStore::Fork(
                        ForkRequest { source_id, parent_id },
                    ),
                },
                params: SessionParams { agent_config: child_agent_config, model_config },
                usage: PromptUsage::Subagent,
            },
        )
    }

    /// The agent's definition has been loaded, or cannot be used. This comes before
    /// the store is asked for anything, so that a bad definition leaves nothing
    /// behind.
    pub fn definition_loaded(opening: Opening, definition: Result<(), String>) -> (res: Result<
        Opening,
        EngineError,
    >)
        ensures
            match definition {
                Ok(()) => res is Ok && res->Ok_0@ == opening@,
                Err(e) => res is Err && res->Err_0@ == EngineErrorView::Prompt(e@),
            },
    {
        match definition {
            Ok(()) => Ok(opening),
            Err(e) => Err(EngineError::Prompt(e)),
        }
    }

    /// The store has done what it was asked for, under the name that it gave the
    /// session; or it failed. The session is then one of those that the engine
    /// runs, in place of any with the same name.
    pub fn assemble_session(
        &mut self,
        opening: Opening,
        stored: Result<String, StoreFailure>,
    ) -> (res: Result<String, EngineError>)
        ensures
            match stored {
                Ok(id) => res is Ok && res->Ok_0@ == opened_id(opening@, id@) && final(self)@ == (
                EngineView {
                    sessions: old(self)@.sessions.insert(
                        opened_id(opening@, id@),
                        SessionRecordView {
                            params: opening@.params,
                            is_child: opening@.usage == PromptUsage::Subagent,
                        },
                    ),
                    ..old(self)@
                }),
                Err(e) => res is Err && res->Err_0@ == store_error(opening@, e@) && final(self)@
                    == old(self)@,
            },
    {
        let is_child = matches!(opening.usage, PromptUsage::Subagent);
        match stored {
            Ok(id) => {
                let ghost before = self@.sessions;
                let id = match opening.store {
                    OpeningStore::Keep(own) => own,
                    _ => id,
                };
                let record = SessionRecord { params: opening.params, is_child };
                self.sessions.insert(id.dup(), record);
                assert(self@.sessions =~= before.insert(id@, record@));
                Ok(id)
            },
            Err(StoreFailure::NotFound(e)) => match opening.store {
                OpeningStore::Fork(request) => Err(
                    EngineError::SessionNotFound(request.source_id),
                ),
                _ => Err(EngineError::Storage(e)),
            },
            Err(StoreFailure::Other(e)) => Err(EngineError::Storage(e)),
        }
    }

    // ---- using sessions ----

    /// Something has come in for a session: where it goes.
    pub fn send(&self, id: &str, event: InputEvent) -> (res: Result<Delivery, EngineError>)
        ensures
            match res {
                Ok(d) => self@.refusal(id@) is None && d@ == delivery_of(event@),
                Err(e) => self@.refusal(id@) == Some(e@),
            },
    {
        match self.check_request(id) {
            Ok(()) => Ok(deliver_input(event)),
            Err(e) => Err(e),
        }
    }

    /// Replaces what a session is run with.
    pub fn update_session_params(&mut self, id: &str, params: SessionParams) -> (res: Result<
        (),
        EngineError,
    >)
        ensures
            old(self)@.sessions.contains_key(id@) ==> res is Ok && final(self)@ == (EngineView {
                sessions: old(self)@.sessions.insert(
                    id@,
                    SessionRecordView { params: params@, ..old(self)@.sessions[id@] },
                ),
                ..old(self)@
            }),
            !old(self)@.sessions.contains_key(id@) ==> res is Err && res->Err_0@
                == EngineErrorView::SessionNotFound(id@) && final(self)@ == old(self)@,
    {
        let ghost before = self@.sessions;
        let is_child = match self.sessions.get(id) {
            Some(record) => record.is_child,
            None => {
                return Err(EngineError::SessionNotFound(id.to_owned()));
            },
        };
        let record = SessionRecord { params, is_child };
        self.sessions.insert(id.to_owned(), record);
        assert(self@.sessions =~= before.insert(id@, record@));
        Ok(())
    }

    /// Takes the entries that go by a name out of the queues of a session, and says
    /// how many they were.
    pub fn remove_queued_message(&self, id: &str, queues: &mut Queues, client_message_id: &str) -> (
        res: Result<usize, EngineError>)
        requires
            old(queues).guide@.len() + old(queues).pending@.len() <= usize::MAX,
        ensures
            match res {
                Ok(n) => self@.refusal(id@) is None && final(queues).guide@ == without(
                    old(queues).guide@,
                    client_message_id@,
                ) && final(queues).pending@ == without(old(queues).pending@, client_message_id@)
                    && n == old(queues).guide@.len() - final(queues).guide@.len() + old(
                    queues,
                ).pending@.len() - final(queues).pending@.len(),
                Err(e) => self@.refusal(id@) == Some(e@) && *final(queues) == *old(queues),
            },
    {
        match self.check_request(id) {
            Ok(()) => Ok(remove_queued(&mut queues.guide, &mut queues.pending, client_message_id)),
            Err(e) => Err(e),
        }
    }

    // ---- stopping sessions ----

    /// Brings a session to rest, given the phase that it announces. A session that
    /// the engine does not run, or in which no turn is running, is at rest.
    pub fn stop_session(&self, id: &str, phase: TurnPhase, reason: &str) -> (res: Result<
        StopStep,
        EngineError,
    >)
        ensures
            match res {
                Ok(step) => !self@.shutdown && step@ == if self@.sessions.contains_key(id@)
                    && phase == TurnPhase::Running {
                    StopStepView::Interrupt(
                        unsent(
                            InterruptPayloadView { reason: reason@, source: InterruptSource::Stop },
                        ),
                    )
                } else {
                    StopStepView::Quiet
                },
                Err(e) => self@.shutdown && e@ == EngineErrorView::Shutdown,
            },
    {
        if self.closed {
            return Err(EngineError::Shutdown);
        }
        if !self.sessions.contains_key(id) {
            return Ok(StopStep::Quiet);
        }
        match phase {
            TurnPhase::Idle => Ok(StopStep::Quiet),
            TurnPhase::Running => Ok(
                StopStep::Interrupt(
                    envelope(
                        InterruptPayload {
                            reason: reason.to_owned(),
                            source: InterruptSource::Stop,
                        },
                    ),
                ),
            ),
        }
    }

    /// The wait for a session to come to rest is over. A session whose task has
    /// ended, so that the interrupt could not be delivered, is at rest too.
    pub fn stop_settled(id: &str, delivered: bool, quiet: bool) -> (res: Result<(), EngineError>)
        ensures
            outcome_view(res) == if delivered && !quiet {
                Err::<(), _>(
                    EngineErrorView::StopTimeout {
                        session_id: id@,
                        timeout_secs: STOP_TURN_TIMEOUT_SECS,
                    },
                )
            } else {
                Ok::<(), EngineErrorView>(())
            },
    {
        if delivered && !quiet {
            Err(
                EngineError::StopTimeout {
                    session_id: id.to_owned(),
                    timeout_secs: STOP_TURN_TIMEOUT_SECS,
                },
            )
        } else {
            Ok(())
        }
    }

    /// Ends a session: the engine does not run it any more.
    pub fn end_session(&mut self, id: &str) -> (res: Result<(), EngineError>)
        ensures
            match res {
                Ok(()) => old(self)@.refusal(id@) is None && final(self)@ == (EngineView {
                    sessions: old(self)@.sessions.remove(id@),
                    ..old(self)@
                }),
                Err(e) => old(self)@.refusal(id@) == Some(e@) && final(self)@ == old(self)@,
            },
    {
        match self.check_request(id) {
            Ok(()) => {
                let ghost before = self@.sessions;
                self.sessions.remove(id);
                assert(self@.sessions =~= before.remove(id@));
                Ok(())
            },
            Err(e) => Err(e),
        }
    }

    /// The store has taken note that a session ended, or failed to.
    pub fn end_recorded(stored: Result<(), String>) -> (res: Result<(), EngineError>)
        ensures
            outcome_view(res) == match stored {
                Ok(()) => Ok::<(), EngineErrorView>(()),
                Err(e) => Err::<(), _>(EngineErrorView::Storage(e@)),
            },
    {
        match stored {
            Ok(()) => Ok(()),
            Err(e) => Err(EngineError::Storage(e)),
        }
    }

    /// Shuts the engine down: it runs no session any more and takes no requests.
    pub fn shutdown(&mut self)
        ensures
            final(self)@ == (EngineView {
                shutdown: true,
                sessions: Map::empty(),
                ..old(self)@
            }),
    {
        self.closed = true;
        self.sessions.clear();
        assert(self@.sessions =~= Map::empty());
    }
}

/// The name of a session that has been opened. One that was there already keeps its
/// name.
pub open spec fn opened_id(opening: OpeningView, stored: Seq<char>) -> Seq<char> {
    match opening.store {
        OpeningStoreView::Keep(id) => id,
        _ => stored,
    }
}

/// What is said when the store fails. A session that was to be copied and is not
/// there is a session that was not found.
pub open spec fn store_error(opening: OpeningView, e: StoreFailureView) -> EngineErrorView {
    match (e, opening.store) {
        (
            StoreFailureView::NotFound(_),
            OpeningStoreView::Fork(request),
        ) => EngineErrorView::SessionNotFound(request.source_id),
        (StoreFailureView::NotFound(e), _) => EngineErrorView::Storage(e),
        (StoreFailureView::Other(e), _) => EngineErrorView::Storage(e),
    }
}

/// What is said of a task that did not end by itself.
pub open spec fn join_failure_text(failure: JoinFailureView) -> Seq<char> {
    match failure {
        JoinFailureView::Panic(Some(payload)) => payload,
        JoinFailureView::Panic(None) => "task panic（payload 不可恢复）"@,
        JoinFailureView::Cancelled => "task 被取消"@,
        JoinFailureView::Other(e) => "task 退出异常: "@ + e,
    }
}

/// Says why a task did not end by itself.
pub fn format_join_error(failure: JoinFailure) -> (res: String)
    ensures
        res@ == join_failure_text(failure@),
{
    match failure {
        JoinFailure::Panic(Some(payload)) => payload,
        JoinFailure::Panic(None) => "task panic（payload 不可恢复）".to_owned(),
        JoinFailure::Cancelled => "task 被取消".to_owned(),
        JoinFailure::Other(e) => concat("task 退出异常: ", e.as_str()),
    }
}

/// How the tasks of the sessions ended when an engine was shut down.
#[derive(Clone, Copy, Debug)]
pub struct ShutdownReport {
    pub total: usize,
    pub finished: usize,
    pub panicked: usize,
    pub aborted: usize,
}

/// How many of some outcomes are of a kind.
pub open spec fn count_exits(
    outcomes: Seq<SessionExitOutcomeView>,
    kind: spec_fn(SessionExitOutcomeView) -> bool,
) -> nat
    decreases outcomes.len(),
{
    if outcomes.len() == 0 {
        0
    } else {
        count_exits(outcomes.drop_last(), kind) + if kind(outcomes.last()) {
            1nat
        } else {
            0nat
        }
    }
}

/// Counts how the tasks of the sessions ended. Each is counted once.
pub fn shutdown_report(outcomes: &Vec<SessionExitOutcome>) -> (res: ShutdownReport)
    ensures
        res.total == outcomes@.len(),
        res.finished == count_exits(
            outcomes.deep_view(),
            |o: SessionExitOutcomeView| o is Finished,
        ),
        res.panicked == count_exits(
            outcomes.deep_view(),
            |o: SessionExitOutcomeView| o is Panicked,
        ),
        res.aborted == count_exits(
            outcomes.deep_view(),
            |o: SessionExitOutcomeView| o is Aborted,
        ),
        res.total == res.finished + res.panicked + res.aborted,
{
    let ghost all = outcomes.deep_view();
    let ghost is_finished = |o: SessionExitOutcomeView| o is Finished;
    let ghost is_panicked = |o: SessionExitOutcomeView| o is Panicked;
    let ghost is_aborted = |o: SessionExitOutcomeView| o is Aborted;
    let mut finished: usize = 0;
    let mut panicked: usize = 0;
    let mut aborted: usize = 0;
    let mut i: usize = 0;
    while i < outcomes.len()
        invariant
            i <= outcomes.len(),
            all == outcomes.deep_view(),
            is_finished == (|o: SessionExitOutcomeView| o is Finished),
            is_panicked == (|o: SessionExitOutcomeView| o is Panicked),
            is_aborted == (|o: SessionExitOutcomeView| o is Aborted),
            finished == count_exits(all.take(i as int), is_finished),
            panicked == count_exits(all.take(i as int), is_panicked),
            aborted == count_exits(all.take(i as int), is_aborted),
            finished + panicked + aborted == i,
        decreases outcomes.len() - i,
    {
        proof {
            assert(all.take(i + 1).drop_last() =~= all.take(i as int));
            assert(all.take(i + 1).last() == outcomes[i as int]@);
        }
        match &outcomes[i] {
            SessionExitOutcome::Finished => {
                finished += 1;
            },
            SessionExitOutcome::Panicked(_) => {
                panicked += 1;
            },
            SessionExitOutcome::Aborted => {
                aborted += 1;
            },
        }
        i += 1;
    }
    assert(all.take(i as int) =~= all);
    ShutdownReport { total: outcomes.len(), finished, panicked, aborted }
}

// ---- laws ----

/// Once an engine has been shut down, every request that concerns a session is
/// refused for that reason, whichever session it is.
pub proof fn law_shutdown_refuses_everything(e: EngineView, id: Seq<char>)
    requires
        e.shutdown,
    ensures
        e.refusal(id) == Some(EngineErrorView::Shutdown),
{
}

/// Ending a session leaves every other session as it is, and the ended one can
/// neither be used nor ended again.
pub proof fn law_ending_touches_one_session(e: EngineView, id: Seq<char>, other: Seq<char>)
    requires
        e.refusal(id) is None,
        other != id,
    ensures
        ({
            let after = EngineView { sessions: e.sessions.remove(id), ..e };
            &&& after.refusal(id) == Some(EngineErrorView::SessionNotFound(id))
            &&& after.refusal(other) == e.refusal(other)
            &&& e.sessions.contains_key(other) ==> after.sessions[other] == e.sessions[other]
        }),
{
}

/// What comes in reaches the session as it was sent: text, images, mode, source,
/// the sender's own name for it, and the note that goes with a command.
pub proof fn law_input_is_delivered_whole(event: InputEventView)
    ensures
        event is Interrupt <==> delivery_of(event) is Interrupt,
        event is User ==> {
            let sent = event->User_0;
            let got = delivery_of(event)->Inbound_0->User_0;
            &&& delivery_of(event)->Inbound_0 is User
            &&& got.base == sent.base
            &&& got.payload.content == sent.payload.content
            &&& got.payload.images == sent.payload.images
            &&& got.payload.source == sent.payload.source
            &&& delivery_of(event)->Inbound_0.mode() == sent.payload.mode
            &&& delivery_of(event)->Inbound_0.client_message_id() == sent.payload.client_message_id
        },
        event is Control ==> {
            let sent = event->Control_0;
            let got = delivery_of(event)->Inbound_0->Control_0;
            &&& delivery_of(event)->Inbound_0 is Control
            &&& got.base == sent.base
            &&& got.payload.command == sent.payload.command
            &&& got.payload.note == sent.payload.note
            &&& delivery_of(event)->Inbound_0.mode() == sent.payload.mode
            &&& delivery_of(event)->Inbound_0.client_message_id() == sent.payload.client_message_id
        },
{
}

/// A request that concerns a session is refused exactly if the engine is shut down or
/// does not run the session, and for that reason.
pub proof fn law_when_a_request_is_refused(e: EngineView, id: Seq<char>)
    ensures
        e.refusal(id) is None <==> !e.shutdown && e.sessions.contains_key(id),
        e.shutdown ==> e.refusal(id) == Some(EngineErrorView::Shutdown),
        !e.shutdown && !e.sessions.contains_key(id) ==> e.refusal(id) == Some(
            EngineErrorView::SessionNotFound(id),
        ),
{
}

/// An interrupt reaches what the session is doing with its reason and its source.
pub proof fn law_interrupts_are_delivered_whole(event: InputEventView)
    requires
        event is Interrupt,
    ensures
        delivery_of(event) is Interrupt,
        delivery_of(event)->Interrupt_0.payload.reason == event->Interrupt_0.payload.reason,
        delivery_of(event)->Interrupt_0.payload.source == event->Interrupt_0.payload.source,
{
}

/// A session that is opened goes by the name that the store gave it, or by its own where
/// it was there already. A session that was to be copied and is not there was not found;
/// any other failure of the store is told in its words.
pub proof fn law_what_comes_of_opening(
    opening: OpeningView,
    id: Seq<char>,
    failure: StoreFailureView,
)
    ensures
        opening.store is Keep ==> opened_id(opening, id) == opening.store->Keep_0,
        !(opening.store is Keep) ==> opened_id(opening, id) == id,
        opening.store is Fork && failure is NotFound ==> store_error(opening, failure)
            == EngineErrorView::SessionNotFound(opening.store->Fork_0.source_id),
        !(opening.store is Fork) && failure is NotFound ==> store_error(opening, failure)
            == EngineErrorView::Storage(failure->NotFound_0),
        failure is Other ==> store_error(opening, failure) == EngineErrorView::Storage(
            failure->Other_0,
        ),
{
}

/// A task that did not end by itself is told of in the words of its panic where it left
/// any, and by what happened to it otherwise.
pub proof fn law_why_a_task_ended(words: Seq<char>)
    ensures
        join_failure_text(JoinFailureView::Panic(Some(words))) == words,
        join_failure_text(JoinFailureView::Panic(None)) == "task panic（payload 不可恢复）"@,
        join_failure_text(JoinFailureView::Cancelled) == "task 被取消"@,
        join_failure_text(JoinFailureView::Other(words)) == "task 退出异常: "@ + words,
{
}

/// Counting the ends of a kind counts each end of that kind once.
pub proof fn law_ends_are_counted_once(
    outcomes: Seq<SessionExitOutcomeView>,
    kind: spec_fn(SessionExitOutcomeView) -> bool,
)
    ensures
        count_exits(outcomes, kind) == outcomes.filter(kind).len(),
    decreases outcomes.len(),
{
    reveal(Seq::filter);
    if outcomes.len() > 0 {
        law_ends_are_counted_once(outcomes.drop_last(), kind);
    }
}

} // verus!
