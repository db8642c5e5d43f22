//! What comes in from outside, before a session makes its own records of it.
use crate::message::{
    ControlCommand, Envelope, EnvelopeView, EventBase, EventBaseView, ImageContent,
    ImageContentView, InterruptSource, PluginSource, PluginSourceView, UserMessageMode,
    UserMessageSource, UserMessageSourceView,
};
use crate::model::Dup;
use vstd::prelude::*;

verus! {

/// A user message.
#[derive(Debug)]
pub struct UserInput {
    pub content: String,
    pub images: Vec<ImageContent>,
    pub mode: UserMessageMode,
    pub source: UserMessageSource,
    pub client_message_id: Option<String>,
}

/// The mathematical value of a [`UserInput`].
#[verifier::ext_equal]
pub struct UserInputView {
    pub content: Seq<char>,
    pub images: Seq<ImageContentView>,
    pub mode: UserMessageMode,
    pub source: UserMessageSourceView,
    pub client_message_id: Option<Seq<char>>,
}

impl View for UserInput {
    type V = UserInputView;

    open spec fn view(&self) -> UserInputView {
        UserInputView {
            content: self.content@,
            images: self.images.deep_view(),
            mode: self.mode,
            source: self.source@,
            client_message_id: self.client_message_id.deep_view(),
        }
    }
}

impl DeepView for UserInput {
    type V = UserInputView;

    open spec fn deep_view(&self) -> UserInputView {
        self@
    }
}

impl Dup for UserInput {
    fn dup(&self) -> (res: Self) {
        UserInput {
            content: self.content.dup(),
            images: self.images.dup(),
            mode: self.mode,
            source: self.source.dup(),
            client_message_id: self.client_message_id.dup(),
        }
    }
}

/// A control command.
#[derive(Debug)]
pub struct ControlInput {
    pub command: ControlCommand,
    pub mode: UserMessageMode,
    pub client_message_id: Option<String>,
    pub note: Option<String>,
}

/// The mathematical value of a [`ControlInput`].
#[verifier::ext_equal]
pub struct ControlInputView {
    pub command: ControlCommand,
    pub mode: UserMessageMode,
    pub client_message_id: Option<Seq<char>>,
    pub note: Option<Seq<char>>,
}

impl View for ControlInput {
    type V = ControlInputView;

    open spec fn view(&self) -> ControlInputView {
        ControlInputView {
            command: self.command,
            mode: self.mode,
            client_message_id: self.client_message_id.deep_view(),
            note: self.note.deep_view(),
        }
    }
}

impl DeepView for ControlInput {
    type V = ControlInputView;

    open spec fn deep_view(&self) -> ControlInputView {
        self@
    }
}

impl Dup for ControlInput {
    fn dup(&self) -> (res: Self) {
        ControlInput {
            command: self.command,
            mode: self.mode,
            client_message_id: self.client_message_id.dup(),
            note: self.note.dup(),
        }
    }
}

/// An interrupt.
#[derive(Debug)]
pub struct InterruptInput {
    pub reason: String,
    pub source: InterruptSource,
}

/// The mathematical value of a [`InterruptInput`].
#[verifier::ext_equal]
pub struct InterruptInputView {
    pub reason: Seq<char>,
    pub source: InterruptSource,
}

impl View for InterruptInput {
    type V = InterruptInputView;

    open spec fn view(&self) -> InterruptInputView {
        InterruptInputView {
            reason: self.reason@,
            source: self.source,
        }
    }
}

impl DeepView for InterruptInput {
    type V = InterruptInputView;

    open spec fn deep_view(&self) -> InterruptInputView {
        self@
    }
}

impl Dup for InterruptInput {
    fn dup(&self) -> (res: Self) {
        InterruptInput {
            reason: self.reason.dup(),
            source: self.source,
        }
    }
}

/// A notice from a plugin.
#[derive(Debug)]
pub struct PluginInput {
    pub source: PluginSource,
    pub event_type: String,
    /// As JSON text.
    pub data: String,
    pub error: Option<String>,
    pub message: Option<String>,
}

/// The mathematical value of a [`PluginInput`].
#[verifier::ext_equal]
pub struct PluginInputView {
    pub source: PluginSourceView,
    pub event_type: Seq<char>,
    pub data: Seq<char>,
    pub error: Option<Seq<char>>,
    pub message: Option<Seq<char>>,
}

impl View for PluginInput {
    type V = PluginInputView;

    open spec fn view(&self) -> PluginInputView {
        PluginInputView {
            source: self.source@,
            event_type: self.event_type@,
            data: self.data@,
            error: self.error.deep_view(),
            message: self.message.deep_view(),
        }
    }
}

impl DeepView for PluginInput {
    type V = PluginInputView;

    open spec fn deep_view(&self) -> PluginInputView {
        self@
    }
}

impl Dup for PluginInput {
    fn dup(&self) -> (res: Self) {
        PluginInput {
            source: self.source.dup(),
            event_type: self.event_type.dup(),
            data: self.data.dup(),
            error: self.error.dup(),
            message: self.message.dup(),
        }
    }
}

pub type UserInputMessage = Envelope<UserInput>;

pub type UserInputMessageView = EnvelopeView<UserInputView>;

pub type ControlInputMessage = Envelope<ControlInput>;

pub type ControlInputMessageView = EnvelopeView<ControlInputView>;

pub type InterruptInputMessage = Envelope<InterruptInput>;

pub type InterruptInputMessageView = EnvelopeView<InterruptInputView>;

pub type PluginInputMessage = Envelope<PluginInput>;

pub type PluginInputMessageView = EnvelopeView<PluginInputView>;

/// What comes in from outside for one session.
#[derive(Debug)]
pub enum InputEvent {
    User(UserInputMessage),
    Control(ControlInputMessage),
    Interrupt(InterruptInputMessage),
}

/// The mathematical value of a [`InputEvent`].
#[verifier::ext_equal]
pub enum InputEventView {
    User(UserInputMessageView),
    Control(ControlInputMessageView),
    Interrupt(InterruptInputMessageView),
}

impl View for InputEvent {
    type V = InputEventView;

    open spec fn view(&self) -> InputEventView {
        match self {
            InputEvent::User(x) => InputEventView::User(x@),
            InputEvent::Control(x) => InputEventView::Control(x@),
            InputEvent::Interrupt(x) => InputEventView::Interrupt(x@),
        }
    }
}

impl DeepView for InputEvent {
    type V = InputEventView;

    open spec fn deep_view(&self) -> InputEventView {
        self@
    }
}

impl Dup for InputEvent {
    fn dup(&self) -> (res: Self) {
        match self {
            InputEvent::User(x) => InputEvent::User(x.dup()),
            InputEvent::Control(x) => InputEvent::Control(x.dup()),
            InputEvent::Interrupt(x) => InputEvent::Interrupt(x.dup()),
        }
    }
}

/// What comes in from outside for an engine that runs a single conversation.
#[derive(Debug)]
pub enum EngineInput {
    User(UserInputMessage),
    Interrupt(InterruptInputMessage),
    Plugin(PluginInputMessage),
    /// The engine is to end.
    Shutdown(EventBase),
}

/// The mathematical value of a [`EngineInput`].
#[verifier::ext_equal]
pub enum EngineInputView {
    User(UserInputMessageView),
    Interrupt(InterruptInputMessageView),
    Plugin(PluginInputMessageView),
    Shutdown(EventBaseView),
}

impl View for EngineInput {
    type V = EngineInputView;

    open spec fn view(&self) -> EngineInputView {
        match self {
            EngineInput::User(x) => EngineInputView::User(x@),
            EngineInput::Interrupt(x) => EngineInputView::Interrupt(x@),
            EngineInput::Plugin(x) => EngineInputView::Plugin(x@),
            EngineInput::Shutdown(x) => EngineInputView::Shutdown(x@),
        }
    }
}

impl DeepView for EngineInput {
    type V = EngineInputView;

    open spec fn deep_view(&self) -> EngineInputView {
        self@
    }
}

impl Dup for EngineInput {
    fn dup(&self) -> (res: Self) {
        match self {
            EngineInput::User(x) => EngineInput::User(x.dup()),
            EngineInput::Interrupt(x) => EngineInput::Interrupt(x.dup()),
            EngineInput::Plugin(x) => EngineInput::Plugin(x.dup()),
            EngineInput::Shutdown(x) => EngineInput::Shutdown(x.dup()),
        }
    }
}

} // verus!
