//! What goes to a model and what comes back.
use crate::message::{ImageContent, ImageContentView, MessageRole, ToolCallData, ToolCallDataView};
use crate::model::Dup;
use vstd::prelude::*;

verus! {

/// How many tokens a call used, as the model counts them.
#[derive(Clone, Copy, Debug)]
pub struct StreamUsage {
    pub prompt_tokens: u32,
    pub completion_tokens: u32,
    pub total_tokens: u32,
    pub completion_reasoning_tokens: Option<u32>,
    pub prompt_cached_tokens: Option<u32>,
}

impl StreamUsage {
    /// No tokens at all.
    pub open spec fn zero() -> StreamUsage {
        StreamUsage {
            prompt_tokens: 0,
            completion_tokens: 0,
            total_tokens: 0,
            completion_reasoning_tokens: None,
            prompt_cached_tokens: None,
        }
    }

    /// The usage before a call has reported any.
    pub fn new() -> (res: StreamUsage)
        ensures
            res == StreamUsage::zero(),
    {
        StreamUsage {
            prompt_tokens: 0,
            completion_tokens: 0,
            total_tokens: 0,
            completion_reasoning_tokens: None,
            prompt_cached_tokens: None,
        }
    }
}

/// Whether the model is asked to reason first.
#[derive(Clone, Copy, Debug, PartialEq, Eq, Structural)]
pub enum ThinkingType {
    Enabled,
    Disabled,
}

impl DeepView for ThinkingType {
    type V = ThinkingType;

    open spec fn deep_view(&self) -> ThinkingType {
        *self
    }
}

impl Dup for ThinkingType {
    fn dup(&self) -> (res: Self) {
        *self
    }
}

/// Which model a session uses, and how.
#[derive(Debug)]
pub struct ModelConfig {
    /// `provider/model`.
    pub model_id: String,
    /// `None` leaves it to the model.
    pub thinking_type: Option<ThinkingType>,
    /// `None` leaves it to the model.
    pub reasoning_effort: Option<String>,
}

/// The mathematical value of a [`ModelConfig`].
#[verifier::ext_equal]
pub struct ModelConfigView {
    pub model_id: Seq<char>,
    pub thinking_type: Option<ThinkingType>,
    pub reasoning_effort: Option<Seq<char>>,
}

impl View for ModelConfig {
    type V = ModelConfigView;

    open spec fn view(&self) -> ModelConfigView {
        ModelConfigView {
            model_id: self.model_id@,
            thinking_type: self.thinking_type,
            reasoning_effort: self.reasoning_effort.deep_view(),
        }
    }
}

impl DeepView for ModelConfig {
    type V = ModelConfigView;

    open spec fn deep_view(&self) -> ModelConfigView {
        self@
    }
}

impl Dup for ModelConfig {
    fn dup(&self) -> (res: Self) {
        ModelConfig {
            model_id: self.model_id.dup(),
            thinking_type: self.thinking_type,
            reasoning_effort: self.reasoning_effort.dup(),
        }
    }
}

/// Options of a call.
#[derive(Debug)]
pub struct StreamOptions {
    /// The tools on offer, each as JSON text; `None` where there are none.
    pub tools: Option<Vec<String>>,
    pub thinking_type: Option<ThinkingType>,
    pub reasoning_effort: Option<String>,
}

/// The mathematical value of a [`StreamOptions`].
#[verifier::ext_equal]
pub struct StreamOptionsView {
    pub tools: Option<Seq<Seq<char>>>,
    pub thinking_type: Option<ThinkingType>,
    pub reasoning_effort: Option<Seq<char>>,
}

impl View for StreamOptions {
    type V = StreamOptionsView;

    open spec fn view(&self) -> StreamOptionsView {
        StreamOptionsView {
            tools: self.tools.deep_view(),
            thinking_type: self.thinking_type,
            reasoning_effort: self.reasoning_effort.deep_view(),
        }
    }
}

impl DeepView for StreamOptions {
    type V = StreamOptionsView;

    open spec fn deep_view(&self) -> StreamOptionsView {
        self@
    }
}

impl Dup for StreamOptions {
    fn dup(&self) -> (res: Self) {
        StreamOptions {
            tools: self.tools.dup(),
            thinking_type: self.thinking_type,
            reasoning_effort: self.reasoning_effort.dup(),
        }
    }
}

/// A message as a model reads it.
#[derive(Debug)]
pub struct ChatMessage {
    pub role: MessageRole,
    pub content: Option<String>,
    pub images: Vec<ImageContent>,
    pub reasoning: Option<String>,
    pub tool_calls: Option<Vec<ToolCallData>>,
    pub tool_call_id: Option<String>,
    pub tool_name: Option<String>,
}

/// The mathematical value of a [`ChatMessage`].
#[verifier::ext_equal]
pub struct ChatMessageView {
    pub role: MessageRole,
    pub content: Option<Seq<char>>,
    pub images: Seq<ImageContentView>,
    pub reasoning: Option<Seq<char>>,
    pub tool_calls: Option<Seq<ToolCallDataView>>,
    pub tool_call_id: Option<Seq<char>>,
    pub tool_name: Option<Seq<char>>,
}

impl View for ChatMessage {
    type V = ChatMessageView;

    open spec fn view(&self) -> ChatMessageView {
        ChatMessageView {
            role: self.role,
            content: self.content.deep_view(),
            images: self.images.deep_view(),
            reasoning: self.reasoning.deep_view(),
            tool_calls: self.tool_calls.deep_view(),
            tool_call_id: self.tool_call_id.deep_view(),
            tool_name: self.tool_name.deep_view(),
        }
    }
}

impl DeepView for ChatMessage {
    type V = ChatMessageView;

    open spec fn deep_view(&self) -> ChatMessageView {
        self@
    }
}

impl Dup for ChatMessage {
    fn dup(&self) -> (res: Self) {
        ChatMessage {
            role: self.role,
            content: self.content.dup(),
            images: self.images.dup(),
            reasoning: self.reasoning.dup(),
            tool_calls: self.tool_calls.dup(),
            tool_call_id: self.tool_call_id.dup(),
            tool_name: self.tool_name.dup(),
        }
    }
}

/// A call of a model.
#[derive(Debug)]
pub struct ChatRequest {
    /// The conversation, oldest first; never the system prompt.
    pub messages: Vec<ChatMessage>,
    /// The system prompt.
    pub system: Option<String>,
}

/// The mathematical value of a [`ChatRequest`].
#[verifier::ext_equal]
pub struct ChatRequestView {
    pub messages: Seq<ChatMessageView>,
    pub system: Option<Seq<char>>,
}

impl View for ChatRequest {
    type V = ChatRequestView;

    open spec fn view(&self) -> ChatRequestView {
        ChatRequestView {
            messages: self.messages.deep_view(),
            system: self.system.deep_view(),
        }
    }
}

impl DeepView for ChatRequest {
    type V = ChatRequestView;

    open spec fn deep_view(&self) -> ChatRequestView {
        self@
    }
}

impl Dup for ChatRequest {
    fn dup(&self) -> (res: Self) {
        ChatRequest {
            messages: self.messages.dup(),
            system: self.system.dup(),
        }
    }
}

/// What a completed stream amounts to.
#[derive(Debug)]
pub struct StreamResult {
    pub text: String,
    pub reasoning: String,
    pub tool_calls: Vec<ToolCallData>,
    pub usage: StreamUsage,
}

/// The mathematical value of a [`StreamResult`].
#[verifier::ext_equal]
pub struct StreamResultView {
    pub text: Seq<char>,
    pub reasoning: Seq<char>,
    pub tool_calls: Seq<ToolCallDataView>,
    pub usage: StreamUsage,
}

impl View for StreamResult {
    type V = StreamResultView;

    open spec fn view(&self) -> StreamResultView {
        StreamResultView {
            text: self.text@,
            reasoning: self.reasoning@,
            tool_calls: self.tool_calls.deep_view(),
            usage: self.usage,
        }
    }
}

impl DeepView for StreamResult {
    type V = StreamResultView;

    open spec fn deep_view(&self) -> StreamResultView {
        self@
    }
}

impl Dup for StreamResult {
    fn dup(&self) -> (res: Self) {
        StreamResult {
            text: self.text.dup(),
            reasoning: self.reasoning.dup(),
            tool_calls: self.tool_calls.dup(),
            usage: self.usage,
        }
    }
}

} // verus!
