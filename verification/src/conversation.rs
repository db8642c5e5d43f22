//! A conversation without tools, kept in memory: a message, a reply, and again.
use crate::builders::{
    copies, law_a_plain_request_is_the_history, make_reply_payload, nonempty, plain_chat_request, plain_messages, reply_payload, text_or_none,
};
use crate::chat::{
    ChatRequest, ChatRequestView, StreamOptions, StreamOptionsView, StreamResult, StreamResultView,
};
use crate::emit::{envelope, unsent};
use crate::history::blank_message;
use crate::input::{EngineInput, EngineInputView};
use crate::message::{
    Envelope, EnvelopeView, Message, MessageRole, MessageView, OutputEvent, OutputEventView,
    PluginPayload, PluginPayloadView, ToolCallData, UserMessageMode, UserMessageSource,
    UserMessageSourceView, UserPayload, UserPayloadView,
};
use crate::model::{empty_list, push_item, Dup};
use crate::stream_session::{AgentModel, AgentModelView};
use crate::text::{second, second_segment};
use vstd::prelude::*;

verus! {

/// A conversation that is kept in memory.
#[derive(Debug)]
pub struct Conversation {
    pub messages: Vec<Message>,
    /// How many messages there were when it was last stored.
    pub message_count: i64,
    pub system_prompt: Option<String>,
}

/// The mathematical value of a [`Conversation`].
#[verifier::ext_equal]
pub struct ConversationView {
    pub messages: Seq<MessageView>,
    pub message_count: i64,
    pub system_prompt: Option<Seq<char>>,
}

impl View for Conversation {
    type V = ConversationView;

    open spec fn view(&self) -> ConversationView {
        ConversationView {
            messages: self.messages.deep_view(),
            message_count: self.message_count,
            system_prompt: self.system_prompt.deep_view(),
        }
    }
}

impl DeepView for Conversation {
    type V = ConversationView;

    open spec fn deep_view(&self) -> ConversationView {
        self@
    }
}

impl Dup for Conversation {
    fn dup(&self) -> (res: Self) {
        Conversation {
            messages: self.messages.dup(),
            message_count: self.message_count,
            system_prompt: self.system_prompt.dup(),
        }
    }
}

/// A call of a model.
#[derive(Debug)]
pub struct PlainCall {
    pub request: ChatRequest,
    /// The model's own name.
    pub model: String,
    pub options: StreamOptions,
}

/// The mathematical value of a [`PlainCall`].
#[verifier::ext_equal]
pub struct PlainCallView {
    pub request: ChatRequestView,
    pub model: Seq<char>,
    pub options: StreamOptionsView,
}

impl View for PlainCall {
    type V = PlainCallView;

    open spec fn view(&self) -> PlainCallView {
        PlainCallView {
            request: self.request@,
            model: self.model@,
            options: self.options@,
        }
    }
}

impl DeepView for PlainCall {
    type V = PlainCallView;

    open spec fn deep_view(&self) -> PlainCallView {
        self@
    }
}

impl Dup for PlainCall {
    fn dup(&self) -> (res: Self) {
        PlainCall {
            request: self.request.dup(),
            model: self.model.dup(),
            options: self.options.dup(),
        }
    }
}

/// What a conversation asks for.
#[derive(Debug)]
pub enum ConversationAction {
    /// Show an event.
    Emit(OutputEvent),
    /// Call the model.
    Call(PlainCall),
    /// Store the conversation.
    Persist,
}

/// The mathematical value of a [`ConversationAction`].
#[verifier::ext_equal]
pub enum ConversationActionView {
    Emit(OutputEventView),
    Call(PlainCallView),
    Persist,
}

impl View for ConversationAction {
    type V = ConversationActionView;

    open spec fn view(&self) -> ConversationActionView {
        match self {
            ConversationAction::Emit(x) => ConversationActionView::Emit(x@),
            ConversationAction::Call(x) => ConversationActionView::Call(x@),
            ConversationAction::Persist => ConversationActionView::Persist,
        }
    }
}

impl DeepView for ConversationAction {
    type V = ConversationActionView;

    open spec fn deep_view(&self) -> ConversationActionView {
        self@
    }
}

impl Dup for ConversationAction {
    fn dup(&self) -> (res: Self) {
        match self {
            ConversationAction::Emit(x) => ConversationAction::Emit(x.dup()),
            ConversationAction::Call(x) => ConversationAction::Call(x.dup()),
            ConversationAction::Persist => ConversationAction::Persist,
        }
    }
}
/// The model and the options of a call: what stands after the slash in the model's
/// name, or nothing; and no tools.
pub open spec fn model_and_options(model: AgentModelView) -> (Seq<char>, StreamOptionsView) {
    (
        match model.model_id {
            Some(id) => match second_segment(id, '/') {
                Some(name) => name,
                None => ""@,
            },
            None => ""@,
        },
        StreamOptionsView {
            tools: None,
            thinking_type: model.thinking_type,
            reasoning_effort: model.reasoning_effort,
        },
    )
}

/// The model and the options of a call.
pub fn build_model_and_options(model: &AgentModel) -> (res: (String, StreamOptions))
    ensures
        (res.0@, res.1@) == model_and_options(model@),
{
    let name = match &model.model_id {
        Some(id) => match second(id.as_str(), '/') {
            Some(name) => name.to_owned(),
            None => "".to_owned(),
        },
        None => "".to_owned(),
    };
    (
        name,
        StreamOptions {
            tools: None,
            thinking_type: model.thinking_type,
            reasoning_effort: model.reasoning_effort.dup(),
        },
    )
}

/// A reply as it is kept.
pub open spec fn kept_reply(result: StreamResultView, model_id: Option<Seq<char>>) -> MessageView {
    MessageView {
        content: nonempty(result.text),
        reasoning: nonempty(result.reasoning),
        model_id,
        finish_reason: Some("stop"@),
        ..blank_message(MessageRole::Assistant)
    }
}

/// Makes the message that a reply is kept as.
pub fn build_assistant_message(result: &StreamResult, model_id: &Option<String>) -> (res: Message)
    ensures
        res@ == kept_reply(result@, model_id.deep_view()),
{
    let mut msg = Message::new(MessageRole::Assistant);
    msg.content = text_or_none(result.text.as_str());
    msg.reasoning = text_or_none(result.reasoning.as_str());
    msg.model_id = model_id.dup();
    msg.finish_reason = Some("stop".to_owned());
    msg
}

/// The event that shows a reply.
pub open spec fn shown_reply(result: StreamResultView) -> OutputEventView {
    OutputEventView::Assistant(
        unsent(
            reply_payload(result.text, result.reasoning, Seq::empty(), "stop"@, result.usage),
        ),
    )
}

/// The message that a user message is kept as.
pub open spec fn kept_user(content: Seq<char>) -> MessageView {
    MessageView { content: Some(content), ..blank_message(MessageRole::User) }
}

/// The event that shows a user message.
pub open spec fn shown_user(content: Seq<char>) -> OutputEventView {
    OutputEventView::User(
        unsent(
            UserPayloadView {
                content,
                images: Seq::empty(),
                mode: UserMessageMode::Guide,
                source: UserMessageSourceView::User,
                client_message_id: None,
            },
        ),
    )
}

impl ConversationView {
    /// The conversation with one more message.
    pub open spec fn with(self, m: MessageView) -> ConversationView {
        ConversationView { messages: self.messages.push(m), ..self }
    }

    /// The conversation as it is stored.
    pub open spec fn counted(self) -> ConversationView {
        ConversationView { message_count: self.messages.len() as i64, ..self }
    }
}

/// What comes of something that came in: a user message is kept and shown, and the
/// model is called; a notice of a plugin is shown; anything else is of no account.
pub open spec fn on_input(c: ConversationView, input: EngineInputView, model: AgentModelView) -> (
    ConversationView,
    Seq<ConversationActionView>,
) {
    match input {
        EngineInputView::User(m) => {
            let content = m.payload.content;
            let after = c.with(kept_user(content));
            let (name, options) = model_and_options(model);
            (
                after,
                seq![
                    ConversationActionView::Emit(shown_user(content)),
                    ConversationActionView::Call(
                        PlainCallView {
                            request: ChatRequestView {
                                messages: plain_messages(after.messages),
                                system: c.system_prompt,
                            },
                            model: name,
                            options,
                        },
                    ),
                ],
            )
        },
        EngineInputView::Plugin(m) => (
            c,
            seq![
                ConversationActionView::Emit(
                    OutputEventView::Plugin(
                        EnvelopeView {
                            base: m.base,
                            payload: PluginPayloadView {
                                source: m.payload.source,
                                event_type: m.payload.event_type,
                                data: m.payload.data,
                                error: m.payload.error,
                                message: m.payload.message,
                            },
                        },
                    ),
                ),
            ],
        ),
        _ => (c, Seq::empty()),
    }
}

/// What comes of a call: a reply is kept and shown. With or without one, the
/// conversation is stored.
pub open spec fn on_reply(
    c: ConversationView,
    reply: Option<StreamResultView>,
    model_id: Option<Seq<char>>,
) -> (ConversationView, Seq<ConversationActionView>) {
    match reply {
        Some(result) => (
            c.with(kept_reply(result, model_id)).counted(),
            seq![
                ConversationActionView::Emit(shown_reply(result)),
                ConversationActionView::Persist,
            ],
        ),
        None => (c.counted(), seq![ConversationActionView::Persist]),
    }
}

impl Conversation {
    /// A conversation in which nothing has been said.
    pub fn new(system_prompt: Option<String>) -> (res: Conversation)
        ensures
            res@ == (ConversationView {
                messages: Seq::empty(),
                message_count: 0,
                system_prompt: system_prompt.deep_view(),
            }),
    {
        Conversation { messages: empty_list(), message_count: 0, system_prompt }
    }

    /// Keeps one more message.
    pub fn push(&mut self, m: Message)
        ensures
            final(self)@ == old(self)@.with(m@),
    {
        push_item(&mut self.messages, m);
    }

    /// Counts the messages before the conversation is stored.
    pub fn persist(&mut self)
        ensures
            final(self)@ == old(self)@.counted(),
    {
        let n: usize = self.messages.len();
        self.message_count = n as i64;
    }

    /// The request that the conversation makes.
    pub fn build_chat_request(&self) -> (res: ChatRequest)
        ensures
            res@ == (ChatRequestView {
                messages: plain_messages(self@.messages),
                system: self@.system_prompt,
            }),
    {
        plain_chat_request(&self.messages, self.system_prompt.dup())
    }

    /// Something has come in. Returns what is asked for, in order.
    pub fn handle_input(&mut self, input: EngineInput, model: &AgentModel) -> (res: Vec<
        ConversationAction,
    >)
        ensures
            (final(self)@, res.deep_view()) == on_input(old(self)@, input@, model@),
    {
        let ghost c = self@;
        let ghost view = input@;
        let mut actions: Vec<ConversationAction> = empty_list();
        match input {
            EngineInput::User(m) => {
                let content = m.payload.content;
                let mut msg = Message::new(MessageRole::User);
                msg.content = Some(content.dup());
                self.push(msg);
                let payload = UserPayload {
                    content,
                    images: empty_list(),
                    mode: UserMessageMode::Guide,
                    source: UserMessageSource::User,
                    client_message_id: None,
                };
                push_item(
                    &mut actions,
                    ConversationAction::Emit(OutputEvent::User(envelope(payload))),
                );
                let request = self.build_chat_request();
                let (name, options) = build_model_and_options(model);
                push_item(
                    &mut actions,
                    ConversationAction::Call(PlainCall { request, model: name, options }),
                );
            },
            EngineInput::Plugin(m) => {
                let event = OutputEvent::Plugin(
                    Envelope {
                        base: m.base,
                        payload: PluginPayload {
                            source: m.payload.source,
                            event_type: m.payload.event_type,
                            data: m.payload.data,
                            error: m.payload.error,
                            message: m.payload.message,
                        },
                    },
                );
                push_item(&mut actions, ConversationAction::Emit(event));
            },
            _ => {},
        }
        assert(actions.deep_view() =~= on_input(c, view, model@).1);
        actions
    }

    /// The model has replied, or could not be called. Returns what is asked for, in
    /// order.
    pub fn handle_reply(&mut self, reply: Option<StreamResult>, model_id: &Option<String>) -> (res:
        Vec<ConversationAction>)
        ensures
            (final(self)@, res.deep_view()) == on_reply(
                old(self)@,
                reply.deep_view(),
                model_id.deep_view(),
            ),
    {
        let ghost c = self@;
        let ghost view = reply.deep_view();
        let mut actions: Vec<ConversationAction> = empty_list();
        if let Some(result) = reply {
            self.push(build_assistant_message(&result, model_id));
            let none: Vec<ToolCallData> = empty_list();
            let payload = make_reply_payload(
                result.text.as_str(),
                result.reasoning.as_str(),
                &none,
                "stop",
                &result.usage,
            );
            push_item(
                &mut actions,
                ConversationAction::Emit(OutputEvent::Assistant(envelope(payload))),
            );
        }
        self.persist();
        push_item(&mut actions, ConversationAction::Persist);
        assert(actions.deep_view() =~= on_reply(c, view, model_id.deep_view()).1);
        actions
    }
}

/// A user message is never lost: it is part of the request, the newest message of
/// it, and it is stored even if the model cannot be called.
pub proof fn law_a_user_message_is_kept(
    c: ConversationView,
    input: EngineInputView,
    model: AgentModelView,
    model_id: Option<Seq<char>>,
)
    requires
        input is User,
    ensures
        ({
            let (asked, actions) = on_input(c, input, model);
            let request = actions[1]->Call_0.request;
            let (failed, last) = on_reply(asked, None, model_id);
            let text = Some(input->User_0.payload.content);
            &&& request.messages.len() == c.messages.len() + 1
            &&& request.messages.last().content == text
            &&& failed.messages.last().content == text
            &&& failed.messages == asked.messages
            &&& last == seq![ConversationActionView::Persist]
        }),
{
}

/// A user message joins the conversation with its text, is shown with its text, and the
/// model is called with the whole conversation and its system prompt, by its name at the
/// provider and without tools.
pub proof fn law_what_a_user_message_sets_off(
    c: ConversationView,
    input: EngineInputView,
    model: AgentModelView,
    i: int,
)
    requires
        input is User,
    ensures
        ({
            let (n, actions) = on_input(c, input, model);
            let text = input->User_0.payload.content;
            let shown = actions[0]->Emit_0->User_0.payload;
            let call = actions[1]->Call_0;
            &&& n.messages.len() == c.messages.len() + 1
            &&& n.messages.drop_last() == c.messages
            &&& n.messages.last().role == MessageRole::User
            &&& n.messages.last().content == Some(text)
            &&& n.system_prompt == c.system_prompt
            &&& n.message_count == c.message_count
            &&& actions.len() == 2
            &&& actions[0] is Emit
            &&& actions[0]->Emit_0 is User
            &&& shown.content == text
            &&& shown.mode == UserMessageMode::Guide
            &&& shown.source == UserMessageSourceView::User
            &&& actions[1] is Call
            &&& call.request.system == c.system_prompt
            &&& call.request.messages.len() == n.messages.len()
            &&& 0 <= i < n.messages.len() ==> copies(call.request.messages[i], n.messages[i])
            &&& call.options.tools is None
            &&& call.options.thinking_type == model.thinking_type
            &&& call.options.reasoning_effort == model.reasoning_effort
            &&& model.model_id is Some && second_segment(model.model_id->0, '/') is Some
                ==> call.model == second_segment(model.model_id->0, '/')->0
            &&& model.model_id is None || second_segment(model.model_id->0, '/') is None
                ==> call.model.len() == 0
        }),
{
    reveal_strlit("");
    let (n, actions) = on_input(c, input, model);
    assert(n.messages.drop_last() =~= c.messages);
    if 0 <= i < n.messages.len() {
        law_a_plain_request_is_the_history(n.messages, i);
    }
}

/// A notice of a plugin is shown as it came, and nothing else that comes in has any
/// effect.
pub proof fn law_what_else_comes_in(
    c: ConversationView,
    input: EngineInputView,
    model: AgentModelView,
)
    requires
        !(input is User),
    ensures
        ({
            let (n, actions) = on_input(c, input, model);
            let shown = actions[0]->Emit_0->Plugin_0;
            let sent = input->Plugin_0;
            &&& n == c
            &&& !(input is Plugin) ==> actions.len() == 0
            &&& input is Plugin ==> {
                &&& actions.len() == 1
                &&& actions[0] is Emit
                &&& actions[0]->Emit_0 is Plugin
                &&& shown.base == sent.base
                &&& shown.payload.source == sent.payload.source
                &&& shown.payload.event_type == sent.payload.event_type
                &&& shown.payload.data == sent.payload.data
                &&& shown.payload.error == sent.payload.error
                &&& shown.payload.message == sent.payload.message
            }
        }),
{
}

/// A reply joins the conversation and is shown, with what it says and thinks, under the
/// model that gave it. With or without one the conversation is then stored, and the count
/// of its messages is right.
pub proof fn law_what_a_reply_sets_off(
    c: ConversationView,
    result: StreamResultView,
    model_id: Option<Seq<char>>,
)
    ensures
        ({
            let (n, actions) = on_reply(c, Some(result), model_id);
            let kept = n.messages.last();
            let shown = actions[0]->Emit_0->Assistant_0.payload;
            let text = if result.text.len() > 0 {
                Some(result.text)
            } else {
                None
            };
            let reasoning = if result.reasoning.len() > 0 {
                Some(result.reasoning)
            } else {
                None
            };
            &&& n.messages.len() == c.messages.len() + 1
            &&& n.messages.drop_last() == c.messages
            &&& kept.role == MessageRole::Assistant
            &&& kept.content == text
            &&& kept.reasoning == reasoning
            &&& kept.model_id == model_id
            &&& kept.finish_reason == Some("stop"@)
            &&& n.messages.len() <= i64::MAX ==> n.message_count == n.messages.len()
            &&& n.system_prompt == c.system_prompt
            &&& actions.len() == 2
            &&& actions[0] is Emit
            &&& actions[0]->Emit_0 is Assistant
            &&& shown.content == text
            &&& shown.reasoning == reasoning
            &&& shown.tool_calls is None
            &&& shown.finish_reason == Some("stop"@)
            &&& shown.prompt_tokens == result.usage.prompt_tokens
            &&& shown.completion_tokens == result.usage.completion_tokens
            &&& shown.total_tokens == result.usage.total_tokens
            &&& actions[1] is Persist
        }),
        ({
            let (n, actions) = on_reply(c, None, model_id);
            &&& n.messages == c.messages
            &&& n.messages.len() <= i64::MAX ==> n.message_count == n.messages.len()
            &&& n.system_prompt == c.system_prompt
            &&& actions.len() == 1
            &&& actions[0] is Persist
        }),
{
    let (n, actions) = on_reply(c, Some(result), model_id);
    assert(n.messages.drop_last() =~= c.messages);
}

} // verus!
