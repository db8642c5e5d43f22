//! Events become stored messages, and stored messages become events again.
//!
//! Only user messages, replies of the model and tool results enter the history.
//! What is stored is what passed the plugins, so that the history, the user and
//! the next request all see the same.
use crate::emit::set_seq;
use crate::json::{args_in, json_text, or_null, parse_args};
use crate::message::{
    AssistantPayload, AssistantPayloadView, Cost, Envelope, EnvelopeView, EventBase, EventBaseView,
    ImageContent, ImageContentView, Message, MessageKind, MessageRole, MessageView, OutputEvent,
    OutputEventView, Timestamp, ToolCallData, ToolCallDataView, ToolCallPayload,
    ToolCallPayloadView, ToolResultPayload, ToolResultPayloadView, UserMessage, UserMessageMode,
    UserMessageSource, UserMessageSourceView, UserMessageView, UserPayload, UserPayloadView,
};
use crate::model::{empty_list, push_item, Dup};
use crate::normalize::{all_normalized, failed_images, kept_images, normalize_images};
use crate::text::{blank, concat3, is_blank};
use vstd::prelude::*;

verus! {

/// Who pays for a reply, and how much.
pub struct Bill {
    /// The model that gave the reply.
    pub model_id: String,
    /// What the reply cost.
    pub cost: Cost,
}

/// The mathematical value of a [`Bill`].
pub struct BillView {
    pub model_id: Seq<char>,
    pub cost: Cost,
}

impl View for Bill {
    type V = BillView;

    open spec fn view(&self) -> BillView {
        BillView { model_id: self.model_id@, cost: self.cost }
    }
}

/// The value of an optional bill.
pub open spec fn bill_view(bill: Option<&Bill>) -> Option<BillView> {
    match bill {
        Some(b) => Some(b@),
        None => None,
    }
}

// ---- from events to messages ----

/// A message of a role that holds nothing yet.
pub open spec fn blank_message(role: MessageRole) -> MessageView {
    MessageView {
        id: None,
        session_id: ""@,
        model_id: None,
        role,
        content: None,
        images: Seq::empty(),
        reasoning: None,
        tool_call_id: None,
        tool_calls: None,
        tool_name: None,
        finish_reason: None,
        timestamp: Timestamp { bits: 0 },
        prompt_tokens: 0,
        completion_tokens: 0,
        reasoning_tokens: 0,
        cached_tokens: 0,
        cost: Cost { bits: 0 },
        seq: 0,
        kind: MessageKind::Message,
    }
}

impl Message {
    /// A message of a role that holds nothing yet.
    pub fn new(role: MessageRole) -> (res: Message)
        ensures
            res@ == blank_message(role),
    {
        Message {
            id: None,
            session_id: "".to_owned(),
            model_id: None,
            role,
            content: None,
            images: empty_list(),
            reasoning: None,
            tool_call_id: None,
            tool_calls: None,
            tool_name: None,
            finish_reason: None,
            timestamp: Timestamp { bits: 0 },
            prompt_tokens: 0,
            completion_tokens: 0,
            reasoning_tokens: 0,
            cached_tokens: 0,
            cost: Cost { bits: 0 },
            seq: 0,
            kind: MessageKind::Message,
        }
    }
}

/// A tool call as it is stored.
pub open spec fn call_data(call: ToolCallPayloadView) -> ToolCallDataView {
    ToolCallDataView { id: call.tool_call_id, name: call.tool_name, arguments: call.tool_args }
}

/// Tool calls as they are stored; an empty list is none at all.
pub open spec fn stored_calls(calls: Option<Seq<ToolCallPayloadView>>) -> Option<
    Seq<ToolCallDataView>,
> {
    match calls {
        Some(list) if list.len() > 0 => Some(list.map_values(|c| call_data(c))),
        _ => None,
    }
}

/// The text that is stored with a reply. A model refuses a history in which a
/// reply has neither text nor tool calls, so such a reply gets an empty text.
pub open spec fn stored_content(
    content: Option<Seq<char>>,
    calls: Option<Seq<ToolCallDataView>>,
) -> Option<Seq<char>> {
    if calls is None && content is None {
        Some(""@)
    } else {
        content
    }
}

/// A reply as it is stored.
pub open spec fn assistant_message_of(
    p: AssistantPayloadView,
    bill: Option<BillView>,
) -> MessageView {
    let calls = stored_calls(p.tool_calls);
    MessageView {
        content: stored_content(p.content, calls),
        reasoning: p.reasoning,
        tool_calls: calls,
        finish_reason: p.finish_reason,
        prompt_tokens: p.prompt_tokens,
        completion_tokens: p.completion_tokens,
        reasoning_tokens: p.reasoning_tokens,
        cached_tokens: p.cached_tokens,
        model_id: match bill {
            Some(b) => Some(b.model_id),
            None => None,
        },
        cost: match bill {
            Some(b) => b.cost,
            None => Cost { bits: 0 },
        },
        ..blank_message(MessageRole::Assistant)
    }
}

/// The message that an event enters the history as; `None` for the events that
/// do not.
pub open spec fn message_of(event: OutputEventView, bill: Option<BillView>) -> Option<
    MessageView,
> {
    match event {
        OutputEventView::User(m) => Some(
            MessageView {
                content: Some(m.payload.content),
                images: m.payload.images,
                ..blank_message(MessageRole::User)
            },
        ),
        OutputEventView::Assistant(m) => Some(assistant_message_of(m.payload, bill)),
        OutputEventView::ToolResult(m) => Some(
            MessageView {
                tool_call_id: Some(m.payload.tool_call_id),
                tool_name: Some(m.payload.tool_name),
                content: Some(m.payload.content),
                ..blank_message(MessageRole::Tool)
            },
        ),
        _ => None,
    }
}

/// Tool calls as they are stored.
fn calls_to_data(calls: &Vec<ToolCallPayload>) -> (res: Vec<ToolCallData>)
    ensures
        res.deep_view() == calls.deep_view().map_values(|c| call_data(c)),
{
    let mut res: Vec<ToolCallData> = empty_list();
    let mut i: usize = 0;
    while i < calls.len()
        invariant
            i <= calls.len(),
            res.deep_view() == calls.deep_view().take(i as int).map_values(|c| call_data(c)),
        decreases calls.len() - i,
    {
        let call = &calls[i];
        push_item(
            &mut res,
            ToolCallData {
                id: call.tool_call_id.dup(),
                name: call.tool_name.dup(),
                arguments: call.tool_args.dup(),
            },
        );
        i += 1;
        assert(res.deep_view() =~= calls.deep_view().take(i as int).map_values(|c| call_data(c)));
    }
    assert(calls.deep_view().take(i as int) =~= calls.deep_view());
    res
}

/// The message that an event enters the history as.
pub fn event_to_message(event: &OutputEvent, bill: Option<&Bill>) -> (res: Option<Message>)
    ensures
        res.deep_view() == message_of(event@, bill_view(bill)),
{
    match event {
        OutputEvent::User(m) => {
            let mut msg = Message::new(MessageRole::User);
            msg.content = Some(m.payload.content.dup());
            msg.images = m.payload.images.dup();
            Some(msg)
        },
        OutputEvent::Assistant(m) => {
            let p = &m.payload;
            let mut msg = Message::new(MessageRole::Assistant);
            msg.content = p.content.dup();
            msg.reasoning = p.reasoning.dup();
            if let Some(calls) = &p.tool_calls {
                if calls.len() > 0 {
                    msg.tool_calls = Some(calls_to_data(calls));
                }
            }
            msg.finish_reason = p.finish_reason.dup();
            msg.prompt_tokens = p.prompt_tokens;
            msg.completion_tokens = p.completion_tokens;
            msg.reasoning_tokens = p.reasoning_tokens;
            msg.cached_tokens = p.cached_tokens;
            if let Some(b) = bill {
                msg.model_id = Some(b.model_id.dup());
                msg.cost = b.cost;
            }
            if msg.tool_calls.is_none() && msg.content.is_none() {
                msg.content = Some("".to_owned());
            }
            Some(msg)
        },
        OutputEvent::ToolResult(m) => {
            let mut msg = Message::new(MessageRole::Tool);
            msg.tool_call_id = Some(m.payload.tool_call_id.dup());
            msg.tool_name = Some(m.payload.tool_name.dup());
            msg.content = Some(m.payload.content.dup());
            Some(msg)
        },
        _ => None,
    }
}

/// A stored reply never lacks both text and tool calls, and never has an empty
/// list of tool calls.
pub proof fn law_stored_reply_is_never_empty(event: OutputEventView, bill: Option<BillView>)
    requires
        event is Assistant,
    ensures
        ({
            let m = message_of(event, bill)->0;
            &&& message_of(event, bill) is Some
            &&& m.content is Some || m.tool_calls is Some
            &&& m.tool_calls is Some ==> m.tool_calls->0.len() > 0
        }),
{
}

// ---- the way into the history ----

/// What becomes of an event that is to enter the history, once the plugins have
/// seen it.
pub enum Emission {
    /// A plugin blocked it: it is neither stored nor shown.
    Blocked,
    /// It is shown, but is not of a kind that is stored.
    Shown(OutputEvent),
    /// It is stored first, and then shown.
    Stored(OutputEvent, Message),
}

/// The mathematical value of an [`Emission`].
pub enum EmissionView {
    Blocked,
    Shown(OutputEventView),
    Stored(OutputEventView, MessageView),
}

impl View for Emission {
    type V = EmissionView;

    open spec fn view(&self) -> EmissionView {
        match self {
            Emission::Blocked => EmissionView::Blocked,
            Emission::Shown(event) => EmissionView::Shown(event@),
            Emission::Stored(event, msg) => EmissionView::Stored(event@, msg@),
        }
    }
}

/// What becomes of an event, given what the plugins left of it.
pub open spec fn emission_of(
    intercepted: Option<OutputEventView>,
    bill: Option<BillView>,
) -> EmissionView {
    match intercepted {
        None => EmissionView::Blocked,
        Some(event) => match message_of(event, bill) {
            None => EmissionView::Shown(event),
            Some(msg) => EmissionView::Stored(event, msg),
        },
    }
}

/// Decides what becomes of an event, given what the plugins left of it. The
/// message is made of the event as the plugins left it.
pub fn emission(intercepted: Option<OutputEvent>, bill: Option<&Bill>) -> (res: Emission)
    ensures
        res@ == emission_of(intercepted.deep_view(), bill_view(bill)),
{
    match intercepted {
        None => Emission::Blocked,
        Some(event) => match event_to_message(&event, bill) {
            None => Emission::Shown(event),
            Some(msg) => Emission::Stored(event, msg),
        },
    }
}

/// Tool calls as a reply holds them that is to be stored; an empty list is none at all.
pub open spec fn held_calls(calls: Seq<ToolCallDataView>) -> Option<Seq<ToolCallPayloadView>> {
    if calls.len() == 0 {
        None
    } else {
        Some(
            calls.map_values(
                |c: ToolCallDataView|
                    ToolCallPayloadView {
                        tool_call_id: c.id,
                        tool_name: c.name,
                        tool_args: c.arguments,
                    },
            ),
        )
    }
}

/// A reply with given tool calls in place of its own. Any other event stays as it is.
pub open spec fn with_calls(event: OutputEventView, calls: Seq<ToolCallDataView>) -> OutputEventView {
    match event {
        OutputEventView::Assistant(m) => OutputEventView::Assistant(
            EnvelopeView {
                payload: AssistantPayloadView { tool_calls: held_calls(calls), ..m.payload },
                ..m
            },
        ),
        _ => event,
    }
}

/// Puts tool calls in a reply, in place of its own.
pub fn put_calls(event: OutputEvent, calls: &Vec<ToolCallData>) -> (res: OutputEvent)
    ensures
        res@ == with_calls(event@, calls.deep_view()),
{
    match event {
        OutputEvent::Assistant(m) => {
            let mut m = m;
            if calls.len() == 0 {
                m.payload.tool_calls = None;
                return OutputEvent::Assistant(m);
            }
            let ghost all = calls.deep_view();
            let mut held: Vec<ToolCallPayload> = empty_list();
            let mut i: usize = 0;
            while i < calls.len()
                invariant
                    i <= calls.len(),
                    all == calls.deep_view(),
                    held.deep_view() == Seq::new(
                        i as nat,
                        |k: int|
                            ToolCallPayloadView {
                                tool_call_id: all[k].id,
                                tool_name: all[k].name,
                                tool_args: all[k].arguments,
                            },
                    ),
                decreases calls.len() - i,
            {
                let call = &calls[i];
                push_item(
                    &mut held,
                    ToolCallPayload {
                        tool_call_id: call.id.dup(),
                        tool_name: call.name.dup(),
                        tool_args: call.arguments.dup(),
                    },
                );
                i += 1;
                assert(held.deep_view() =~= Seq::new(
                    i as nat,
                    |k: int|
                        ToolCallPayloadView {
                            tool_call_id: all[k].id,
                            tool_name: all[k].name,
                            tool_args: all[k].arguments,
                        },
                ));
            }
            assert(held.deep_view() =~= held_calls(all)->0);
            m.payload.tool_calls = Some(held);
            OutputEvent::Assistant(m)
        },
        event => event,
    }
}

/// Decides what becomes of a reply, given what the plugins left of it and the tool
/// calls that they left one by one. The plugins may change what the reply says as a
/// whole, but not what it calls: the calls that are shown and stored are the ones that
/// are run.
pub fn reply_emission(
    intercepted: Option<OutputEvent>,
    calls: &Vec<ToolCallData>,
    bill: Option<&Bill>,
) -> (res: Emission)
    ensures
        res@ == match intercepted.deep_view() {
            None => EmissionView::Blocked,
            Some(event) => emission_of(
                Some(with_calls(event, calls.deep_view())),
                bill_view(bill),
            ),
        },
{
    match intercepted {
        None => Emission::Blocked,
        Some(event) => emission(Some(put_calls(event, calls)), bill),
    }
}

/// Whatever the plugins made of a reply: where it is stored as a reply, it is stored and
/// shown with the calls that they left one by one, and with no others. A message of
/// another kind holds no calls.
pub proof fn law_a_stored_reply_holds_the_given_calls(
    event: OutputEventView,
    calls: Seq<ToolCallDataView>,
    bill: Option<BillView>,
)
    ensures
        event is Assistant ==> {
            let e = emission_of(Some(with_calls(event, calls)), bill);
            &&& e is Stored
            &&& e->Stored_0 == with_calls(event, calls)
            &&& e->Stored_1.tool_calls == if calls.len() == 0 {
                None
            } else {
                Some(calls)
            }
        },
        !(event is Assistant) ==> with_calls(event, calls) == event && match emission_of(
            Some(event),
            bill,
        ) {
            EmissionView::Stored(_, msg) => msg.tool_calls is None,
            _ => true,
        },
{
    if event is Assistant && calls.len() > 0 {
        let held = held_calls(calls)->0;
        assert(held.map_values(|c| call_data(c)) =~= calls);
    }
}

/// An event as it is shown once storing its message has succeeded or failed: one
/// that was stored carries its place in the history.
pub open spec fn shown_after(event: OutputEventView, stored: Option<i64>) -> OutputEventView {
    match stored {
        Some(seq) => event.at_seq(seq),
        None => event,
    }
}

/// The event to show once storing its message has succeeded or failed. A failure
/// does not keep the event from the user.
pub fn after_store(event: OutputEvent, stored: Option<i64>) -> (res: OutputEvent)
    ensures
        res@ == shown_after(event@, stored),
{
    match stored {
        Some(seq) => set_seq(event, seq),
        None => event,
    }
}

// ---- user messages ----

/// What stands in a message for images that could not be used.
pub const IMAGE_PROCESS_FAILED_PLACEHOLDER: &'static str = "[图片已省略：图片处理失败]";

/// A text with a placeholder after it. A text with nothing in it gives way to the
/// placeholder.
pub open spec fn with_placeholder(content: Seq<char>, placeholder: Seq<char>) -> Seq<char> {
    if blank(content) {
        placeholder
    } else {
        content + "\n\n"@ + placeholder
    }
}

/// Puts a placeholder after a text.
pub fn append_placeholder(content: &str, placeholder: &str) -> (res: String)
    ensures
        res@ == with_placeholder(content@, placeholder@),
{
    if is_blank(content) {
        placeholder.to_owned()
    } else {
        concat3(content, "\n\n", placeholder)
    }
}

/// A user message whose images have been normalized: those that could be kept
/// replace the originals, and a placeholder stands for the others.
pub open spec fn throttled(
    msg: UserMessageView,
    kept: Seq<ImageContentView>,
    failed: nat,
) -> UserMessageView {
    EnvelopeView {
        base: msg.base,
        payload: UserPayloadView {
            content: if failed > 0 {
                with_placeholder(msg.payload.content, IMAGE_PROCESS_FAILED_PLACEHOLDER@)
            } else {
                msg.payload.content
            },
            images: kept,
            ..msg.payload
        },
    }
}

/// Writes into a user message what normalizing its images came to.
pub fn apply_throttle(msg: UserMessage, kept: Vec<ImageContent>, failed: usize) -> (res:
    UserMessage)
    ensures
        res@ == throttled(msg@, kept.deep_view(), failed as nat),
{
    let mut res = msg;
    if failed > 0 {
        res.payload.content = append_placeholder(
            res.payload.content.as_str(),
            IMAGE_PROCESS_FAILED_PLACEHOLDER,
        );
    }
    res.payload.images = kept;
    res
}

/// Makes a user message ready for the history: its images are normalized, and
/// what came of it stands in the event itself, so that the user sees what is
/// stored.
pub fn throttle_images(msg: UserMessage) -> (res: UserMessage)
    ensures
        exists|outcomes: Seq<Option<ImageContentView>>|
            {
                &&& #[trigger] all_normalized(msg@.payload.images, outcomes)
                &&& res@ == throttled(msg@, kept_images(outcomes), failed_images(outcomes))
            },
{
    let (kept, failed) = normalize_images(&msg.payload.images);
    let ghost outcomes = choose|outcomes: Seq<Option<ImageContentView>>|
        {
            &&& #[trigger] all_normalized(msg.payload.images.deep_view(), outcomes)
            &&& kept.deep_view() == kept_images(outcomes)
            &&& failed == failed_images(outcomes)
        };
    assert(all_normalized(msg@.payload.images, outcomes));
    apply_throttle(msg, kept, failed)
}

// ---- from messages to events ----

/// A stored tool call as events show it.
pub open spec fn call_payload(call: ToolCallDataView) -> ToolCallPayloadView {
    ToolCallPayloadView {
        tool_call_id: call.id,
        tool_name: call.name,
        tool_args: or_null(json_text(call.arguments)),
    }
}

/// Stored tool calls as events show them; an empty list is none at all.
pub open spec fn shown_calls(calls: Option<Seq<ToolCallDataView>>) -> Option<
    Seq<ToolCallPayloadView>,
> {
    match calls {
        Some(list) if list.len() > 0 => Some(list.map_values(|c| call_payload(c))),
        _ => None,
    }
}

/// Stored tool calls as events show them.
pub fn calls_to_payloads(calls: &Vec<ToolCallData>) -> (res: Vec<ToolCallPayload>)
    ensures
        res.deep_view() == calls.deep_view().map_values(|c| call_payload(c)),
{
    let mut res: Vec<ToolCallPayload> = empty_list();
    let mut i: usize = 0;
    while i < calls.len()
        invariant
            i <= calls.len(),
            res.deep_view() == calls.deep_view().take(i as int).map_values(|c| call_payload(c)),
        decreases calls.len() - i,
    {
        let call = &calls[i];
        push_item(
            &mut res,
            ToolCallPayload {
                tool_call_id: call.id.dup(),
                tool_name: call.name.dup(),
                tool_args: parse_args(call.arguments.as_str()),
            },
        );
        i += 1;
        assert(res.deep_view() =~= calls.deep_view().take(i as int).map_values(
            |c| call_payload(c),
        ));
    }
    assert(calls.deep_view().take(i as int) =~= calls.deep_view());
    res
}

/// Stored tool calls as events show them.
pub fn parse_tool_calls(calls: Option<&Vec<ToolCallData>>) -> (res: Option<Vec<ToolCallPayload>>)
    ensures
        res.deep_view() == shown_calls(
            match calls {
                Some(list) => Some(list.deep_view()),
                None => None,
            },
        ),
{
    match calls {
        Some(list) if list.len() > 0 => Some(calls_to_payloads(list)),
        _ => None,
    }
}

/// An optional text, or else the empty text.
pub open spec fn or_empty(s: Option<Seq<char>>) -> Seq<char> {
    match s {
        Some(t) => t,
        None => ""@,
    }
}

/// An optional text, or else the empty text.
pub fn text_or_empty(s: &Option<String>) -> (res: String)
    ensures
        res@ == or_empty(s.deep_view()),
{
    match s {
        Some(t) => t.dup(),
        None => "".to_owned(),
    }
}

/// The base of the event that a message is replayed as.
pub open spec fn replay_base(msg: MessageView) -> EventBaseView {
    EventBaseView {
        id: ""@,
        seq: Some(msg.seq),
        timestamp: msg.timestamp,
        session_id: Some(msg.session_id),
    }
}

/// The user message that a stored one is replayed as. Mode and source are not
/// stored: it counts as an ordinary message of the user.
pub open spec fn replay_user(msg: MessageView) -> UserPayloadView {
    UserPayloadView {
        content: or_empty(msg.content),
        images: msg.images,
        mode: UserMessageMode::Guide,
        source: UserMessageSourceView::User,
        client_message_id: None,
    }
}

/// The event that a message is replayed as; `None` for the system prompt, which
/// is no part of the conversation.
pub open spec fn event_of(msg: MessageView) -> Option<OutputEventView> {
    let base = replay_base(msg);
    match msg.role {
        MessageRole::User => Some(
            OutputEventView::User(EnvelopeView { base, payload: replay_user(msg) }),
        ),
        MessageRole::Assistant => Some(
            OutputEventView::Assistant(
                EnvelopeView {
                    base,
                    payload: AssistantPayloadView {
                        content: msg.content,
                        reasoning: msg.reasoning,
                        tool_calls: shown_calls(msg.tool_calls),
                        finish_reason: msg.finish_reason,
                        completion_tokens: msg.completion_tokens,
                        prompt_tokens: msg.prompt_tokens,
                        total_tokens: (msg.prompt_tokens + msg.completion_tokens) as i64,
                        reasoning_tokens: msg.reasoning_tokens,
                        cached_tokens: msg.cached_tokens,
                    },
                },
            ),
        ),
        MessageRole::Tool => Some(
            OutputEventView::ToolResult(
                EnvelopeView {
                    base,
                    payload: ToolResultPayloadView {
                        tool_call_id: or_empty(msg.tool_call_id),
                        tool_name: or_empty(msg.tool_name),
                        content: or_empty(msg.content),
                    },
                },
            ),
        ),
        MessageRole::System => None,
    }
}

/// Whether a message can be replayed: the token counts of a reply have a sum.
pub open spec fn summable(msg: MessageView) -> bool {
    msg.role == MessageRole::Assistant ==> i64::MIN <= msg.prompt_tokens + msg.completion_tokens <= i64::MAX
}

/// The user message that a stored one is replayed as.
pub fn replay_user_payload(msg: &Message) -> (res: UserPayload)
    ensures
        res@ == replay_user(msg@),
{
    UserPayload {
        content: text_or_empty(&msg.content),
        images: msg.images.dup(),
        mode: UserMessageMode::Guide,
        source: UserMessageSource::User,
        client_message_id: None,
    }
}

/// The event that a message is replayed as.
pub fn message_to_event(msg: &Message) -> (res: Option<OutputEvent>)
    requires
        summable(msg@),
    ensures
        res.deep_view() == event_of(msg@),
{
    let base = EventBase {
        id: "".to_owned(),
        seq: Some(msg.seq),
        timestamp: msg.timestamp,
        session_id: Some(msg.session_id.dup()),
    };
    match msg.role {
        MessageRole::User => Some(
            OutputEvent::User(Envelope { base, payload: replay_user_payload(msg) }),
        ),
        MessageRole::Assistant => Some(
            OutputEvent::Assistant(
                Envelope {
                    base,
                    payload: AssistantPayload {
                        content: msg.content.dup(),
                        reasoning: msg.reasoning.dup(),
                        tool_calls: parse_tool_calls(msg.tool_calls.as_ref()),
                        finish_reason: msg.finish_reason.dup(),
                        completion_tokens: msg.completion_tokens,
                        prompt_tokens: msg.prompt_tokens,
                        total_tokens: msg.prompt_tokens + msg.completion_tokens,
                        reasoning_tokens: msg.reasoning_tokens,
                        cached_tokens: msg.cached_tokens,
                    },
                },
            ),
        ),
        MessageRole::Tool => Some(
            OutputEvent::ToolResult(
                Envelope {
                    base,
                    payload: ToolResultPayload {
                        tool_call_id: text_or_empty(&msg.tool_call_id),
                        tool_name: text_or_empty(&msg.tool_name),
                        content: text_or_empty(&msg.content),
                    },
                },
            ),
        ),
        MessageRole::System => None,
    }
}

/// The events that a history is replayed as, oldest first; the history comes
/// newest first.
pub open spec fn replay(messages: Seq<MessageView>) -> Seq<OutputEventView>
    decreases messages.len(),
{
    if messages.len() == 0 {
        Seq::empty()
    } else {
        let rest = replay(messages.drop_first());
        match event_of(messages.first()) {
            Some(event) => rest.push(event),
            None => rest,
        }
    }
}

/// Replays a history. It comes newest first, as a query with a cursor gives it;
/// the events come oldest first, as they did live.
pub fn messages_to_events(messages: Vec<Message>) -> (res: Vec<OutputEvent>)
    requires
        forall|i: int| 0 <= i < messages.len() ==> summable(#[trigger] messages.deep_view()[i]),
    ensures
        res.deep_view() == replay(messages.deep_view()),
{
    let ghost all = messages.deep_view();
    let mut res: Vec<OutputEvent> = empty_list();
    let mut i: usize = messages.len();
    assert(all.skip(i as int) =~= Seq::empty());
    while i > 0
        invariant
            i <= messages.len(),
            all == messages.deep_view(),
            forall|j: int| 0 <= j < messages.len() ==> summable(#[trigger] all[j]),
            res.deep_view() == replay(all.skip(i as int)),
        decreases i,
    {
        i -= 1;
        assert(all.skip(i as int).drop_first() =~= all.skip(i + 1));
        assert(all.skip(i as int).first() == all[i as int]);
        if let Some(event) = message_to_event(&messages[i]) {
            push_item(&mut res, event);
        }
    }
    assert(all.skip(0) =~= all);
    res
}

/// Every replayed event stands for one of the messages, at that message's place.
proof fn lemma_replay_sources(messages: Seq<MessageView>, k: int)
    requires
        0 <= k < replay(messages).len(),
    ensures
        exists|i: int|
            0 <= i < messages.len() && event_of(#[trigger] messages[i]) == Some(
                replay(messages)[k],
            ),
    decreases messages.len(),
{
    let rest = messages.drop_first();
    if k < replay(rest).len() {
        lemma_replay_sources(rest, k);
        let i = choose|i: int|
            0 <= i < rest.len() && event_of(#[trigger] rest[i]) == Some(replay(rest)[k]);
        assert(messages[i + 1] == rest[i]);
    } else {
        assert(event_of(messages[0]) == Some(replay(messages)[k]));
    }
}

/// A history that comes newest first is replayed oldest first.
pub proof fn law_replay_is_in_order(messages: Seq<MessageView>, a: int, b: int)
    requires
        forall|i: int, j: int|
            0 <= i < j < messages.len() ==> #[trigger] messages[i].seq > #[trigger] messages[j].seq,
        0 <= a < b < replay(messages).len(),
    ensures
        replay(messages)[a].base().seq is Some,
        replay(messages)[b].base().seq is Some,
        replay(messages)[a].base().seq->0 < replay(messages)[b].base().seq->0,
    decreases messages.len(),
{
    let rest = messages.drop_first();
    assert forall|i: int, j: int| 0 <= i < j < rest.len() implies #[trigger] rest[i].seq
        > #[trigger] rest[j].seq by {
        assert(messages[i + 1].seq > messages[j + 1].seq);
    }
    if b < replay(rest).len() {
        law_replay_is_in_order(rest, a, b);
    } else {
        lemma_replay_sources(rest, a);
        let i = choose|i: int|
            0 <= i < rest.len() && event_of(#[trigger] rest[i]) == Some(replay(rest)[a]);
        assert(messages[0].seq > messages[i + 1].seq);
    }
}

/// Every message but a system prompt is replayed, and nothing else is.
pub proof fn law_replay_leaves_out_only_system(messages: Seq<MessageView>)
    ensures
        replay(messages).len() == messages.filter(
            |m: MessageView| m.role != MessageRole::System,
        ).len(),
        replay(messages).len() <= messages.len(),
    decreases messages.len(),
{
    let keep = |m: MessageView| m.role != MessageRole::System;
    if messages.len() > 0 {
        let rest = messages.drop_first();
        law_replay_leaves_out_only_system(rest);
        assert(messages =~= seq![messages[0]] + rest);
        let one = seq![messages[0]];
        Seq::filter_distributes_over_add(one, rest, keep);
        assert(one.drop_last() =~= Seq::empty());
        reveal_with_fuel(Seq::filter, 2);
        assert(one.last() == messages[0]);
        assert(one.filter(keep).len() == if keep(messages[0]) {
            1nat
        } else {
            0nat
        });
    } else {
        reveal_with_fuel(Seq::filter, 1);
        assert(messages.filter(keep).len() == 0);
    }
}

/// The history of two stretches is the replay of the older one, then that of the
/// newer one: paging does not change what is replayed.
pub proof fn law_replay_by_pages(newer: Seq<MessageView>, older: Seq<MessageView>)
    ensures
        replay(newer + older) == replay(older) + replay(newer),
    decreases newer.len(),
{
    if newer.len() == 0 {
        assert(newer + older =~= older);
        assert(replay(older) + replay(newer) =~= replay(older));
    } else {
        assert((newer + older).drop_first() =~= newer.drop_first() + older);
        law_replay_by_pages(newer.drop_first(), older);
        assert(replay(newer + older) =~= replay(older) + replay(newer));
    }
}

/// The message as the store keeps it: with a place in the history, a time and
/// the session it belongs to.
pub open spec fn as_stored(
    msg: MessageView,
    id: Option<i64>,
    session_id: Seq<char>,
    timestamp: Timestamp,
    seq: i64,
) -> MessageView {
    MessageView { id, session_id, timestamp, seq, ..msg }
}

/// A user message is replayed with the text and the images it was stored with.
pub proof fn law_user_round_trip(
    event: OutputEventView,
    id: Option<i64>,
    session_id: Seq<char>,
    timestamp: Timestamp,
    seq: i64,
)
    requires
        event is User,
    ensures
        ({
            let msg = as_stored(message_of(event, None)->0, id, session_id, timestamp, seq);
            let back = event_of(msg)->0;
            &&& event_of(msg) is Some
            &&& back is User
            &&& back->User_0.payload.content == event->User_0.payload.content
            &&& back->User_0.payload.images == event->User_0.payload.images
            &&& back.base().seq == Some(seq)
            &&& back.base().session_id == Some(session_id)
        }),
{
}

/// A tool result is replayed as it was stored.
pub proof fn law_tool_result_round_trip(
    event: OutputEventView,
    id: Option<i64>,
    session_id: Seq<char>,
    timestamp: Timestamp,
    seq: i64,
)
    requires
        event is ToolResult,
    ensures
        ({
            let msg = as_stored(message_of(event, None)->0, id, session_id, timestamp, seq);
            event_of(msg) == Some(
                OutputEventView::ToolResult(
                    EnvelopeView {
                        base: replay_base(msg),
                        payload: event->ToolResult_0.payload,
                    },
                ),
            )
        }),
{
}

/// Whether the arguments of every call are JSON text that reads back as itself.
pub open spec fn args_read_back(calls: Option<Seq<ToolCallPayloadView>>) -> bool {
    calls is Some ==> forall|i: int|
        0 <= i < calls->0.len() ==> json_text((#[trigger] calls->0[i]).tool_args) == Some(
            calls->0[i].tool_args,
        )
}

/// A reply is replayed with the reasoning, the tool calls, the reason it ended and
/// the token counts it was stored with. Its text is kept too, but that a reply
/// with neither text nor tool calls has an empty text; the total is the sum of
/// what was sent and what came back.
pub proof fn law_reply_round_trip(
    event: OutputEventView,
    bill: Option<BillView>,
    id: Option<i64>,
    session_id: Seq<char>,
    timestamp: Timestamp,
    seq: i64,
)
    requires
        event is Assistant,
        args_read_back(event->Assistant_0.payload.tool_calls),
    ensures
        ({
            let msg = as_stored(message_of(event, bill)->0, id, session_id, timestamp, seq);
            let sent = event->Assistant_0.payload;
            let calls = match sent.tool_calls {
                Some(list) if list.len() > 0 => Some(list),
                _ => None,
            };
            event_of(msg) == Some(
                OutputEventView::Assistant(
                    EnvelopeView {
                        base: replay_base(msg),
                        payload: AssistantPayloadView {
                            content: if calls is None && sent.content is None {
                                Some(""@)
                            } else {
                                sent.content
                            },
                            tool_calls: calls,
                            total_tokens: (sent.prompt_tokens + sent.completion_tokens) as i64,
                            ..sent
                        },
                    },
                ),
            )
        }),
{
    let sent = event->Assistant_0.payload;
    match sent.tool_calls {
        Some(list) if list.len() > 0 => {
            let stored = list.map_values(|c| call_data(c));
            let shown = stored.map_values(|c| call_payload(c));
            assert forall|i: int| 0 <= i < list.len() implies shown[i] == list[i] by {
                assert(json_text(list[i].tool_args) == Some(list[i].tool_args));
            }
            assert(shown =~= list);
        },
        _ => {},
    }
}

/// An event that was stored looks the same live and replayed: it stands at the same
/// place and is of the same kind, and if it is a tool result it has the same payload,
/// if a user message the same text and images, if a reply the same reasoning and
/// token counts.
pub proof fn law_live_and_replay_agree(
    intercepted: OutputEventView,
    bill: Option<BillView>,
    id: Option<i64>,
    session_id: Seq<char>,
    timestamp: Timestamp,
    seq: i64,
)
    requires
        emission_of(Some(intercepted), bill) is Stored,
    ensures
        ({
            let event = emission_of(Some(intercepted), bill)->Stored_0;
            let msg = emission_of(Some(intercepted), bill)->Stored_1;
            let live = shown_after(event, Some(seq));
            let replayed = event_of(as_stored(msg, id, session_id, timestamp, seq))->0;
            &&& event == intercepted
            &&& event_of(as_stored(msg, id, session_id, timestamp, seq)) is Some
            &&& live.base().seq == replayed.base().seq
            &&& live is User == replayed is User
            &&& live is Assistant == replayed is Assistant
            &&& live is ToolResult == replayed is ToolResult
            &&& live is ToolResult ==> live->ToolResult_0.payload == replayed->ToolResult_0.payload
            &&& live is User ==> live->User_0.payload.content == replayed->User_0.payload.content
                && live->User_0.payload.images == replayed->User_0.payload.images
            &&& live is Assistant ==> live->Assistant_0.payload.reasoning
                == replayed->Assistant_0.payload.reasoning
                && live->Assistant_0.payload.prompt_tokens
                == replayed->Assistant_0.payload.prompt_tokens
                && live->Assistant_0.payload.completion_tokens
                == replayed->Assistant_0.payload.completion_tokens
        }),
{
}

/// A replayed reply calls the same tools in the same order, whatever their arguments
/// are; each call shows its arguments as they are read back, and as `null` where they
/// are no JSON.
pub proof fn law_replayed_calls_keep_their_identity(
    event: OutputEventView,
    bill: Option<BillView>,
    k: int,
)
    requires
        event is Assistant,
        event->Assistant_0.payload.tool_calls is Some,
        0 <= k < event->Assistant_0.payload.tool_calls->0.len(),
    ensures
        ({
            let sent = event->Assistant_0.payload.tool_calls->0;
            let back = event_of(message_of(event, bill)->0)->0->Assistant_0.payload.tool_calls;
            &&& back is Some
            &&& back->0.len() == sent.len()
            &&& back->0[k].tool_call_id == sent[k].tool_call_id
            &&& back->0[k].tool_name == sent[k].tool_name
            &&& back->0[k].tool_args == or_null(json_text(sent[k].tool_args))
        }),
{
}

// ---- what is stored and what is replayed, field by field ----

/// What is stored of an event is all there is in it. Of a user message the text and the
/// images; of a tool result the call it answers, the tool and the text; of a reply its
/// text (an empty one where it has neither text nor calls), its reasoning, every call in
/// order, why it ended, what it used, and who pays for it. Nothing else is stored.
pub proof fn law_what_is_stored_of_an_event(event: OutputEventView, bill: Option<BillView>, k: int)
    ensures
        ({
            let m = message_of(event, bill)->0;
            &&& message_of(event, bill) is Some <==> event is User || event is Assistant
                || event is ToolResult
            &&& event is User ==> {
                let p = event->User_0.payload;
                &&& m.role == MessageRole::User
                &&& m.content == Some(p.content)
                &&& m.images == p.images
                &&& m.tool_calls is None
                &&& m.tool_call_id is None
                &&& m.reasoning is None
            }
            &&& event is ToolResult ==> {
                let p = event->ToolResult_0.payload;
                &&& m.role == MessageRole::Tool
                &&& m.tool_call_id == Some(p.tool_call_id)
                &&& m.tool_name == Some(p.tool_name)
                &&& m.content == Some(p.content)
                &&& m.tool_calls is None
                &&& m.images.len() == 0
            }
            &&& event is Assistant ==> {
                let p = event->Assistant_0.payload;
                let calls = p.tool_calls is Some && p.tool_calls->0.len() > 0;
                &&& m.role == MessageRole::Assistant
                &&& p.content is Some ==> m.content == p.content
                &&& p.content is None && calls ==> m.content is None
                &&& p.content is None && !calls ==> m.content == Some(""@)
                &&& m.reasoning == p.reasoning
                &&& m.finish_reason == p.finish_reason
                &&& m.prompt_tokens == p.prompt_tokens
                &&& m.completion_tokens == p.completion_tokens
                &&& m.reasoning_tokens == p.reasoning_tokens
                &&& m.cached_tokens == p.cached_tokens
                &&& m.tool_call_id is None
                &&& m.images.len() == 0
                &&& m.tool_calls is Some <==> calls
                &&& calls ==> m.tool_calls->0.len() == p.tool_calls->0.len()
                &&& calls && 0 <= k < p.tool_calls->0.len() ==> {
                    &&& m.tool_calls->0[k].id == p.tool_calls->0[k].tool_call_id
                    &&& m.tool_calls->0[k].name == p.tool_calls->0[k].tool_name
                    &&& m.tool_calls->0[k].arguments == p.tool_calls->0[k].tool_args
                }
                &&& bill is Some ==> m.model_id == Some(bill->0.model_id) && m.cost == bill->0.cost
                &&& bill is None ==> m.model_id is None && m.cost.bits == 0
            }
            &&& message_of(event, bill) is Some ==> m.kind == MessageKind::Message
        }),
{
}

/// A message is replayed as an event of its kind that holds all that was stored, at the
/// place, the time and in the session it was stored with. A system prompt is not
/// replayed.
pub proof fn law_what_is_replayed_of_a_message(m: MessageView, k: int)
    ensures
        ({
            let e = event_of(m)->0;
            &&& event_of(m) is None <==> m.role == MessageRole::System
            &&& event_of(m) is Some ==> {
                &&& e.base().seq == Some(m.seq)
                &&& e.base().timestamp == m.timestamp
                &&& e.base().session_id == Some(m.session_id)
            }
            &&& m.role == MessageRole::User ==> {
                let p = e->User_0.payload;
                &&& e is User
                &&& m.content is Some ==> p.content == m.content->0
                &&& m.content is None ==> p.content.len() == 0
                &&& p.images == m.images
                &&& p.mode == UserMessageMode::Guide
                &&& p.source == UserMessageSourceView::User
                &&& p.client_message_id is None
            }
            &&& m.role == MessageRole::Tool ==> {
                let p = e->ToolResult_0.payload;
                &&& e is ToolResult
                &&& m.tool_call_id is Some ==> p.tool_call_id == m.tool_call_id->0
                &&& m.tool_name is Some ==> p.tool_name == m.tool_name->0
                &&& m.content is Some ==> p.content == m.content->0
                &&& m.tool_call_id is None ==> p.tool_call_id.len() == 0
                &&& m.tool_name is None ==> p.tool_name.len() == 0
                &&& m.content is None ==> p.content.len() == 0
            }
            &&& m.role == MessageRole::Assistant ==> {
                let p = e->Assistant_0.payload;
                let calls = m.tool_calls is Some && m.tool_calls->0.len() > 0;
                &&& e is Assistant
                &&& p.content == m.content
                &&& p.reasoning == m.reasoning
                &&& p.finish_reason == m.finish_reason
                &&& p.prompt_tokens == m.prompt_tokens
                &&& p.completion_tokens == m.completion_tokens
                &&& p.reasoning_tokens == m.reasoning_tokens
                &&& p.cached_tokens == m.cached_tokens
                &&& summable(m) ==> p.total_tokens == m.prompt_tokens + m.completion_tokens
                &&& p.tool_calls is Some <==> calls
                &&& calls ==> p.tool_calls->0.len() == m.tool_calls->0.len()
                &&& calls && 0 <= k < m.tool_calls->0.len() ==> {
                    &&& p.tool_calls->0[k].tool_call_id == m.tool_calls->0[k].id
                    &&& p.tool_calls->0[k].tool_name == m.tool_calls->0[k].name
                    &&& p.tool_calls->0[k].tool_args == args_in(m.tool_calls->0[k].arguments)
                }
            }
        }),
{
    reveal_strlit("");
}

/// A history that comes newest first is replayed from its end: the events are those of
/// its messages other than system prompts, each once, the last message first.
pub proof fn law_replay_turns_the_history_round(messages: Seq<MessageView>, i: int)
    ensures
        ({
            let kept = messages.filter(|m: MessageView| m.role != MessageRole::System);
            &&& replay(messages).len() == kept.len()
            &&& 0 <= i < kept.len() ==> Some(replay(messages)[i]) == event_of(
                kept[kept.len() - 1 - i],
            )
        }),
    decreases messages.len(),
{
    let keep = |m: MessageView| m.role != MessageRole::System;
    let kept = messages.filter(keep);
    law_replay_leaves_out_only_system(messages);
    if messages.len() > 0 {
        let rest = messages.drop_first();
        law_replay_turns_the_history_round(rest, i);
        let one = seq![messages[0]];
        assert(messages =~= one + rest);
        Seq::filter_distributes_over_add(one, rest, keep);
        assert(one.drop_last() =~= Seq::empty());
        reveal_with_fuel(Seq::filter, 2);
        assert(one.last() == messages[0]);
        let head = one.filter(keep);
        assert(head =~= if keep(messages[0]) {
            one
        } else {
            Seq::empty()
        });
        assert(kept =~= head + rest.filter(keep));
        if 0 <= i < kept.len() {
            if i < rest.filter(keep).len() {
                assert(kept[kept.len() - 1 - i] == rest.filter(keep)[rest.filter(keep).len() - 1
                    - i]);
                assert(replay(messages)[i] == replay(rest)[i]);
            } else {
                assert(kept[0] == messages[0]);
            }
        }
    } else {
        reveal_with_fuel(Seq::filter, 1);
    }
}

/// What the plugins block is neither stored nor shown; what they let pass is stored as
/// they left it where it is of a kind that is stored, and shown as they left it in any
/// case, with its place where it got one.
pub proof fn law_what_becomes_of_an_event(
    intercepted: Option<OutputEventView>,
    bill: Option<BillView>,
    stored: Option<i64>,
)
    ensures
        intercepted is None ==> emission_of(intercepted, bill) is Blocked,
        match intercepted {
            Some(event) => match message_of(event, bill) {
                Some(msg) => emission_of(intercepted, bill) == EmissionView::Stored(event, msg),
                None => emission_of(intercepted, bill) == EmissionView::Shown(event),
            },
            None => true,
        },
        match intercepted {
            Some(event) => {
                let shown = shown_after(event, stored);
                &&& stored is None ==> shown == event
                &&& stored is Some ==> shown.base().seq == stored
                &&& shown.with_base(event.base()) == event
                &&& shown.base().session_id == event.base().session_id
                &&& shown.base().id == event.base().id
            },
            None => true,
        },
{
}

/// Giving a reply other calls changes nothing else of it, and gives it exactly these.
pub proof fn law_other_calls_change_nothing_else(
    event: OutputEventView,
    calls: Seq<ToolCallDataView>,
    k: int,
)
    requires
        event is Assistant,
    ensures
        ({
            let was = event->Assistant_0.payload;
            let is = with_calls(event, calls)->Assistant_0.payload;
            &&& with_calls(event, calls) is Assistant
            &&& with_calls(event, calls).base() == event.base()
            &&& is.content == was.content
            &&& is.reasoning == was.reasoning
            &&& is.finish_reason == was.finish_reason
            &&& is.prompt_tokens == was.prompt_tokens
            &&& is.completion_tokens == was.completion_tokens
            &&& is.total_tokens == was.total_tokens
            &&& is.reasoning_tokens == was.reasoning_tokens
            &&& is.cached_tokens == was.cached_tokens
            &&& is.tool_calls is Some <==> calls.len() > 0
            &&& calls.len() > 0 ==> is.tool_calls->0.len() == calls.len()
            &&& 0 <= k < calls.len() ==> {
                &&& is.tool_calls->0[k].tool_call_id == calls[k].id
                &&& is.tool_calls->0[k].tool_name == calls[k].name
                &&& is.tool_calls->0[k].tool_args == calls[k].arguments
            }
        }),
{
}

/// A user message whose images have been normalized holds those that could be kept. Its
/// text is as it was, with a placeholder after it if some could not; a text with nothing
/// in it gives way. Everything else about it stays.
pub proof fn law_what_normalizing_does_to_a_message(
    msg: UserMessageView,
    kept: Seq<ImageContentView>,
    failed: nat,
)
    ensures
        ({
            let after = throttled(msg, kept, failed);
            let note = "[图片已省略：图片处理失败]"@;
            &&& after.base == msg.base
            &&& after.payload.images == kept
            &&& after.payload.mode == msg.payload.mode
            &&& after.payload.source == msg.payload.source
            &&& after.payload.client_message_id == msg.payload.client_message_id
            &&& failed == 0 ==> after.payload.content == msg.payload.content
            &&& failed > 0 && blank(msg.payload.content) ==> after.payload.content == note
            &&& failed > 0 && !blank(msg.payload.content) ==> after.payload.content
                == msg.payload.content + "\n\n"@ + note
        }),
{
}

} // verus!
