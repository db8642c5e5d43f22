//! What goes to the model, and what its replies become.
use crate::chat::{
    ChatMessage, ChatMessageView, ChatRequest, ChatRequestView, ModelConfig, ModelConfigView,
    StreamOptions, StreamOptionsView, StreamResult, StreamResultView, StreamUsage,
};
use crate::emit::{envelope, unsent};
use crate::history::{call_data, call_payload, calls_to_payloads};
use crate::json::{args_in, json_text, parse_args};
use crate::message::{
    AssistantPayload, AssistantPayloadView, Message, MessageRole, MessageView, OutputEvent,
    OutputEventView, ToolCallData, ToolCallDataView, ToolCallPayload,
};
use crate::model::{empty_list, lemma_filter, push_item, Dup};
use crate::text::{
    concat, find, lemma_find_bounds, lemma_lower_name_of_joined, lower_name, lowercase,
    split_at_first, split_once, to_lowercase,
};
use vstd::hash_set::StringHashSet;
use vstd::prelude::*;

verus! {

/// What a turn needs to know of its model.
#[derive(Debug)]
pub struct ResolvedModel {
    /// `provider/model`, as it was configured.
    pub model_id: String,
    /// The provider, in lower case.
    pub provider_id: String,
    /// The model's own name, without the provider.
    pub model: String,
    pub options: StreamOptions,
    /// The context limit; `None` where it is not known.
    pub context_length: Option<u32>,
}

/// The mathematical value of a [`ResolvedModel`].
#[verifier::ext_equal]
pub struct ResolvedModelView {
    pub model_id: Seq<char>,
    pub provider_id: Seq<char>,
    pub model: Seq<char>,
    pub options: StreamOptionsView,
    pub context_length: Option<u32>,
}

impl View for ResolvedModel {
    type V = ResolvedModelView;

    open spec fn view(&self) -> ResolvedModelView {
        ResolvedModelView {
            model_id: self.model_id@,
            provider_id: self.provider_id@,
            model: self.model@,
            options: self.options@,
            context_length: self.context_length,
        }
    }
}

impl DeepView for ResolvedModel {
    type V = ResolvedModelView;

    open spec fn deep_view(&self) -> ResolvedModelView {
        self@
    }
}

impl Dup for ResolvedModel {
    fn dup(&self) -> (res: Self) {
        ResolvedModel {
            model_id: self.model_id.dup(),
            provider_id: self.provider_id.dup(),
            model: self.model.dup(),
            options: self.options.dup(),
            context_length: self.context_length,
        }
    }
}

// ---- the request ----

/// The content of a tool result that stands in for one that never came.
pub const MISSING_RESULT: &'static str = "[工具执行被拦截或中断]";

/// The calls that a history holds a result for.
pub open spec fn answered_ids(history: Seq<MessageView>) -> Set<Seq<char>> {
    Set::new(
        |id: Seq<char>|
            exists|i: int|
                0 <= i < history.len() && (#[trigger] history[i]).role == MessageRole::Tool
                    && history[i].tool_call_id == Some(id),
    )
}

/// A stored message as the model reads it.
pub open spec fn chat_message_of(m: MessageView) -> ChatMessageView {
    ChatMessageView {
        role: m.role,
        content: m.content,
        images: m.images,
        reasoning: m.reasoning,
        tool_calls: m.tool_calls,
        tool_call_id: m.tool_call_id,
        tool_name: m.tool_name,
    }
}

/// The result that stands in for one that never came.
pub open spec fn missing_result(call: ToolCallDataView) -> ChatMessageView {
    ChatMessageView {
        role: MessageRole::Tool,
        content: Some(MISSING_RESULT@),
        images: Seq::empty(),
        reasoning: None,
        tool_calls: None,
        tool_call_id: Some(call.id),
        tool_name: Some(call.name),
    }
}

/// Whether a call needs a result to stand in: it can be answered, but is not.
pub open spec fn unanswered(call: ToolCallDataView, answered: Set<Seq<char>>) -> bool {
    call.id.len() > 0 && !answered.contains(call.id)
}

/// The results that stand in for those of some calls, in the order of the calls.
pub open spec fn missing_results(calls: Seq<ToolCallDataView>, answered: Set<Seq<char>>) -> Seq<
    ChatMessageView,
>
    decreases calls.len(),
{
    if calls.len() == 0 {
        Seq::empty()
    } else if unanswered(calls.last(), answered) {
        missing_results(calls.drop_last(), answered).push(missing_result(calls.last()))
    } else {
        missing_results(calls.drop_last(), answered)
    }
}

/// The calls that a message makes. Only a reply of the model makes any.
pub open spec fn calls_of(m: MessageView) -> Seq<ToolCallDataView> {
    if m.role == MessageRole::Assistant && m.tool_calls is Some {
        m.tool_calls->0
    } else {
        Seq::empty()
    }
}

/// A history as the model reads it: every message, and after a reply the results
/// that stand in for those which its calls never got.
pub open spec fn paired(history: Seq<MessageView>, answered: Set<Seq<char>>) -> Seq<
    ChatMessageView,
>
    decreases history.len(),
{
    if history.len() == 0 {
        Seq::empty()
    } else {
        paired(history.drop_last(), answered).push(chat_message_of(history.last()))
            + missing_results(calls_of(history.last()), answered)
    }
}

/// The request that a history and a system prompt make.
pub open spec fn chat_request_of(
    history: Seq<MessageView>,
    system: Option<Seq<char>>,
) -> ChatRequestView {
    ChatRequestView { messages: paired(history, answered_ids(history)), system }
}

/// Collects the calls that a history holds a result for.
fn collect_answered(history: &Vec<Message>) -> (res: StringHashSet)
    ensures
        res@ == answered_ids(history.deep_view()),
{
    let mut res = StringHashSet::new();
    let ghost all = history.deep_view();
    let mut i: usize = 0;
    assert(res@ =~= answered_ids(all.take(0)));
    while i < history.len()
        invariant
            i <= history.len(),
            all == history.deep_view(),
            res@ == answered_ids(all.take(i as int)),
        decreases history.len() - i,
    {
        let m = &history[i];
        let ghost before = answered_ids(all.take(i as int));
        proof {
            let upto = all.take(i + 1);
            assert(upto.last() == m@);
            assert forall|id: Seq<char>| answered_ids(upto).contains(id) <==> (before.contains(id)
                || (m@.role == MessageRole::Tool && m@.tool_call_id == Some(id))) by {
                if before.contains(id) {
                    let j = choose|j: int|
                        0 <= j < i && (#[trigger] all.take(i as int)[j]).role == MessageRole::Tool
                            && all.take(i as int)[j].tool_call_id == Some(id);
                    assert(upto[j] == all.take(i as int)[j]);
                }
                if m@.role == MessageRole::Tool && m@.tool_call_id == Some(id) {
                    assert(upto[i as int] == m@);
                }
                if answered_ids(upto).contains(id) {
                    let j = choose|j: int|
                        0 <= j < upto.len() && (#[trigger] upto[j]).role == MessageRole::Tool
                            && upto[j].tool_call_id == Some(id);
                    if j < i {
                        assert(all.take(i as int)[j] == upto[j]);
                    }
                }
            }
        }
        if matches!(m.role, MessageRole::Tool) {
            if let Some(id) = &m.tool_call_id {
                res.insert(id.dup());
            }
        }
        i += 1;
        assert(res@ =~= answered_ids(all.take(i as int)));
    }
    assert(all.take(i as int) =~= all);
    res
}

/// Adds the results that stand in for those of some calls.
fn push_missing_results(
    messages: &mut Vec<ChatMessage>,
    calls: &Vec<ToolCallData>,
    answered: &StringHashSet,
)
    ensures
        final(messages).deep_view() == old(messages).deep_view() + missing_results(
            calls.deep_view(),
            answered@,
        ),
{
    let ghost before = messages.deep_view();
    let ghost all = calls.deep_view();
    let mut i: usize = 0;
    assert(before + missing_results(all.take(0), answered@) =~= before);
    while i < calls.len()
        invariant
            i <= calls.len(),
            all == calls.deep_view(),
            messages.deep_view() == before + missing_results(all.take(i as int), answered@),
        decreases calls.len() - i,
    {
        let call = &calls[i];
        assert(all.take(i + 1).drop_last() =~= all.take(i as int));
        assert(all.take(i + 1).last() == call@);
        if !call.id.as_str().is_empty() && !answered.contains(call.id.as_str()) {
            push_item(
                messages,
                ChatMessage {
                    role: MessageRole::Tool,
                    content: Some(MISSING_RESULT.to_owned()),
                    images: empty_list(),
                    reasoning: None,
                    tool_calls: None,
                    tool_call_id: Some(call.id.dup()),
                    tool_name: Some(call.name.dup()),
                },
            );
        }
        i += 1;
        assert(messages.deep_view() =~= before + missing_results(all.take(i as int), answered@));
    }
    assert(all.take(i as int) =~= all);
}

/// Makes a request of a history, oldest message first, and a system prompt. A
/// model refuses a history in which a call has no result, so one stands in for
/// each result that never came.
pub fn build_chat_request(history: &Vec<Message>, system: Option<String>) -> (res: ChatRequest)
    ensures
        res@ == chat_request_of(history.deep_view(), system.deep_view()),
{
    let answered = collect_answered(history);
    let ghost all = history.deep_view();
    let mut messages: Vec<ChatMessage> = empty_list();
    let mut i: usize = 0;
    while i < history.len()
        invariant
            i <= history.len(),
            all == history.deep_view(),
            messages.deep_view() == paired(all.take(i as int), answered@),
        decreases history.len() - i,
    {
        let m = &history[i];
        assert(all.take(i + 1).drop_last() =~= all.take(i as int));
        assert(all.take(i + 1).last() == m@);
        push_item(&mut messages, to_chat_message(m));
        let ghost pushed = messages.deep_view();
        match &m.tool_calls {
            Some(calls) if matches!(m.role, MessageRole::Assistant) => {
                push_missing_results(&mut messages, calls, &answered);
            },
            _ => {
                assert(pushed + missing_results(Seq::empty(), answered@) =~= pushed);
            },
        }
        i += 1;
    }
    assert(all.take(i as int) =~= all);
    ChatRequest { messages, system }
}

/// A history as it is, for the model to read.
pub open spec fn plain_messages(history: Seq<MessageView>) -> Seq<ChatMessageView> {
    history.map_values(|m| chat_message_of(m))
}

/// A stored message as the model reads it.
fn to_chat_message(m: &Message) -> (res: ChatMessage)
    ensures
        res@ == chat_message_of(m@),
{
    ChatMessage {
        role: m.role,
        content: m.content.dup(),
        images: m.images.dup(),
        reasoning: m.reasoning.dup(),
        tool_calls: m.tool_calls.dup(),
        tool_call_id: m.tool_call_id.dup(),
        tool_name: m.tool_name.dup(),
    }
}

/// Makes a request of a history as it is.
pub fn plain_chat_request(history: &Vec<Message>, system: Option<String>) -> (res: ChatRequest)
    ensures
        res@ == (ChatRequestView {
            messages: plain_messages(history.deep_view()),
            system: system.deep_view(),
        }),
{
    let ghost all = history.deep_view();
    let mut messages: Vec<ChatMessage> = empty_list();
    let mut i: usize = 0;
    while i < history.len()
        invariant
            i <= history.len(),
            all == history.deep_view(),
            messages.deep_view() == plain_messages(all.take(i as int)),
        decreases history.len() - i,
    {
        push_item(&mut messages, to_chat_message(&history[i]));
        i += 1;
        assert(messages.deep_view() =~= plain_messages(all.take(i as int)));
    }
    assert(all.take(i as int) =~= all);
    ChatRequest { messages, system }
}

/// Whether a row of messages holds a result for a call.
pub open spec fn has_result(messages: Seq<ChatMessageView>, id: Seq<char>) -> bool {
    exists|i: int|
        0 <= i < messages.len() && (#[trigger] messages[i]).role == MessageRole::Tool
            && messages[i].tool_call_id == Some(id)
}

proof fn lemma_has_result_grows(a: Seq<ChatMessageView>, b: Seq<ChatMessageView>, id: Seq<char>)
    requires
        has_result(a, id) || has_result(b, id),
    ensures
        has_result(a + b, id),
{
    if has_result(a, id) {
        let i = choose|i: int|
            0 <= i < a.len() && (#[trigger] a[i]).role == MessageRole::Tool && a[i].tool_call_id
                == Some(id);
        assert((a + b)[i] == a[i]);
    } else {
        let i = choose|i: int|
            0 <= i < b.len() && (#[trigger] b[i]).role == MessageRole::Tool && b[i].tool_call_id
                == Some(id);
        assert((a + b)[a.len() + i] == b[i]);
    }
}

proof fn lemma_missing_result_is_added(
    calls: Seq<ToolCallDataView>,
    answered: Set<Seq<char>>,
    k: int,
)
    requires
        0 <= k < calls.len(),
        unanswered(calls[k], answered),
    ensures
        has_result(missing_results(calls, answered), calls[k].id),
    decreases calls.len(),
{
    let rest = missing_results(calls.drop_last(), answered);
    if k == calls.len() - 1 {
        let all = rest.push(missing_result(calls.last()));
        assert(all[rest.len() as int] == missing_result(calls.last()));
    } else {
        assert(calls.drop_last()[k] == calls[k]);
        lemma_missing_result_is_added(calls.drop_last(), answered, k);
        if unanswered(calls.last(), answered) {
            lemma_has_result_grows(rest, seq![missing_result(calls.last())], calls[k].id);
            assert(rest.push(missing_result(calls.last())) =~= rest + seq![
                missing_result(calls.last()),
            ]);
        }
    }
}

proof fn lemma_paired_has_results(
    history: Seq<MessageView>,
    answered: Set<Seq<char>>,
    at: int,
    id: Seq<char>,
)
    requires
        0 <= at < history.len(),
        ({
            ||| history[at].role == MessageRole::Tool && history[at].tool_call_id == Some(id)
            ||| exists|k: int|
                0 <= k < calls_of(history[at]).len() && unanswered(
                    #[trigger] calls_of(history[at])[k],
                    answered,
                ) && calls_of(history[at])[k].id == id
        }),
    ensures
        has_result(paired(history, answered), id),
    decreases history.len(),
{
    let rest = paired(history.drop_last(), answered);
    let last = history.last();
    let extra = missing_results(calls_of(last), answered);
    let head = rest.push(chat_message_of(last));
    if at == history.len() - 1 {
        if last.role == MessageRole::Tool && last.tool_call_id == Some(id) {
            assert(head[rest.len() as int] == chat_message_of(last));
            assert(has_result(head, id));
        } else {
            let k = choose|k: int|
                0 <= k < calls_of(history[at]).len() && unanswered(
                    #[trigger] calls_of(history[at])[k],
                    answered,
                ) && calls_of(history[at])[k].id == id;
            lemma_missing_result_is_added(calls_of(last), answered, k);
        }
        lemma_has_result_grows(head, extra, id);
    } else {
        assert(history.drop_last()[at] == history[at]);
        lemma_paired_has_results(history.drop_last(), answered, at, id);
        lemma_has_result_grows(rest, seq![chat_message_of(last)], id);
        assert(head =~= rest + seq![chat_message_of(last)]);
        lemma_has_result_grows(head, extra, id);
    }
}

/// In a request, every call that can be answered is: for each call with an
/// identifier that a reply in the history makes, the request holds a result.
pub proof fn law_every_call_has_a_result(
    history: Seq<MessageView>,
    system: Option<Seq<char>>,
    at: int,
    k: int,
)
    requires
        0 <= at < history.len(),
        0 <= k < calls_of(history[at]).len(),
        calls_of(history[at])[k].id.len() > 0,
    ensures
        has_result(chat_request_of(history, system).messages, calls_of(history[at])[k].id),
{
    let answered = answered_ids(history);
    let call = calls_of(history[at])[k];
    if answered.contains(call.id) {
        let i = choose|i: int|
            0 <= i < history.len() && (#[trigger] history[i]).role == MessageRole::Tool
                && history[i].tool_call_id == Some(call.id);
        lemma_paired_has_results(history, answered, i, call.id);
    } else {
        assert(unanswered(calls_of(history[at])[k], answered));
        lemma_paired_has_results(history, answered, at, call.id);
    }
}

proof fn lemma_nothing_missing(calls: Seq<ToolCallDataView>, answered: Set<Seq<char>>)
    requires
        forall|k: int| 0 <= k < calls.len() ==> !unanswered(#[trigger] calls[k], answered),
    ensures
        missing_results(calls, answered).len() == 0,
    decreases calls.len(),
{
    if calls.len() > 0 {
        assert forall|k: int| 0 <= k < calls.drop_last().len() implies !unanswered(
            #[trigger] calls.drop_last()[k],
            answered,
        ) by {
            assert(calls.drop_last()[k] == calls[k]);
        }
        lemma_nothing_missing(calls.drop_last(), answered);
    }
}

proof fn lemma_paired_is_plain(history: Seq<MessageView>, answered: Set<Seq<char>>)
    requires
        forall|at: int, k: int|
            0 <= at < history.len() && 0 <= k < calls_of(history[at]).len() ==> !unanswered(
                #[trigger] calls_of(history[at])[k],
                answered,
            ),
    ensures
        paired(history, answered) == plain_messages(history),
    decreases history.len(),
{
    if history.len() > 0 {
        let front = history.drop_last();
        assert forall|at: int, k: int|
            0 <= at < front.len() && 0 <= k < calls_of(front[at]).len() implies !unanswered(
            #[trigger] calls_of(front[at])[k],
            answered,
        ) by {
            assert(!unanswered(calls_of(history[at])[k], answered));
        }
        lemma_paired_is_plain(front, answered);
        assert forall|k: int| 0 <= k < calls_of(history.last()).len() implies !unanswered(
            #[trigger] calls_of(history.last())[k],
            answered,
        ) by {
            assert(!unanswered(calls_of(history[history.len() - 1])[k], answered));
        }
        lemma_nothing_missing(calls_of(history.last()), answered);
    }
    assert(paired(history, answered) =~= plain_messages(history));
}

/// A history in which every call is answered goes to the model as it is.
pub proof fn law_complete_history_is_kept(history: Seq<MessageView>, system: Option<Seq<char>>)
    requires
        forall|at: int, k: int|
            0 <= at < history.len() && 0 <= k < calls_of(history[at]).len() ==> !unanswered(
                #[trigger] calls_of(history[at])[k],
                answered_ids(history),
            ),
    ensures
        chat_request_of(history, system).messages == plain_messages(history),
{
    lemma_paired_is_plain(history, answered_ids(history));
}

// ---- the model ----

/// What is said of a configuration that names no model.
pub const NO_MODEL: &'static str = "未指定模型：ModelConfig.model_id 为空";

/// What is said of a model that is not named as it should be; the name follows.
pub const BAD_MODEL_ID: &'static str = "model_id 格式错误（应为 provider_id/model_id）: ";

/// A context limit that means something: one of 0 counts as not known.
pub open spec fn known_limit(limit: Option<u32>) -> Option<u32> {
    match limit {
        Some(n) if n > 0 => Some(n),
        _ => None,
    }
}

/// The context limit of a model, given what its registration says.
pub fn resolve_context_length(limit: Option<u32>) -> (res: Option<u32>)
    ensures
        res == known_limit(limit),
{
    match limit {
        Some(n) if n > 0 => Some(n),
        _ => None,
    }
}

/// The provider and the model that a `provider/model` names; `None` where there
/// is no slash or nothing on one side of the first.
pub open spec fn model_parts(model_id: Seq<char>) -> Option<(Seq<char>, Seq<char>)> {
    match split_at_first(model_id, '/') {
        Some((p, m)) if p.len() > 0 && m.len() > 0 => Some((lowercase(p), m)),
        _ => None,
    }
}

/// What a turn knows of its model, or what is wrong with the configuration.
pub open spec fn resolved_model(
    config: ModelConfigView,
    tools: Seq<Seq<char>>,
    limit: Option<u32>,
) -> Result<ResolvedModelView, Seq<char>> {
    if config.model_id.len() == 0 {
        Err(NO_MODEL@)
    } else {
        match model_parts(config.model_id) {
            None => Err(BAD_MODEL_ID@ + config.model_id),
            Some((provider_id, model)) => Ok(
                ResolvedModelView {
                    model_id: config.model_id,
                    provider_id,
                    model,
                    options: StreamOptionsView {
                        tools: if tools.len() == 0 {
                            None
                        } else {
                            Some(tools)
                        },
                        thinking_type: config.thinking_type,
                        reasoning_effort: config.reasoning_effort,
                    },
                    context_length: known_limit(limit),
                },
            ),
        }
    }
}

/// The value of what resolving a model comes to.
pub open spec fn resolution_view(res: Result<ResolvedModel, String>) -> Result<
    ResolvedModelView,
    Seq<char>,
> {
    match res {
        Ok(m) => Ok(m@),
        Err(e) => Err(e@),
    }
}

/// Finds out what a turn needs to know of its model: `tools` are the definitions
/// of the tools that the session may see, `limit` the context limit that the
/// model is registered with. There is no model to fall back on.
pub fn resolve_model(config: &ModelConfig, tools: Vec<String>, limit: Option<u32>) -> (res: Result<
    ResolvedModel,
    String,
>)
    ensures
        resolution_view(res) == resolved_model(config@, tools.deep_view(), limit),
{
    let model_id = config.model_id.as_str();
    if model_id.is_empty() {
        return Err(NO_MODEL.to_owned());
    }
    let (provider_id, model) = match split_once(model_id, '/') {
        Some((p, m)) if !p.is_empty() && !m.is_empty() => (to_lowercase(p), m.to_owned()),
        _ => {
            return Err(concat(BAD_MODEL_ID, model_id));
        },
    };
    Ok(
        ResolvedModel {
            model_id: model_id.to_owned(),
            provider_id,
            model,
            options: StreamOptions {
                tools: if tools.len() == 0 {
                    None
                } else {
                    Some(tools)
                },
                thinking_type: config.thinking_type,
                reasoning_effort: config.reasoning_effort.dup(),
            },
            context_length: resolve_context_length(limit),
        },
    )
}

/// A model resolves exactly if its name has a slash with something on both sides;
/// the parts then make up the name again, but for the case of the provider, and the
/// name under which the model is known.
pub proof fn law_when_a_model_resolves(
    config: ModelConfigView,
    tools: Seq<Seq<char>>,
    limit: Option<u32>,
)
    ensures
        resolved_model(config, tools, limit) is Ok <==> 0 < find(config.model_id, '/')
            < config.model_id.len() - 1,
        resolved_model(config, tools, limit) is Ok ==> {
            let m = resolved_model(config, tools, limit)->Ok_0;
            let p = config.model_id.take(find(config.model_id, '/'));
            &&& m.provider_id == lowercase(p)
            &&& config.model_id == p + seq!['/'] + m.model
            &&& !p.contains('/')
            &&& lower_name(config.model_id) == m.provider_id + seq!['/'] + lower_name(m.model)
            &&& m.context_length != Some(0u32)
            &&& m.options.tools != Some(Seq::<Seq<char>>::empty())
        },
{
    let id = config.model_id;
    lemma_find_bounds(id, '/');
    let at = find(id, '/');
    if 0 < at < id.len() - 1 {
        let p = id.take(at);
        assert(id =~= p + seq!['/'] + id.skip(at + 1));
        lemma_lower_name_of_joined(p, id.skip(at + 1));
        if p.contains('/') {
            let i = choose|i: int| 0 <= i < p.len() && p[i] == '/';
            assert(id[i] == '/');
        }
    }
}

// ---- replies ----

/// A text, unless it is empty.
pub open spec fn nonempty(s: Seq<char>) -> Option<Seq<char>> {
    if s.len() == 0 {
        None
    } else {
        Some(s)
    }
}

/// A text, unless it is empty.
pub fn text_or_none(s: &str) -> (res: Option<String>)
    ensures
        res.deep_view() == nonempty(s@),
{
    if s.is_empty() {
        None
    } else {
        Some(s.to_owned())
    }
}

/// A count, or else 0.
pub open spec fn or_zero(n: Option<u32>) -> i64 {
    match n {
        Some(n) => n as i64,
        None => 0,
    }
}

/// A reply with given calls, reason and usage.
pub open spec fn reply_payload(
    text: Seq<char>,
    reasoning: Seq<char>,
    calls: Seq<ToolCallDataView>,
    finish_reason: Seq<char>,
    usage: StreamUsage,
) -> AssistantPayloadView {
    AssistantPayloadView {
        content: nonempty(text),
        reasoning: nonempty(reasoning),
        tool_calls: if calls.len() == 0 {
            None
        } else {
            Some(calls.map_values(|c| call_payload(c)))
        },
        finish_reason: Some(finish_reason),
        completion_tokens: usage.completion_tokens as i64,
        prompt_tokens: usage.prompt_tokens as i64,
        total_tokens: usage.total_tokens as i64,
        reasoning_tokens: or_zero(usage.completion_reasoning_tokens),
        cached_tokens: or_zero(usage.prompt_cached_tokens),
    }
}

/// Makes a reply with given calls, reason and usage.
pub fn make_reply_payload(
    text: &str,
    reasoning: &str,
    calls: &Vec<ToolCallData>,
    finish_reason: &str,
    usage: &StreamUsage,
) -> (res: AssistantPayload)
    ensures
        res@ == reply_payload(text@, reasoning@, calls.deep_view(), finish_reason@, *usage),
{
    AssistantPayload {
        content: text_or_none(text),
        reasoning: text_or_none(reasoning),
        tool_calls: if calls.len() == 0 {
            None
        } else {
            Some(calls_to_payloads(calls))
        },
        finish_reason: Some(finish_reason.to_owned()),
        completion_tokens: usage.completion_tokens as i64,
        prompt_tokens: usage.prompt_tokens as i64,
        total_tokens: usage.total_tokens as i64,
        reasoning_tokens: match usage.completion_reasoning_tokens {
            Some(n) => n as i64,
            None => 0,
        },
        cached_tokens: match usage.prompt_cached_tokens {
            Some(n) => n as i64,
            None => 0,
        },
    }
}

/// The reason why a reply ended: it calls tools, or it is final.
pub open spec fn finish_reason_of(calls: Seq<ToolCallDataView>) -> Seq<char> {
    if calls.len() == 0 {
        "stop"@
    } else {
        "tool_calls"@
    }
}

/// The reply that a completed stream amounts to.
pub open spec fn assistant_payload_of(result: StreamResultView) -> AssistantPayloadView {
    reply_payload(
        result.text,
        result.reasoning,
        result.tool_calls,
        finish_reason_of(result.tool_calls),
        result.usage,
    )
}

/// Makes the reply that a completed stream amounts to.
pub fn assistant_payload(result: &StreamResult) -> (res: AssistantPayload)
    ensures
        res@ == assistant_payload_of(result@),
{
    make_reply_payload(
        result.text.as_str(),
        result.reasoning.as_str(),
        &result.tool_calls,
        if result.tool_calls.len() == 0 {
            "stop"
        } else {
            "tool_calls"
        },
        &result.usage,
    )
}

// ---- tool calls on their way past the plugins ----

/// The event that shows a tool call.
pub open spec fn tool_call_event(call: ToolCallDataView) -> OutputEventView {
    OutputEventView::ToolCall(unsent(call_payload(call)))
}

/// Makes the event that shows a tool call.
pub fn tool_call_data_to_event(call: &ToolCallData) -> (res: OutputEvent)
    ensures
        res@ == tool_call_event(call@),
{
    OutputEvent::ToolCall(
        envelope(
            ToolCallPayload {
                tool_call_id: call.id.dup(),
                tool_name: call.name.dup(),
                tool_args: parse_args(call.arguments.as_str()),
            },
        ),
    )
}

/// The tool call that an event shows.
pub open spec fn tool_call_in(event: OutputEventView) -> Option<ToolCallDataView> {
    match event {
        OutputEventView::ToolCall(m) => Some(call_data(m.payload)),
        _ => None,
    }
}

/// Takes the tool call out of an event that shows one: what the plugins left of
/// it is what is executed and stored.
pub fn tool_call_event_to_data(event: &OutputEvent) -> (res: Option<ToolCallData>)
    ensures
        res.deep_view() == tool_call_in(event@),
{
    match event {
        OutputEvent::ToolCall(m) => Some(
            ToolCallData {
                id: m.payload.tool_call_id.dup(),
                name: m.payload.tool_name.dup(),
                arguments: m.payload.tool_args.dup(),
            },
        ),
        _ => None,
    }
}

/// A call that no plugin changes keeps its identifier and its tool; its arguments
/// are kept too where they are JSON text that reads back as itself.
pub proof fn law_unchanged_call_round_trip(call: ToolCallDataView)
    ensures
        tool_call_in(tool_call_event(call)) is Some,
        tool_call_in(tool_call_event(call))->0.id == call.id,
        tool_call_in(tool_call_event(call))->0.name == call.name,
        json_text(call.arguments) == Some(call.arguments) ==> tool_call_in(tool_call_event(call))
            == Some(call),
{
}

// ---- what a request holds ----

/// Whether a message of a request is a message of the history, unchanged.
pub open spec fn copies(c: ChatMessageView, m: MessageView) -> bool {
    &&& c.role == m.role
    &&& c.content == m.content
    &&& c.images == m.images
    &&& c.reasoning == m.reasoning
    &&& c.tool_calls == m.tool_calls
    &&& c.tool_call_id == m.tool_call_id
    &&& c.tool_name == m.tool_name
}

/// Whether a message of a request stands in for the result of a call.
pub open spec fn stands_in(c: ChatMessageView, call: ToolCallDataView) -> bool {
    &&& c.role == MessageRole::Tool
    &&& c.content == Some("[工具执行被拦截或中断]"@)
    &&& c.images.len() == 0
    &&& c.reasoning is None
    &&& c.tool_calls is None
    &&& c.tool_call_id == Some(call.id)
    &&& c.tool_name == Some(call.name)
}

/// Whether a call has an identifier, and no message of the history is its result.
pub open spec fn open_in(history: Seq<MessageView>, call: ToolCallDataView) -> bool {
    &&& call.id.len() > 0
    &&& forall|i: int|
        0 <= i < history.len() && (#[trigger] history[i]).role == MessageRole::Tool
            ==> history[i].tool_call_id != Some(call.id)
}

/// The calls of a reply that are open in a history, in order; no other message calls
/// anything.
pub open spec fn open_calls(history: Seq<MessageView>, m: MessageView) -> Seq<ToolCallDataView> {
    if m.role == MessageRole::Assistant && m.tool_calls is Some {
        m.tool_calls->0.filter(|c: ToolCallDataView| open_in(history, c))
    } else {
        Seq::empty()
    }
}

/// Where a message of the history ends in a request: where the next one stands.
pub open spec fn ends_at(pos: Seq<int>, end: int, i: int) -> int {
    if i + 1 < pos.len() {
        pos[i + 1]
    } else {
        end
    }
}

/// Whether a message of a history stands in a request at the place that goes with it:
/// unchanged, and right after it one stand-in for each of its open calls, in order, and
/// nothing else.
pub open spec fn placed(
    messages: Seq<ChatMessageView>,
    history: Seq<MessageView>,
    pos: Seq<int>,
    i: int,
) -> bool {
    let end = ends_at(pos, messages.len() as int, i);
    let due = open_calls(history, history[i]);
    &&& 0 <= pos[i] < end <= messages.len()
    &&& copies(messages[pos[i]], history[i])
    &&& end - pos[i] - 1 == due.len()
    &&& forall|k: int|
        #![trigger due[k]]
        0 <= k < due.len() ==> stands_in(messages[pos[i] + 1 + k], due[k])
}

/// Whether the first messages of a history stand in a request at some places, one after
/// the other, and there is nothing else in it.
pub open spec fn laid_out(
    messages: Seq<ChatMessageView>,
    history: Seq<MessageView>,
    pos: Seq<int>,
) -> bool {
    &&& pos.len() <= history.len()
    &&& pos.len() == 0 ==> messages.len() == 0
    &&& pos.len() > 0 ==> pos[0] == 0
    &&& forall|i: int| 0 <= i < pos.len() ==> #[trigger] placed(messages, history, pos, i)
}

proof fn lemma_stand_ins(
    history: Seq<MessageView>,
    calls: Seq<ToolCallDataView>,
    answered: Set<Seq<char>>,
)
    requires
        forall|c: ToolCallDataView| unanswered(c, answered) == #[trigger] open_in(history, c),
    ensures
        ({
            let due = calls.filter(|c: ToolCallDataView| open_in(history, c));
            let extra = missing_results(calls, answered);
            &&& extra.len() == due.len()
            &&& forall|k: int|
                #![trigger due[k]]
                0 <= k < due.len() ==> stands_in(extra[k], due[k])
        }),
    decreases calls.len(),
{
    reveal(Seq::filter);
    if calls.len() > 0 {
        lemma_stand_ins(history, calls.drop_last(), answered);
        assert(unanswered(calls.last(), answered) == open_in(history, calls.last()));
    }
}

/// What stands at its place still does when more follows.
proof fn lemma_still_placed(
    before: Seq<ChatMessageView>,
    more: Seq<ChatMessageView>,
    history: Seq<MessageView>,
    pos: Seq<int>,
    i: int,
)
    requires
        0 <= i < pos.len(),
        placed(before, history, pos, i),
    ensures
        placed(before + more, history, pos.push(before.len() as int), i),
{
    let all = before + more;
    let places = pos.push(before.len() as int);
    assert(ends_at(places, all.len() as int, i) == ends_at(pos, before.len() as int, i));
    assert(places[i] == pos[i]);
    assert(all[pos[i]] == before[pos[i]]);
    let due = open_calls(history, history[i]);
    assert forall|k: int|
        #![trigger due[k]]
        0 <= k < due.len() implies stands_in(all[places[i] + 1 + k], due[k]) by {
        assert(stands_in(before[pos[i] + 1 + k], due[k]));
        assert(all[places[i] + 1 + k] == before[pos[i] + 1 + k]);
    }
}

/// The newest message stands at its place.
proof fn lemma_last_placed(
    before: Seq<ChatMessageView>,
    history: Seq<MessageView>,
    pos: Seq<int>,
    answered: Set<Seq<char>>,
)
    requires
        pos.len() < history.len(),
        forall|c: ToolCallDataView| unanswered(c, answered) == #[trigger] open_in(history, c),
    ensures
        ({
            let m = history[pos.len() as int];
            let more = seq![chat_message_of(m)] + missing_results(calls_of(m), answered);
            placed(
                before + more,
                history,
                pos.push(before.len() as int),
                pos.len() as int,
            )
        }),
{
    let m = history[pos.len() as int];
    let extra = missing_results(calls_of(m), answered);
    let all = before + (seq![chat_message_of(m)] + extra);
    let at = before.len() as int;
    let due = open_calls(history, m);
    lemma_stand_ins(history, calls_of(m), answered);
    if !(m.role == MessageRole::Assistant && m.tool_calls is Some) {
        assert(calls_of(m).len() == 0);
        assert(extra.len() == 0);
    }
    assert(extra.len() == due.len());
    assert(all[at] == chat_message_of(m));
    assert(copies(all[at], m));
    assert forall|k: int|
        #![trigger due[k]]
        0 <= k < due.len() implies stands_in(all[at + 1 + k], due[k]) by {
        assert(all[at + 1 + k] == extra[k]);
    }
}

proof fn lemma_laid_out(history: Seq<MessageView>, n: int)
    requires
        0 <= n <= history.len(),
    ensures
        exists|pos: Seq<int>|
            pos.len() == n && #[trigger] laid_out(
                paired(history.take(n), answered_ids(history)),
                history,
                pos,
            ),
    decreases n,
{
    let answered = answered_ids(history);
    if n == 0 {
        assert(history.take(0) =~= Seq::empty());
        assert(laid_out(paired(history.take(0), answered), history, Seq::empty()));
    } else {
        lemma_laid_out(history, n - 1);
        assert forall|c: ToolCallDataView| unanswered(c, answered) == #[trigger] open_in(
            history,
            c,
        ) by {
            lemma_open_is_unanswered(history, c);
        }
        let upto = history.take(n);
        assert(upto.drop_last() =~= history.take(n - 1));
        let before = paired(history.take(n - 1), answered);
        let pos = choose|pos: Seq<int>|
            pos.len() == n - 1 && #[trigger] laid_out(before, history, pos);
        let m = history[n - 1];
        let more = seq![chat_message_of(m)] + missing_results(calls_of(m), answered);
        let places = pos.push(before.len() as int);
        assert(paired(upto, answered) =~= before + more);
        assert forall|i: int| 0 <= i < places.len() implies #[trigger] placed(
            before + more,
            history,
            places,
            i,
        ) by {
            if i < n - 1 {
                assert(placed(before, history, pos, i));
                lemma_still_placed(before, more, history, pos, i);
            } else {
                lemma_last_placed(before, history, pos, answered);
            }
        }
        assert(laid_out(before + more, history, places));
    }
}

/// A call needs a result to stand in exactly if it is open.
proof fn lemma_open_is_unanswered(history: Seq<MessageView>, c: ToolCallDataView)
    ensures
        unanswered(c, answered_ids(history)) == open_in(history, c),
{
    if c.id.len() > 0 && answered_ids(history).contains(c.id) {
        let i = choose|i: int|
            0 <= i < history.len() && (#[trigger] history[i]).role == MessageRole::Tool
                && history[i].tool_call_id == Some(c.id);
        assert(!open_in(history, c));
    }
}

/// A request holds every message of the history, in order and unchanged: its role, its
/// text, its images, its reasoning, what it calls, and what it is the result of. Right
/// after a reply stands one message for each of its calls that no message of the history
/// answers, in the order of the calls; and there is nothing else in it. The system
/// prompt is the one given.
pub proof fn law_a_request_is_the_history(history: Seq<MessageView>, system: Option<Seq<char>>)
    ensures
        chat_request_of(history, system).system == system,
        exists|pos: Seq<int>|
            pos.len() == history.len() && #[trigger] laid_out(
                chat_request_of(history, system).messages,
                history,
                pos,
            ),
{
    lemma_laid_out(history, history.len() as int);
    assert(history.take(history.len() as int) =~= history);
    let pos = choose|pos: Seq<int>|
        pos.len() == history.len() && #[trigger] laid_out(
            paired(history.take(history.len() as int), answered_ids(history)),
            history,
            pos,
        );
    assert(laid_out(chat_request_of(history, system).messages, history, pos));
}

/// The place in a history of what stands at a place of a request.
proof fn lemma_belongs(
    messages: Seq<ChatMessageView>,
    history: Seq<MessageView>,
    pos: Seq<int>,
    j: int,
    n: int,
) -> (i: int)
    requires
        laid_out(messages, history, pos),
        0 <= n < pos.len(),
        0 <= j < ends_at(pos, messages.len() as int, n),
    ensures
        0 <= i < pos.len(),
        pos[i] <= j < ends_at(pos, messages.len() as int, i),
    decreases n,
{
    assert(placed(messages, history, pos, n));
    if pos[n] <= j {
        n
    } else {
        assert(n > 0) by {
            assert(pos[0] == 0);
        }
        assert(ends_at(pos, messages.len() as int, n - 1) == pos[n]);
        lemma_belongs(messages, history, pos, j, n - 1)
    }
}

proof fn lemma_places_rise(
    messages: Seq<ChatMessageView>,
    history: Seq<MessageView>,
    pos: Seq<int>,
    a: int,
    b: int,
)
    requires
        laid_out(messages, history, pos),
        0 <= a < b < pos.len(),
    ensures
        pos[a] < pos[b],
    decreases b - a,
{
    assert(placed(messages, history, pos, a));
    if a + 1 < b {
        lemma_places_rise(messages, history, pos, a + 1, b);
    }
}

/// Whether a message makes a call with an identifier.
pub open spec fn makes_call(
    role: MessageRole,
    calls: Option<Seq<ToolCallDataView>>,
    id: Seq<char>,
) -> bool {
    role == MessageRole::Assistant && calls is Some && exists|k: int|
        0 <= k < calls->0.len() && (#[trigger] calls->0[k]).id == id
}

/// No request holds a result for a call that nobody made: if every result in the history
/// comes after a reply that makes the call, so does every result in the request.
pub proof fn law_results_follow_their_calls(
    history: Seq<MessageView>,
    system: Option<Seq<char>>,
    j: int,
    id: Seq<char>,
)
    requires
        forall|i: int|
            #![trigger history[i]]
            0 <= i < history.len() && history[i].role == MessageRole::Tool
                && history[i].tool_call_id == Some(id) ==> exists|a: int|
                #![trigger history[a]]
                0 <= a < i && makes_call(history[a].role, history[a].tool_calls, id),
        0 <= j < chat_request_of(history, system).messages.len(),
        chat_request_of(history, system).messages[j].role == MessageRole::Tool,
        chat_request_of(history, system).messages[j].tool_call_id == Some(id),
    ensures
        exists|b: int|
            #![trigger chat_request_of(history, system).messages[b]]
            0 <= b < j && makes_call(
                chat_request_of(history, system).messages[b].role,
                chat_request_of(history, system).messages[b].tool_calls,
                id,
            ),
{
    let messages = chat_request_of(history, system).messages;
    law_a_request_is_the_history(history, system);
    let pos = choose|pos: Seq<int>|
        pos.len() == history.len() && #[trigger] laid_out(messages, history, pos);
    assert(placed(messages, history, pos, pos.len() - 1)) by {
        assert(history.len() > 0);
    }
    let i = lemma_belongs(messages, history, pos, j, pos.len() - 1);
    assert(placed(messages, history, pos, i));
    if j == pos[i] {
        assert(history[i].role == MessageRole::Tool && history[i].tool_call_id == Some(id));
        let a = choose|a: int|
            #![trigger history[a]]
            0 <= a < i && makes_call(history[a].role, history[a].tool_calls, id);
        lemma_places_rise(messages, history, pos, a, i);
        assert(placed(messages, history, pos, a));
        assert(makes_call(messages[pos[a]].role, messages[pos[a]].tool_calls, id));
    } else {
        let due = open_calls(history, history[i]);
        let k = j - pos[i] - 1;
        assert(stands_in(messages[pos[i] + 1 + k], due[k]));
        assert(due[k].id == id);
        let calls = history[i].tool_calls->0;
        lemma_filter(calls, |c: ToolCallDataView| open_in(history, c));
        assert(calls.contains(due[k]));
        let n = choose|n: int| 0 <= n < calls.len() && calls[n] == due[k];
        assert(calls[n].id == id);
        assert(makes_call(messages[pos[i]].role, messages[pos[i]].tool_calls, id));
    }
}

/// A history that goes to the model as it is goes there whole, in order and unchanged.
pub proof fn law_a_plain_request_is_the_history(history: Seq<MessageView>, i: int)
    requires
        0 <= i < history.len(),
    ensures
        plain_messages(history).len() == history.len(),
        copies(plain_messages(history)[i], history[i]),
{
}

/// What a turn knows of its model is what the configuration says: the model by its full
/// name and by its name at the provider, the tools that are offered, and the way of
/// thinking. A limit of 0 counts as unknown. What is wrong with a name is told with the
/// name.
pub proof fn law_a_model_is_resolved_as_configured(
    config: ModelConfigView,
    tools: Seq<Seq<char>>,
    limit: Option<u32>,
)
    ensures
        match resolved_model(config, tools, limit) {
            Ok(m) => {
                &&& m.model_id == config.model_id
                &&& m.options.thinking_type == config.thinking_type
                &&& m.options.reasoning_effort == config.reasoning_effort
                &&& tools.len() > 0 ==> m.options.tools == Some(tools)
                &&& tools.len() == 0 ==> m.options.tools is None
                &&& limit is Some && limit->0 > 0 ==> m.context_length == limit
                &&& limit is None || limit->0 == 0 ==> m.context_length is None
            },
            Err(message) => {
                &&& config.model_id.len() == 0 ==> message
                    == "未指定模型：ModelConfig.model_id 为空"@
                &&& config.model_id.len() > 0 ==> message
                    == "model_id 格式错误（应为 provider_id/model_id）: "@ + config.model_id
            },
        },
{
}

/// A reply says what the stream brought: its text and its reasoning where there is any,
/// every call in order, and what was used. It ended for the sake of its calls exactly if
/// it has any.
pub proof fn law_a_reply_says_what_the_stream_brought(result: StreamResultView, k: int)
    ensures
        ({
            let p = assistant_payload_of(result);
            let calls = result.tool_calls;
            &&& result.text.len() > 0 ==> p.content == Some(result.text)
            &&& result.text.len() == 0 ==> p.content is None
            &&& result.reasoning.len() > 0 ==> p.reasoning == Some(result.reasoning)
            &&& result.reasoning.len() == 0 ==> p.reasoning is None
            &&& calls.len() == 0 ==> p.tool_calls is None && p.finish_reason == Some("stop"@)
            &&& calls.len() > 0 ==> p.tool_calls is Some && p.tool_calls->0.len() == calls.len()
                && p.finish_reason == Some("tool_calls"@)
            &&& 0 <= k < calls.len() ==> {
                &&& p.tool_calls->0[k].tool_call_id == calls[k].id
                &&& p.tool_calls->0[k].tool_name == calls[k].name
                &&& p.tool_calls->0[k].tool_args == args_in(calls[k].arguments)
            }
            &&& p.prompt_tokens == result.usage.prompt_tokens
            &&& p.completion_tokens == result.usage.completion_tokens
            &&& p.total_tokens == result.usage.total_tokens
            &&& p.reasoning_tokens == match result.usage.completion_reasoning_tokens {
                Some(n) => n as int,
                None => 0,
            }
            &&& p.cached_tokens == match result.usage.prompt_cached_tokens {
                Some(n) => n as int,
                None => 0,
            }
        }),
{
}

/// The event that shows a call names its tool, its identifier and its arguments; and the
/// call that is taken out of an event is the one that the event shows.
pub proof fn law_calls_go_past_the_plugins_whole(call: ToolCallDataView, event: OutputEventView)
    ensures
        tool_call_event(call) is ToolCall,
        tool_call_event(call)->ToolCall_0.payload.tool_call_id == call.id,
        tool_call_event(call)->ToolCall_0.payload.tool_name == call.name,
        tool_call_event(call)->ToolCall_0.payload.tool_args == args_in(call.arguments),
        tool_call_in(event) is Some <==> event is ToolCall,
        event is ToolCall ==> {
            let shown = event->ToolCall_0.payload;
            let taken = tool_call_in(event)->0;
            &&& taken.id == shown.tool_call_id
            &&& taken.name == shown.tool_name
            &&& taken.arguments == shown.tool_args
        },
{
}

} // verus!
