//! What the user's side of an engine holds on to.
use crate::emit::{blank_base, envelope, unsent};
use crate::input::{
    EngineInput, EngineInputView, InterruptInput, InterruptInputView, UserInput, UserInputView,
};
use crate::message::{
    EventBase, InterruptSource, UserMessageMode, UserMessageSource, UserMessageSourceView,
};
use crate::message_queue::{MessageQueues, QueuedUserMessage, QueuedUserMessageView};
use crate::model::{empty_list, push_item, Dup};
use crate::stream_session::{AgentModel, AgentModelView};
use crate::text::{law_the_first_characters, prefix, take_chars};
use std::collections::VecDeque;
use vstd::prelude::*;

verus! {

/// How much of a message is shown while it waits, in characters.
pub const PREVIEW_CHARS: usize = 30;

/// The reason that a cancelling user gives.
pub const CANCEL_REASON: &'static str = "用户取消";

/// A message that waits, as the user sees it.
#[derive(Debug)]
pub struct QueueSnapshotItem {
    /// Identifier of the message.
    pub id: String,
    /// The start of its text.
    pub content_preview: String,
    pub mode: UserMessageMode,
}

/// The mathematical value of a [`QueueSnapshotItem`].
#[verifier::ext_equal]
pub struct QueueSnapshotItemView {
    pub id: Seq<char>,
    pub content_preview: Seq<char>,
    pub mode: UserMessageMode,
}

impl View for QueueSnapshotItem {
    type V = QueueSnapshotItemView;

    open spec fn view(&self) -> QueueSnapshotItemView {
        QueueSnapshotItemView {
            id: self.id@,
            content_preview: self.content_preview@,
            mode: self.mode,
        }
    }
}

impl DeepView for QueueSnapshotItem {
    type V = QueueSnapshotItemView;

    open spec fn deep_view(&self) -> QueueSnapshotItemView {
        self@
    }
}

impl Dup for QueueSnapshotItem {
    fn dup(&self) -> (res: Self) {
        QueueSnapshotItem {
            id: self.id.dup(),
            content_preview: self.content_preview.dup(),
            mode: self.mode,
        }
    }
}

/// The messages that wait, as the user sees them.
#[derive(Debug)]
pub struct QueueSnapshot {
    pub guide: Vec<QueueSnapshotItem>,
    pub pending: Vec<QueueSnapshotItem>,
}

/// The mathematical value of a [`QueueSnapshot`].
#[verifier::ext_equal]
pub struct QueueSnapshotView {
    pub guide: Seq<QueueSnapshotItemView>,
    pub pending: Seq<QueueSnapshotItemView>,
}

impl View for QueueSnapshot {
    type V = QueueSnapshotView;

    open spec fn view(&self) -> QueueSnapshotView {
        QueueSnapshotView {
            guide: self.guide.deep_view(),
            pending: self.pending.deep_view(),
        }
    }
}

impl DeepView for QueueSnapshot {
    type V = QueueSnapshotView;

    open spec fn deep_view(&self) -> QueueSnapshotView {
        self@
    }
}

impl Dup for QueueSnapshot {
    fn dup(&self) -> (res: Self) {
        QueueSnapshot {
            guide: self.guide.dup(),
            pending: self.pending.dup(),
        }
    }
}
/// A message that waits, as the user sees it.
pub open spec fn snapshot_item(m: QueuedUserMessageView) -> QueueSnapshotItemView {
    QueueSnapshotItemView {
        id: m.message.base.id,
        content_preview: prefix(m.message.payload.content, PREVIEW_CHARS as int),
        mode: m.mode,
    }
}

/// Messages that wait, as the user sees them.
pub open spec fn snapshot_items(messages: Seq<QueuedUserMessageView>) -> Seq<QueueSnapshotItemView> {
    messages.map_values(|m| snapshot_item(m))
}

/// Shows the messages that wait in a queue.
fn snapshot_queue(queue: &VecDeque<QueuedUserMessage>) -> (res: Vec<QueueSnapshotItem>)
    ensures
        res.deep_view() == snapshot_items(queue.deep_view()),
{
    let ghost all = queue.deep_view();
    let mut res: Vec<QueueSnapshotItem> = empty_list();
    let mut i: usize = 0;
    while i < queue.len()
        invariant
            i <= queue@.len(),
            all == queue.deep_view(),
            res.deep_view() == snapshot_items(all.take(i as int)),
        decreases queue@.len() - i,
    {
        let m = &queue[i];
        push_item(
            &mut res,
            QueueSnapshotItem {
                id: m.message.base.id.dup(),
                content_preview: take_chars(
                    m.message.payload.content.as_str(),
                    PREVIEW_CHARS,
                ).to_owned(),
                mode: m.mode,
            },
        );
        i += 1;
        assert(res.deep_view() =~= snapshot_items(all.take(i as int)));
    }
    assert(all.take(i as int) =~= all);
    res
}

/// The user's side of an engine: the model that its agent uses, and the tools that
/// are on offer.
pub struct EngineHandle {
    agent: AgentModel,
    tools: Vec<String>,
}

/// The mathematical value of an [`EngineHandle`].
#[verifier::ext_equal]
pub struct EngineHandleView {
    pub agent: AgentModelView,
    /// The definitions of the tools, each as JSON text.
    pub tools: Seq<Seq<char>>,
}

impl View for EngineHandle {
    type V = EngineHandleView;

    closed spec fn view(&self) -> EngineHandleView {
        EngineHandleView { agent: self.agent@, tools: self.tools.deep_view() }
    }
}

impl EngineHandle {
    /// A handle without tools.
    pub fn new(agent: AgentModel) -> (res: EngineHandle)
        ensures
            res@ == (EngineHandleView { agent: agent@, tools: Seq::empty() }),
    {
        EngineHandle { agent, tools: empty_list() }
    }

    /// A message of the user.
    pub fn send_message(&self, content: String) -> (res: EngineInput)
        ensures
            res@ == EngineInputView::User(
                unsent(
                    UserInputView {
                        content: content@,
                        images: Seq::empty(),
                        mode: UserMessageMode::Guide,
                        source: UserMessageSourceView::User,
                        client_message_id: None,
                    },
                ),
            ),
    {
        EngineInput::User(
            envelope(
                UserInput {
                    content,
                    images: empty_list(),
                    mode: UserMessageMode::Guide,
                    source: UserMessageSource::User,
                    client_message_id: None,
                },
            ),
        )
    }

    /// An interrupt by the user.
    pub fn cancel(&self) -> (res: EngineInput)
        ensures
            res@ == EngineInputView::Interrupt(
                unsent(
                    InterruptInputView { reason: CANCEL_REASON@, source: InterruptSource::User },
                ),
            ),
    {
        EngineInput::Interrupt(
            envelope(
                InterruptInput { reason: CANCEL_REASON.to_owned(), source: InterruptSource::User },
            ),
        )
    }

    /// The end of the engine.
    pub fn shutdown(&self) -> (res: EngineInput)
        ensures
            res@ == EngineInputView::Shutdown(blank_base()),
    {
        EngineInput::Shutdown(EventBase::new())
    }

    /// The model that the agent uses.
    pub fn agent_ctx(&self) -> (res: AgentModel)
        ensures
            res@ == self@.agent,
    {
        self.agent.dup()
    }

    /// Replaces the model that the agent uses.
    pub fn set_agent_ctx(&mut self, agent: AgentModel)
        ensures
            final(self)@ == (EngineHandleView { agent: agent@, ..old(self)@ }),
    {
        self.agent = agent;
    }

    /// Offers one more tool.
    pub fn register_tool(&mut self, schema: String)
        ensures
            final(self)@ == (EngineHandleView {
                tools: old(self)@.tools.push(schema@),
                ..old(self)@
            }),
    {
        push_item(&mut self.tools, schema);
    }

    /// The tools that are on offer.
    pub fn tools_schema(&self) -> (res: Vec<String>)
        ensures
            res.deep_view() == self@.tools,
    {
        self.tools.dup()
    }

    /// The tools that the model is offered in a round: none where the plugins want it
    /// to do without.
    pub fn offered_tools(&self, skip_tools: bool) -> (res: Option<Vec<String>>)
        ensures
            res.deep_view() == if skip_tools || self@.tools.len() == 0 {
                None
            } else {
                Some(self@.tools)
            },
    {
        if skip_tools || self.tools.len() == 0 {
            None
        } else {
            Some(self.tools.dup())
        }
    }

    /// Shows the messages that wait.
    pub fn queue_snapshot(&self, queues: &MessageQueues) -> (res: QueueSnapshot)
        ensures
            res@ == (QueueSnapshotView {
                guide: snapshot_items(queues@.guide),
                pending: snapshot_items(queues@.pending),
            }),
    {
        QueueSnapshot {
            guide: snapshot_queue(&queues.guide),
            pending: snapshot_queue(&queues.pending),
        }
    }
}

/// A waiting message is shown under its identity and its queue, with the start of its
/// text: up to 30 characters. Every waiting message is shown, in order.
pub proof fn law_waiting_messages_are_shown(messages: Seq<QueuedUserMessageView>, i: int)
    requires
        0 <= i < messages.len(),
    ensures
        snapshot_items(messages).len() == messages.len(),
        ({
            let shown = snapshot_items(messages)[i];
            let text = messages[i].message.payload.content;
            &&& shown.id == messages[i].message.base.id
            &&& shown.mode == messages[i].mode
            &&& shown.content_preview.is_prefix_of(text)
            &&& text.len() <= 30 ==> shown.content_preview == text
            &&& text.len() > 30 ==> shown.content_preview.len() == 30
        }),
{
    law_the_first_characters(messages[i].message.payload.content, 30);
}

} // verus!
