//! The two queues of an engine that runs a single conversation.
use crate::message::{
    EnvelopeView, Envelope, EventBase, EventBaseView, OutputEvent, OutputEventView, QueueUpdateKind,
    QueueUpdatePayload, QueueUpdatePayloadView, UserMessage, UserMessageMode, UserMessageView,
};
use crate::model::Dup;
use crate::queue::drain_pending_to_guide;
use std::collections::VecDeque;
use vstd::prelude::*;

verus! {

/// A user message that waits.
#[derive(Debug)]
pub struct QueuedUserMessage {
    /// The queue it was meant for.
    pub mode: UserMessageMode,
    /// The message as the plugins left it.
    pub message: UserMessage,
}

/// The mathematical value of a [`QueuedUserMessage`].
#[verifier::ext_equal]
pub struct QueuedUserMessageView {
    pub mode: UserMessageMode,
    pub message: UserMessageView,
}

impl View for QueuedUserMessage {
    type V = QueuedUserMessageView;

    open spec fn view(&self) -> QueuedUserMessageView {
        QueuedUserMessageView {
            mode: self.mode,
            message: self.message@,
        }
    }
}

impl DeepView for QueuedUserMessage {
    type V = QueuedUserMessageView;

    open spec fn deep_view(&self) -> QueuedUserMessageView {
        self@
    }
}

impl Dup for QueuedUserMessage {
    fn dup(&self) -> (res: Self) {
        QueuedUserMessage {
            mode: self.mode,
            message: self.message.dup(),
        }
    }
}
/// The messages that wait.
pub struct MessageQueues {
    /// Consumed one after the other.
    pub guide: VecDeque<QueuedUserMessage>,
    /// Moved to the guide queue when no turn is running.
    pub pending: VecDeque<QueuedUserMessage>,
}

/// The mathematical value of [`MessageQueues`].
#[verifier::ext_equal]
pub struct MessageQueuesView {
    pub guide: Seq<QueuedUserMessageView>,
    pub pending: Seq<QueuedUserMessageView>,
}

impl View for MessageQueues {
    type V = MessageQueuesView;

    open spec fn view(&self) -> MessageQueuesView {
        MessageQueuesView { guide: self.guide.deep_view(), pending: self.pending.deep_view() }
    }
}

/// The event that tells how long the queues are after a change.
pub open spec fn queue_update(
    base: EventBaseView,
    q: MessageQueuesView,
    kind: QueueUpdateKind,
) -> OutputEventView {
    OutputEventView::QueueUpdate(
        EnvelopeView {
            base,
            payload: QueueUpdatePayloadView {
                guide_count: q.guide.len() as usize,
                pending_count: q.pending.len() as usize,
                kind,
            },
        },
    )
}

impl MessageQueuesView {
    /// The queues with a message at the end of the one that it was meant for.
    pub open spec fn put(self, m: QueuedUserMessageView) -> MessageQueuesView {
        match m.mode {
            UserMessageMode::Guide => MessageQueuesView { guide: self.guide.push(m), ..self },
            UserMessageMode::Pending => MessageQueuesView { pending: self.pending.push(m), ..self },
        }
    }

    /// The queues with every pending message at the end of the guide queue.
    pub open spec fn transferred(self) -> MessageQueuesView {
        MessageQueuesView { guide: self.guide + self.pending, pending: Seq::empty() }
    }

    /// The queues without the first guide message.
    pub open spec fn popped(self) -> MessageQueuesView {
        MessageQueuesView { guide: self.guide.drop_first(), ..self }
    }
}

impl MessageQueues {
    /// Two empty queues.
    pub fn new() -> (res: MessageQueues)
        ensures
            res@ == (MessageQueuesView { guide: Seq::empty(), pending: Seq::empty() }),
    {
        let res = MessageQueues { guide: VecDeque::new(), pending: VecDeque::new() };
        assert(res@.guide =~= Seq::empty());
        assert(res@.pending =~= Seq::empty());
        res
    }

    /// Puts a message at the end of the queue that it was meant for.
    pub fn put(&mut self, m: QueuedUserMessage)
        ensures
            final(self)@ == old(self)@.put(m@),
    {
        let ghost before = self@;
        match m.mode {
            UserMessageMode::Guide => self.guide.push_back(m),
            UserMessageMode::Pending => self.pending.push_back(m),
        }
        assert(self@.guide =~= before.put(m@).guide);
        assert(self@.pending =~= before.put(m@).pending);
    }

    /// Moves every pending message to the end of the guide queue. Says whether there
    /// was any.
    pub fn transfer(&mut self) -> (res: bool)
        ensures
            res == (old(self)@.pending.len() > 0),
            final(self)@ == old(self)@.transferred(),
    {
        let ghost before = self@;
        let any = self.pending.len() > 0;
        drain_pending_to_guide(&mut self.guide, &mut self.pending);
        assert(self@.guide =~= before.transferred().guide);
        assert(self@.pending =~= before.transferred().pending);
        any
    }

    /// Takes the first guide message.
    pub fn pop(&mut self) -> (res: Option<QueuedUserMessage>)
        ensures
            old(self)@.guide.len() == 0 ==> res is None && final(self)@ == old(self)@,
            old(self)@.guide.len() > 0 ==> res is Some && res->0@ == old(self)@.guide.first()
                && final(self)@ == old(self)@.popped(),
    {
        let ghost before = self@;
        let res = self.guide.pop_front();
        proof {
            if before.guide.len() > 0 {
                assert(self@.guide =~= before.popped().guide);
                assert(res->0@ == before.guide[0]);
            } else {
                assert(self@.guide =~= before.guide);
            }
        }
        res
    }

    /// Tells how long the queues are after a change.
    pub fn update_event(&self, base: EventBase, kind: QueueUpdateKind) -> (res: OutputEvent)
        ensures
            res@ == queue_update(base@, self@, kind),
    {
        OutputEvent::QueueUpdate(
            Envelope {
                base,
                payload: QueueUpdatePayload {
                    guide_count: self.guide.len(),
                    pending_count: self.pending.len(),
                    kind,
                },
            },
        )
    }
}

/// A message joins the end of the queue it was meant for; pending messages move behind
/// those in the guide queue; the first guide message is taken first. What is told of the
/// queues is how long they are, and what happened.
pub proof fn law_messages_wait_in_line(
    q: MessageQueuesView,
    m: QueuedUserMessageView,
    base: EventBaseView,
    kind: QueueUpdateKind,
)
    ensures
        m.mode == UserMessageMode::Guide ==> q.put(m).guide == q.guide.push(m) && q.put(m).pending
            == q.pending,
        m.mode == UserMessageMode::Pending ==> q.put(m).pending == q.pending.push(m) && q.put(
            m,
        ).guide == q.guide,
        q.transferred().guide == q.guide + q.pending,
        q.transferred().pending.len() == 0,
        q.guide.len() > 0 ==> q.guide == seq![q.guide[0]] + q.popped().guide,
        q.popped().pending == q.pending,
        ({
            let told = queue_update(base, q, kind);
            &&& told is QueueUpdate
            &&& told->QueueUpdate_0.base == base
            &&& q.guide.len() <= usize::MAX ==> told->QueueUpdate_0.payload.guide_count
                == q.guide.len()
            &&& q.pending.len() <= usize::MAX ==> told->QueueUpdate_0.payload.pending_count
                == q.pending.len()
            &&& told->QueueUpdate_0.payload.kind == kind
        }),
{
    if q.guide.len() > 0 {
        assert(q.guide =~= seq![q.guide[0]] + q.popped().guide);
    }
}

} // verus!
