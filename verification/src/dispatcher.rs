//! The dispatcher of an engine that runs a single conversation: everything that
//! comes in passes here.
//!
//! A user message is seen by the plugins and then waits until the executor takes it.
//! An interrupt is shown and carried out at once. A notice of a plugin is shown.
use crate::input::{EngineInput, EngineInputView};
use crate::interrupt::{Outgoing, OutgoingView};
use crate::message::{
    Envelope, EnvelopeView, InterruptPayload, InterruptPayloadView, OutputEvent, OutputEventView,
    PluginPayload, PluginPayloadView, QueueUpdateKind, UserMessageMode, UserMessageView,
    UserPayload, UserPayloadView,
};
use crate::message_queue::{
    queue_update, MessageQueues, MessageQueuesView, QueuedUserMessage, QueuedUserMessageView,
};
use crate::model::{empty_list, push_item, Dup};
use vstd::prelude::*;

verus! {

/// What the dispatcher is told.
#[derive(Debug)]
pub enum DispatcherEvent {
    /// Something has come in.
    Input(EngineInput),
    /// The plugins have seen a user message: what they left of it, if anything.
    Checked(Option<OutputEvent>),
    /// Nothing can come in any more.
    Closed,
}

/// The mathematical value of a [`DispatcherEvent`].
#[verifier::ext_equal]
pub enum DispatcherEventView {
    Input(EngineInputView),
    Checked(Option<OutputEventView>),
    Closed,
}

impl View for DispatcherEvent {
    type V = DispatcherEventView;

    open spec fn view(&self) -> DispatcherEventView {
        match self {
            DispatcherEvent::Input(x) => DispatcherEventView::Input(x@),
            DispatcherEvent::Checked(x) => DispatcherEventView::Checked(x.deep_view()),
            DispatcherEvent::Closed => DispatcherEventView::Closed,
        }
    }
}

impl DeepView for DispatcherEvent {
    type V = DispatcherEventView;

    open spec fn deep_view(&self) -> DispatcherEventView {
        self@
    }
}

impl Dup for DispatcherEvent {
    fn dup(&self) -> (res: Self) {
        match self {
            DispatcherEvent::Input(x) => DispatcherEvent::Input(x.dup()),
            DispatcherEvent::Checked(x) => DispatcherEvent::Checked(x.dup()),
            DispatcherEvent::Closed => DispatcherEvent::Closed,
        }
    }
}

/// An interrupt that is shown and carried out.
#[derive(Debug)]
pub struct CommandedInterrupt {
    /// What is shown of it.
    pub event: OutputEvent,
    /// What the executor is told.
    pub payload: InterruptPayload,
}

/// The mathematical value of a [`CommandedInterrupt`].
#[verifier::ext_equal]
pub struct CommandedInterruptView {
    pub event: OutputEventView,
    pub payload: InterruptPayloadView,
}

impl View for CommandedInterrupt {
    type V = CommandedInterruptView;

    open spec fn view(&self) -> CommandedInterruptView {
        CommandedInterruptView {
            event: self.event@,
            payload: self.payload@,
        }
    }
}

impl DeepView for CommandedInterrupt {
    type V = CommandedInterruptView;

    open spec fn deep_view(&self) -> CommandedInterruptView {
        self@
    }
}

impl Dup for CommandedInterrupt {
    fn dup(&self) -> (res: Self) {
        CommandedInterrupt {
            event: self.event.dup(),
            payload: self.payload.dup(),
        }
    }
}

/// What the dispatcher asks for.
#[derive(Debug)]
pub enum DispatcherAction {
    /// Show a user message to the plugins.
    Check(OutputEvent),
    /// Wake the executor.
    Wake,
    /// Show an event, past the plugins.
    Announce(OutputEvent),
    /// Send an event.
    Send(Outgoing),
    /// Send an event; if the plugins let it pass, tell the executor to stop its turn first.
    Interrupt(CommandedInterrupt),
    /// Tell the executor to stop.
    StopExecutor,
    /// Wait for the executor to end.
    AwaitExecutor,
}

/// The mathematical value of a [`DispatcherAction`].
#[verifier::ext_equal]
pub enum DispatcherActionView {
    Check(OutputEventView),
    Wake,
    Announce(OutputEventView),
    Send(OutgoingView),
    Interrupt(CommandedInterruptView),
    StopExecutor,
    AwaitExecutor,
}

impl View for DispatcherAction {
    type V = DispatcherActionView;

    open spec fn view(&self) -> DispatcherActionView {
        match self {
            DispatcherAction::Check(x) => DispatcherActionView::Check(x@),
            DispatcherAction::Wake => DispatcherActionView::Wake,
            DispatcherAction::Announce(x) => DispatcherActionView::Announce(x@),
            DispatcherAction::Send(x) => DispatcherActionView::Send(x@),
            DispatcherAction::Interrupt(x) => DispatcherActionView::Interrupt(x@),
            DispatcherAction::StopExecutor => DispatcherActionView::StopExecutor,
            DispatcherAction::AwaitExecutor => DispatcherActionView::AwaitExecutor,
        }
    }
}

impl DeepView for DispatcherAction {
    type V = DispatcherActionView;

    open spec fn deep_view(&self) -> DispatcherActionView {
        self@
    }
}

impl Dup for DispatcherAction {
    fn dup(&self) -> (res: Self) {
        match self {
            DispatcherAction::Check(x) => DispatcherAction::Check(x.dup()),
            DispatcherAction::Wake => DispatcherAction::Wake,
            DispatcherAction::Announce(x) => DispatcherAction::Announce(x.dup()),
            DispatcherAction::Send(x) => DispatcherAction::Send(x.dup()),
            DispatcherAction::Interrupt(x) => DispatcherAction::Interrupt(x.dup()),
            DispatcherAction::StopExecutor => DispatcherAction::StopExecutor,
            DispatcherAction::AwaitExecutor => DispatcherAction::AwaitExecutor,
        }
    }
}
/// Where the dispatcher stands.
#[derive(Clone, Copy, Debug, PartialEq, Eq, Structural)]
pub enum DispatcherStage {
    /// It waits for something to come in.
    Listening,
    /// The plugins are looking at a user message that was meant for this queue.
    Checking(UserMessageMode),
    /// It has ended.
    Ended,
}

/// The dispatcher.
#[derive(Clone, Copy, Debug)]
pub struct Engine {
    pub stage: DispatcherStage,
}

/// The dispatcher with the queues it fills, and what it asks for.
#[verifier::ext_equal]
pub struct DispatcherNext {
    pub stage: DispatcherStage,
    pub queues: MessageQueuesView,
    pub actions: Seq<DispatcherActionView>,
}

/// What the dispatcher comes to when something comes in.
pub open spec fn on_input(q: MessageQueuesView, input: EngineInputView) -> DispatcherNext {
    match input {
        EngineInputView::User(m) => DispatcherNext {
            stage: DispatcherStage::Checking(m.payload.mode),
            queues: q,
            actions: seq![
                DispatcherActionView::Check(
                    OutputEventView::User(
                        EnvelopeView {
                            base: m.base,
                            payload: UserPayloadView {
                                content: m.payload.content,
                                images: m.payload.images,
                                mode: m.payload.mode,
                                source: m.payload.source,
                                client_message_id: m.payload.client_message_id,
                            },
                        },
                    ),
                ),
            ],
        },
        EngineInputView::Interrupt(m) => {
            let payload = InterruptPayloadView {
                reason: m.payload.reason,
                source: m.payload.source,
            };
            DispatcherNext {
                stage: DispatcherStage::Listening,
                queues: q,
                actions: seq![
                    DispatcherActionView::Interrupt(
                        CommandedInterruptView {
                            event: OutputEventView::Interrupt(
                                EnvelopeView { base: m.base, payload },
                            ),
                            payload,
                        },
                    ),
                ],
            }
        },
        EngineInputView::Plugin(m) => DispatcherNext {
            stage: DispatcherStage::Listening,
            queues: q,
            actions: seq![
                DispatcherActionView::Send(
                    OutgoingView::Notice(
                        OutputEventView::Plugin(
                            EnvelopeView {
                                base: m.base,
                                payload: PluginPayloadView {
                                    source: m.payload.source,
                                    event_type: m.payload.event_type,
                                    data: m.payload.data,
                                    error: m.payload.error,
                                    message: m.payload.message,
                                },
                            },
                        ),
                    ),
                ),
            ],
        },
        EngineInputView::Shutdown(_) => DispatcherNext {
            stage: DispatcherStage::Ended,
            queues: q,
            actions: seq![
                DispatcherActionView::StopExecutor,
                DispatcherActionView::AwaitExecutor,
            ],
        },
    }
}

/// The plugins have seen a user message. What they left of it joins the queue that
/// the sender meant it for; if they blocked it, or left no user message, it is gone.
pub open spec fn on_user_checked(
    q: MessageQueuesView,
    mode: UserMessageMode,
    checked: Option<OutputEventView>,
) -> DispatcherNext {
    match checked {
        Some(OutputEventView::User(m)) => {
            let after = q.put(QueuedUserMessageView { mode, message: m });
            DispatcherNext {
                stage: DispatcherStage::Listening,
                queues: after,
                actions: seq![
                    DispatcherActionView::Wake,
                    DispatcherActionView::Announce(
                        queue_update(m.base, after, QueueUpdateKind::Enqueued),
                    ),
                ],
            }
        },
        _ => DispatcherNext {
            stage: DispatcherStage::Listening,
            queues: q,
            actions: Seq::empty(),
        },
    }
}

/// What the dispatcher comes to, given what happened.
pub open spec fn dispatcher_step(
    stage: DispatcherStage,
    q: MessageQueuesView,
    e: DispatcherEventView,
) -> DispatcherNext {
    match (stage, e) {
        (DispatcherStage::Listening, DispatcherEventView::Input(input)) => on_input(q, input),
        (DispatcherStage::Listening, DispatcherEventView::Closed) => DispatcherNext {
            stage: DispatcherStage::Ended,
            queues: q,
            actions: seq![DispatcherActionView::AwaitExecutor],
        },
        (DispatcherStage::Checking(mode), DispatcherEventView::Checked(checked)) => on_user_checked(
            q,
            mode,
            checked,
        ),
        _ => DispatcherNext { stage, queues: q, actions: Seq::empty() },
    }
}

impl Engine {
    /// A dispatcher that waits for something to come in.
    pub fn new() -> (res: Engine)
        ensures
            res.stage == DispatcherStage::Listening,
    {
        Engine { stage: DispatcherStage::Listening }
    }

    /// Something has come in.
    fn handle_input(&mut self, queues: &MessageQueues, input: EngineInput) -> (res: Vec<
        DispatcherAction,
    >)
        ensures
            (DispatcherNext {
                stage: final(self).stage,
                queues: queues@,
                actions: res.deep_view(),
            }) == on_input(queues@, input@),
    {
        let ghost view = input@;
        let mut actions: Vec<DispatcherAction> = empty_list();
        match input {
            EngineInput::User(m) => {
                self.stage = DispatcherStage::Checking(m.payload.mode);
                let event = OutputEvent::User(
                    Envelope {
                        base: m.base,
                        payload: UserPayload {
                            content: m.payload.content,
                            images: m.payload.images,
                            mode: m.payload.mode,
                            source: m.payload.source,
                            client_message_id: m.payload.client_message_id,
                        },
                    },
                );
                push_item(&mut actions, DispatcherAction::Check(event));
            },
            EngineInput::Interrupt(m) => {
                self.stage = DispatcherStage::Listening;
                let payload = InterruptPayload {
                    reason: m.payload.reason,
                    source: m.payload.source,
                };
                let event = OutputEvent::Interrupt(
                    Envelope { base: m.base, payload: payload.dup() },
                );
                push_item(
                    &mut actions,
                    DispatcherAction::Interrupt(CommandedInterrupt { event, payload }),
                );
            },
            EngineInput::Plugin(m) => {
                self.stage = DispatcherStage::Listening;
                let event = OutputEvent::Plugin(
                    Envelope {
                        base: m.base,
                        payload: PluginPayload {
                            source: m.payload.source,
                            event_type: m.payload.event_type,
                            data: m.payload.data,
                            error: m.payload.error,
                            message: m.payload.message,
                        },
                    },
                );
                push_item(&mut actions, DispatcherAction::Send(Outgoing::Notice(event)));
            },
            EngineInput::Shutdown(_) => {
                self.stage = DispatcherStage::Ended;
                push_item(&mut actions, DispatcherAction::StopExecutor);
                push_item(&mut actions, DispatcherAction::AwaitExecutor);
            },
        }
        assert(actions.deep_view() =~= on_input(queues@, view).actions);
        actions
    }

    /// Tells the dispatcher what happened. Returns what it asks for, in order.
    pub fn run(&mut self, queues: &mut MessageQueues, event: DispatcherEvent) -> (res: Vec<
        DispatcherAction,
    >)
        ensures
            (DispatcherNext {
                stage: final(self).stage,
                queues: final(queues)@,
                actions: res.deep_view(),
            }) == dispatcher_step(old(self).stage, old(queues)@, event@),
    {
        let ghost q = queues@;
        let ghost view = event@;
        let ghost stage = self.stage;
        let mut actions: Vec<DispatcherAction> = empty_list();
        match event {
            DispatcherEvent::Input(input) => {
                if let DispatcherStage::Listening = self.stage {
                    return self.handle_input(queues, input);
                }
            },
            DispatcherEvent::Closed => {
                if let DispatcherStage::Listening = self.stage {
                    self.stage = DispatcherStage::Ended;
                    push_item(&mut actions, DispatcherAction::AwaitExecutor);
                }
            },
            DispatcherEvent::Checked(checked) => {
                if let DispatcherStage::Checking(mode) = self.stage {
                    self.stage = DispatcherStage::Listening;
                    if let Some(OutputEvent::User(message)) = checked {
                        let base = message.base.dup();
                        queues.put(QueuedUserMessage { mode, message });
                        push_item(&mut actions, DispatcherAction::Wake);
                        push_item(
                            &mut actions,
                            DispatcherAction::Announce(
                                queues.update_event(base, QueueUpdateKind::Enqueued),
                            ),
                        );
                    }
                }
            },
        }
        assert(actions.deep_view() =~= dispatcher_step(stage, q, view).actions);
        actions
    }
}

/// A message that the plugins leave alone joins the queue it was meant for with the
/// identity, the time and the text it came in with, and the user is told of it under
/// the same identity.
pub proof fn law_a_message_keeps_its_identity(q: MessageQueuesView, input: EngineInputView)
    requires
        input is User,
    ensures
        ({
            let n = dispatcher_step(
                DispatcherStage::Listening,
                q,
                DispatcherEventView::Input(input),
            );
            let event = n.actions[0]->Check_0;
            let m = dispatcher_step(n.stage, n.queues, DispatcherEventView::Checked(Some(event)));
            let sent = input->User_0;
            let queued = QueuedUserMessageView {
                mode: sent.payload.mode,
                message: event->User_0,
            };
            &&& n.queues == q
            &&& m.queues == q.put(queued)
            &&& queued.message.base == sent.base
            &&& queued.message.payload.content == sent.payload.content
            &&& m.actions[1] == DispatcherActionView::Announce(
                queue_update(sent.base, m.queues, QueueUpdateKind::Enqueued),
            )
            &&& m.stage == DispatcherStage::Listening
        }),
{
}

/// A message that the plugins block is gone: the queues stay as they are and nobody
/// is told of it.
pub proof fn law_a_blocked_message_is_gone(q: MessageQueuesView, mode: UserMessageMode)
    ensures
        dispatcher_step(
            DispatcherStage::Checking(mode),
            q,
            DispatcherEventView::Checked(None),
        ) == (DispatcherNext {
            stage: DispatcherStage::Listening,
            queues: q,
            actions: Seq::empty(),
        }),
{
}

/// A user message is put to the plugins as it came: under its base, with its text, its
/// images, its queue, its source and its sender's name for it. What they leave of it
/// joins the queue that the sender meant it for, at the end, whatever they made of its
/// mode; the executor is woken, and the user is told how long the queues are now.
pub proof fn law_the_way_of_a_user_message(
    q: MessageQueuesView,
    input: EngineInputView,
    left: UserMessageView,
)
    requires
        input is User,
    ensures
        ({
            let sent = input->User_0;
            let n = dispatcher_step(
                DispatcherStage::Listening,
                q,
                DispatcherEventView::Input(input),
            );
            let shown = n.actions[0]->Check_0->User_0;
            let m = dispatcher_step(
                n.stage,
                n.queues,
                DispatcherEventView::Checked(Some(OutputEventView::User(left))),
            );
            let told = m.actions[1]->Announce_0->QueueUpdate_0;
            &&& n.queues == q
            &&& n.actions.len() == 1
            &&& n.actions[0] is Check
            &&& n.actions[0]->Check_0 is User
            &&& shown.base == sent.base
            &&& shown.payload.content == sent.payload.content
            &&& shown.payload.images == sent.payload.images
            &&& shown.payload.mode == sent.payload.mode
            &&& shown.payload.source == sent.payload.source
            &&& shown.payload.client_message_id == sent.payload.client_message_id
            &&& sent.payload.mode == UserMessageMode::Guide ==> m.queues.pending == q.pending
                && m.queues.guide.len() == q.guide.len() + 1 && m.queues.guide.drop_last()
                == q.guide && m.queues.guide.last().message == left && m.queues.guide.last().mode
                == UserMessageMode::Guide
            &&& sent.payload.mode == UserMessageMode::Pending ==> m.queues.guide == q.guide
                && m.queues.pending.len() == q.pending.len() + 1 && m.queues.pending.drop_last()
                == q.pending && m.queues.pending.last().message == left
                && m.queues.pending.last().mode == UserMessageMode::Pending
            &&& m.actions.len() == 2
            &&& m.actions[0] is Wake
            &&& m.actions[1] is Announce
            &&& m.actions[1]->Announce_0 is QueueUpdate
            &&& told.base == left.base
            &&& m.queues.guide.len() <= usize::MAX ==> told.payload.guide_count
                == m.queues.guide.len()
            &&& m.queues.pending.len() <= usize::MAX ==> told.payload.pending_count
                == m.queues.pending.len()
            &&& told.payload.kind == QueueUpdateKind::Enqueued
            &&& m.stage == DispatcherStage::Listening
        }),
{
    assert(q.guide.push(
        QueuedUserMessageView { mode: input->User_0.payload.mode, message: left },
    ).drop_last() =~= q.guide);
    assert(q.pending.push(
        QueuedUserMessageView { mode: input->User_0.payload.mode, message: left },
    ).drop_last() =~= q.pending);
}

/// An interrupt is shown under its base and goes to the executor with its reason and its
/// source; a notice of a plugin is shown as it came. Neither touches the queues.
pub proof fn law_what_passes_through(q: MessageQueuesView, input: EngineInputView)
    ensures
        input is Interrupt ==> {
            let sent = input->Interrupt_0;
            let n = dispatcher_step(
                DispatcherStage::Listening,
                q,
                DispatcherEventView::Input(input),
            );
            let told = n.actions[0]->Interrupt_0;
            &&& n.queues == q
            &&& n.stage == DispatcherStage::Listening
            &&& n.actions.len() == 1
            &&& n.actions[0] is Interrupt
            &&& told.event is Interrupt
            &&& told.event->Interrupt_0.base == sent.base
            &&& told.event->Interrupt_0.payload.reason == sent.payload.reason
            &&& told.event->Interrupt_0.payload.source == sent.payload.source
            &&& told.payload.reason == sent.payload.reason
            &&& told.payload.source == sent.payload.source
        },
        input is Plugin ==> {
            let sent = input->Plugin_0;
            let n = dispatcher_step(
                DispatcherStage::Listening,
                q,
                DispatcherEventView::Input(input),
            );
            let shown = n.actions[0]->Send_0->Notice_0->Plugin_0;
            &&& n.queues == q
            &&& n.stage == DispatcherStage::Listening
            &&& n.actions.len() == 1
            &&& n.actions[0] is Send
            &&& n.actions[0]->Send_0 is Notice
            &&& n.actions[0]->Send_0->Notice_0 is Plugin
            &&& shown.base == sent.base
            &&& shown.payload.source == sent.payload.source
            &&& shown.payload.event_type == sent.payload.event_type
            &&& shown.payload.data == sent.payload.data
            &&& shown.payload.error == sent.payload.error
            &&& shown.payload.message == sent.payload.message
        },
{
}

/// A shutdown stops the executor and then waits for it to end; where nothing can come in
/// any more there is nobody to stop it, and the wait is all there is. A dispatcher that
/// has ended does nothing more.
pub proof fn law_how_a_dispatcher_ends(
    q: MessageQueuesView,
    input: EngineInputView,
    e: DispatcherEventView,
)
    ensures
        input is Shutdown ==> {
            let n = dispatcher_step(
                DispatcherStage::Listening,
                q,
                DispatcherEventView::Input(input),
            );
            &&& n.stage == DispatcherStage::Ended
            &&& n.queues == q
            &&& n.actions.len() == 2
            &&& n.actions[0] is StopExecutor
            &&& n.actions[1] is AwaitExecutor
        },
        ({
            let n = dispatcher_step(DispatcherStage::Listening, q, DispatcherEventView::Closed);
            &&& n.stage == DispatcherStage::Ended
            &&& n.queues == q
            &&& n.actions.len() == 1
            &&& n.actions[0] is AwaitExecutor
        }),
        dispatcher_step(DispatcherStage::Ended, q, e) == (DispatcherNext {
            stage: DispatcherStage::Ended,
            queues: q,
            actions: Seq::empty(),
        }),
{
}

} // verus!
