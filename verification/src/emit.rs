//! Every event that leaves a session carries the session's name.
use crate::message::{EventBase, EventBaseView, Envelope, EnvelopeView, OutputEvent, OutputEventView, Timestamp};
use crate::model::Dup;
use vstd::prelude::*;

verus! {

/// A base that says nothing yet: whoever delivers the event fills in its
/// identity and its time.
pub open spec fn blank_base() -> EventBaseView {
    EventBaseView { id: ""@, seq: None, timestamp: Timestamp { bits: 0 }, session_id: None }
}

impl EventBase {
    /// A base that says nothing yet.
    pub fn new() -> (res: EventBase)
        ensures
            res@ == blank_base(),
    {
        EventBase { id: "".to_owned(), seq: None, timestamp: Timestamp { bits: 0 }, session_id: None }
    }
}

/// A payload under a base that says nothing yet.
pub open spec fn unsent<V>(payload: V) -> EnvelopeView<V> {
    EnvelopeView { base: blank_base(), payload }
}

/// Puts a payload under a base that says nothing yet.
pub fn envelope<P: DeepView>(payload: P) -> (res: Envelope<P>)
    ensures
        res@ == unsent(payload.deep_view()),
        res.payload == payload,
{
    Envelope { base: EventBase::new(), payload }
}

impl OutputEventView {
    /// The base of an event.
    pub open spec fn base(self) -> EventBaseView {
        match self {
            OutputEventView::Chunk(m) => m.base,
            OutputEventView::User(m) => m.base,
            OutputEventView::ToolCall(m) => m.base,
            OutputEventView::ToolResult(m) => m.base,
            OutputEventView::Assistant(m) => m.base,
            OutputEventView::Interrupt(m) => m.base,
            OutputEventView::Error(m) => m.base,
            OutputEventView::Plugin(m) => m.base,
            OutputEventView::Compression(m) => m.base,
            OutputEventView::Title(m) => m.base,
            OutputEventView::Retry(m) => m.base,
            OutputEventView::Control(m) => m.base,
            OutputEventView::Rollback(m) => m.base,
            OutputEventView::QueueUpdate(m) => m.base,
            OutputEventView::TurnStart(base) => base,
        }
    }

    /// The event with another base.
    pub open spec fn with_base(self, base: EventBaseView) -> OutputEventView {
        match self {
            OutputEventView::Chunk(m) => OutputEventView::Chunk(
                EnvelopeView { base, payload: m.payload },
            ),
            OutputEventView::User(m) => OutputEventView::User(
                EnvelopeView { base, payload: m.payload },
            ),
            OutputEventView::ToolCall(m) => OutputEventView::ToolCall(
                EnvelopeView { base, payload: m.payload },
            ),
            OutputEventView::ToolResult(m) => OutputEventView::ToolResult(
                EnvelopeView { base, payload: m.payload },
            ),
            OutputEventView::Assistant(m) => OutputEventView::Assistant(
                EnvelopeView { base, payload: m.payload },
            ),
            OutputEventView::Interrupt(m) => OutputEventView::Interrupt(
                EnvelopeView { base, payload: m.payload },
            ),
            OutputEventView::Error(m) => OutputEventView::Error(
                EnvelopeView { base, payload: m.payload },
            ),
            OutputEventView::Plugin(m) => OutputEventView::Plugin(
                EnvelopeView { base, payload: m.payload },
            ),
            OutputEventView::Compression(m) => OutputEventView::Compression(
                EnvelopeView { base, payload: m.payload },
            ),
            OutputEventView::Title(m) => OutputEventView::Title(
                EnvelopeView { base, payload: m.payload },
            ),
            OutputEventView::Retry(m) => OutputEventView::Retry(
                EnvelopeView { base, payload: m.payload },
            ),
            OutputEventView::Control(m) => OutputEventView::Control(
                EnvelopeView { base, payload: m.payload },
            ),
            OutputEventView::Rollback(m) => OutputEventView::Rollback(
                EnvelopeView { base, payload: m.payload },
            ),
            OutputEventView::QueueUpdate(m) => OutputEventView::QueueUpdate(
                EnvelopeView { base, payload: m.payload },
            ),
            OutputEventView::TurnStart(_) => OutputEventView::TurnStart(base),
        }
    }

    /// The event under a session's name.
    pub open spec fn stamped(self, session_id: Seq<char>) -> OutputEventView {
        self.with_base(EventBaseView { session_id: Some(session_id), ..self.base() })
    }

    /// The event with its place in the history.
    pub open spec fn at_seq(self, seq: i64) -> OutputEventView {
        self.with_base(EventBaseView { seq: Some(seq), ..self.base() })
    }
}

impl OutputEvent {
    /// The base of an event.
    pub fn base(&self) -> (res: &EventBase)
        ensures
            res@ == self@.base(),
    {
        match self {
            OutputEvent::Chunk(m) => &m.base,
            OutputEvent::User(m) => &m.base,
            OutputEvent::ToolCall(m) => &m.base,
            OutputEvent::ToolResult(m) => &m.base,
            OutputEvent::Assistant(m) => &m.base,
            OutputEvent::Interrupt(m) => &m.base,
            OutputEvent::Error(m) => &m.base,
            OutputEvent::Plugin(m) => &m.base,
            OutputEvent::Compression(m) => &m.base,
            OutputEvent::Title(m) => &m.base,
            OutputEvent::Retry(m) => &m.base,
            OutputEvent::Control(m) => &m.base,
            OutputEvent::Rollback(m) => &m.base,
            OutputEvent::QueueUpdate(m) => &m.base,
            OutputEvent::TurnStart(base) => base,
        }
    }

    /// The event with another base.
    pub fn with_base(self, base: EventBase) -> (res: OutputEvent)
        ensures
            res@ == self@.with_base(base@),
    {
        match self {
            OutputEvent::Chunk(m) => OutputEvent::Chunk(Envelope { base, payload: m.payload }),
            OutputEvent::User(m) => OutputEvent::User(Envelope { base, payload: m.payload }),
            OutputEvent::ToolCall(m) => OutputEvent::ToolCall(Envelope { base, payload: m.payload }),
            OutputEvent::ToolResult(m) => OutputEvent::ToolResult(Envelope { base, payload: m.payload }),
            OutputEvent::Assistant(m) => OutputEvent::Assistant(Envelope { base, payload: m.payload }),
            OutputEvent::Interrupt(m) => OutputEvent::Interrupt(Envelope { base, payload: m.payload }),
            OutputEvent::Error(m) => OutputEvent::Error(Envelope { base, payload: m.payload }),
            OutputEvent::Plugin(m) => OutputEvent::Plugin(Envelope { base, payload: m.payload }),
            OutputEvent::Compression(m) => OutputEvent::Compression(Envelope { base, payload: m.payload }),
            OutputEvent::Title(m) => OutputEvent::Title(Envelope { base, payload: m.payload }),
            OutputEvent::Retry(m) => OutputEvent::Retry(Envelope { base, payload: m.payload }),
            OutputEvent::Control(m) => OutputEvent::Control(Envelope { base, payload: m.payload }),
            OutputEvent::Rollback(m) => OutputEvent::Rollback(Envelope { base, payload: m.payload }),
            OutputEvent::QueueUpdate(m) => OutputEvent::QueueUpdate(Envelope { base, payload: m.payload }),
            OutputEvent::TurnStart(_) => OutputEvent::TurnStart(base),
        }
    }
}

/// Writes a session's name on an event, whatever kind of event it is.
pub fn stamp_session_id(event: OutputEvent, session_id: &str) -> (res: OutputEvent)
    ensures
        res@ == event@.stamped(session_id@),
{
    let mut base = event.base().dup();
    base.session_id = Some(session_id.to_owned());
    event.with_base(base)
}

/// Writes on an event where its message stands in the history.
pub fn set_seq(event: OutputEvent, seq: i64) -> (res: OutputEvent)
    ensures
        res@ == event@.at_seq(seq),
{
    let mut base = event.base().dup();
    base.seq = Some(seq);
    event.with_base(base)
}

/// A stamped event carries the session's name and is otherwise as it was, whatever
/// kind of event it is; the last stamp counts.
pub proof fn law_stamp_touches_only_the_session(
    event: OutputEventView,
    session_id: Seq<char>,
    other: Seq<char>,
)
    ensures
        event.stamped(session_id).base().session_id == Some(session_id),
        event.stamped(session_id).with_base(event.base()) == event,
        event.stamped(other).stamped(session_id) == event.stamped(session_id),
        event.stamped(session_id).base().seq == event.base().seq,
        event.stamped(session_id).base().id == event.base().id,
        event.stamped(session_id).base().timestamp == event.base().timestamp,
{
}

/// The name and the place can be written in either order.
pub proof fn law_stamp_and_seq_commute(event: OutputEventView, session_id: Seq<char>, seq: i64)
    ensures
        event.stamped(session_id).at_seq(seq) == event.at_seq(seq).stamped(session_id),
{
}

/// A session's way out: what it emits carries its name.
pub struct Emitter {
    session_id: String,
}

impl Emitter {
    /// The name that goes on every event.
    pub closed spec fn name(&self) -> Seq<char> {
        self.session_id@
    }

    /// The way out of a session.
    pub fn new(session_id: String) -> (res: Emitter)
        ensures
            res.name() == session_id@,
    {
        Emitter { session_id }
    }

    /// The event as it leaves the session.
    pub fn emit(&self, event: OutputEvent) -> (res: OutputEvent)
        ensures
            res@ == event@.stamped(self.name()),
    {
        stamp_session_id(event, self.session_id.as_str())
    }

    /// The session's name.
    pub fn session_id(&self) -> (res: &str)
        ensures
            res@ == self.name(),
    {
        self.session_id.as_str()
    }
}

/// An event with another base is the same event under that base, and an event that is
/// put at a place in the history carries the place and is otherwise as it was.
pub proof fn law_a_place_touches_only_the_place(
    event: OutputEventView,
    base: EventBaseView,
    seq: i64,
)
    ensures
        event.with_base(base).base() == base,
        event.with_base(base).with_base(event.base()) == event,
        event.at_seq(seq).base().seq == Some(seq),
        event.at_seq(seq).base().id == event.base().id,
        event.at_seq(seq).base().timestamp == event.base().timestamp,
        event.at_seq(seq).base().session_id == event.base().session_id,
        event.at_seq(seq).with_base(event.base()) == event,
{
}

/// A payload is put under a base that says nothing: no name, no place, no time, no
/// session.
pub proof fn law_a_new_event_says_nothing_but_its_payload<V>(payload: V)
    ensures
        unsent(payload).payload == payload,
        unsent(payload).base.id == ""@,
        unsent(payload).base.seq is None,
        unsent(payload).base.timestamp.bits == 0,
        unsent(payload).base.session_id is None,
{
}

} // verus!
