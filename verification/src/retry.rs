//! Calling the model again when a call fails.
//!
//! A call is repeated only while nothing of its reply has been shown: what has
//! been shown cannot be taken back. It is repeated only where the failure may pass,
//! and only so often. The user is told of each repetition before it happens.
use crate::chat::{StreamResult, StreamResultView};
use crate::emit::{envelope, unsent};
use crate::interrupt::{Outgoing, OutgoingView};
use crate::message::{OutputEvent, OutputEventView, RetryPayload, RetryPayloadView};
use crate::model::{empty_list, push_item, Dup};
use vstd::prelude::*;

verus! {

/// A call that failed.
#[derive(Debug)]
pub struct StreamFailure {
    /// Why.
    pub cause: String,
    /// Whether the failure may pass.
    pub retryable: bool,
    /// Whether anything of the reply had been shown.
    pub started: bool,
    /// How long to wait before another call.
    pub wait_ms: u64,
}

/// The mathematical value of a [`StreamFailure`].
#[verifier::ext_equal]
pub struct StreamFailureView {
    pub cause: Seq<char>,
    pub retryable: bool,
    pub started: bool,
    pub wait_ms: u64,
}

impl View for StreamFailure {
    type V = StreamFailureView;

    open spec fn view(&self) -> StreamFailureView {
        StreamFailureView {
            cause: self.cause@,
            retryable: self.retryable,
            started: self.started,
            wait_ms: self.wait_ms,
        }
    }
}

impl DeepView for StreamFailure {
    type V = StreamFailureView;

    open spec fn deep_view(&self) -> StreamFailureView {
        self@
    }
}

impl Dup for StreamFailure {
    fn dup(&self) -> (res: Self) {
        StreamFailure {
            cause: self.cause.dup(),
            retryable: self.retryable,
            started: self.started,
            wait_ms: self.wait_ms,
        }
    }
}

/// What is told of a call.
#[derive(Debug)]
pub enum RetryEvent {
    /// The call succeeded.
    Streamed(StreamResult),
    /// The call failed.
    Failed(StreamFailure),
    /// The wait is over.
    Waited,
    /// The engine shuts down during the wait.
    Shutdown,
}

/// The mathematical value of a [`RetryEvent`].
#[verifier::ext_equal]
pub enum RetryEventView {
    Streamed(StreamResultView),
    Failed(StreamFailureView),
    Waited,
    Shutdown,
}

impl View for RetryEvent {
    type V = RetryEventView;

    open spec fn view(&self) -> RetryEventView {
        match self {
            RetryEvent::Streamed(x) => RetryEventView::Streamed(x@),
            RetryEvent::Failed(x) => RetryEventView::Failed(x@),
            RetryEvent::Waited => RetryEventView::Waited,
            RetryEvent::Shutdown => RetryEventView::Shutdown,
        }
    }
}

impl DeepView for RetryEvent {
    type V = RetryEventView;

    open spec fn deep_view(&self) -> RetryEventView {
        self@
    }
}

impl Dup for RetryEvent {
    fn dup(&self) -> (res: Self) {
        match self {
            RetryEvent::Streamed(x) => RetryEvent::Streamed(x.dup()),
            RetryEvent::Failed(x) => RetryEvent::Failed(x.dup()),
            RetryEvent::Waited => RetryEvent::Waited,
            RetryEvent::Shutdown => RetryEvent::Shutdown,
        }
    }
}

/// What is asked for.
#[derive(Debug)]
pub enum RetryAction {
    /// Call the model, with nothing kept of a call before.
    Call,
    /// Send an event.
    Send(Outgoing),
    /// Wait for so many milliseconds.
    Sleep(u64),
    /// The reply.
    Return(StreamResult),
    /// There is no reply, for this reason.
    Fail(String),
    /// There is no reply, since the engine shuts down.
    Cancel,
}

/// The mathematical value of a [`RetryAction`].
#[verifier::ext_equal]
pub enum RetryActionView {
    Call,
    Send(OutgoingView),
    Sleep(u64),
    Return(StreamResultView),
    Fail(Seq<char>),
    Cancel,
}

impl View for RetryAction {
    type V = RetryActionView;

    open spec fn view(&self) -> RetryActionView {
        match self {
            RetryAction::Call => RetryActionView::Call,
            RetryAction::Send(x) => RetryActionView::Send(x@),
            RetryAction::Sleep(x) => RetryActionView::Sleep(*x),
            RetryAction::Return(x) => RetryActionView::Return(x@),
            RetryAction::Fail(x) => RetryActionView::Fail(x@),
            RetryAction::Cancel => RetryActionView::Cancel,
        }
    }
}

impl DeepView for RetryAction {
    type V = RetryActionView;

    open spec fn deep_view(&self) -> RetryActionView {
        self@
    }
}

impl Dup for RetryAction {
    fn dup(&self) -> (res: Self) {
        match self {
            RetryAction::Call => RetryAction::Call,
            RetryAction::Send(x) => RetryAction::Send(x.dup()),
            RetryAction::Sleep(x) => RetryAction::Sleep(*x),
            RetryAction::Return(x) => RetryAction::Return(x.dup()),
            RetryAction::Fail(x) => RetryAction::Fail(x.dup()),
            RetryAction::Cancel => RetryAction::Cancel,
        }
    }
}

/// Where a row of calls stands.
#[derive(Clone, Copy, Debug, PartialEq, Eq, Structural)]
pub enum RetryStage {
    /// The model has been called.
    Calling,
    /// The wait before another call is on.
    Waiting,
    /// It is over.
    Over,
}

/// A row of calls with the same request.
#[derive(Clone, Copy, Debug)]
pub struct RetryRun {
    pub stage: RetryStage,
    /// The call that was made last, counted from 1.
    pub attempt: u32,
    /// How often a call is repeated at most.
    pub max_retries: u32,
}

impl RetryRun {
    /// There is a first call, and no call beyond the limit.
    pub open spec fn wf(self) -> bool {
        &&& self.max_retries < u32::MAX
        &&& 1 <= self.attempt <= self.max_retries + 1
        &&& self.stage == RetryStage::Waiting ==> self.attempt <= self.max_retries
    }
}

/// Whether a failed call is the last: its reply had begun, the failure will not
/// pass, or it has been repeated often enough.
pub open spec fn gives_up(r: RetryRun, f: StreamFailureView) -> bool {
    f.started || !f.retryable || r.attempt > r.max_retries
}

/// What the user is told before a call is repeated.
pub open spec fn retry_notice(r: RetryRun, f: StreamFailureView) -> OutgoingView {
    OutgoingView::Notice(
        OutputEventView::Retry(
            unsent(
                RetryPayloadView {
                    attempt: r.attempt,
                    max_retries: r.max_retries,
                    wait_ms: f.wait_ms,
                    cause: f.cause,
                },
            ),
        ),
    )
}

/// What a row of calls comes to, given what happened.
pub open spec fn retry_step(r: RetryRun, e: RetryEventView) -> (RetryRun, Seq<RetryActionView>) {
    let over = RetryRun { stage: RetryStage::Over, ..r };
    match (e, r.stage) {
        (RetryEventView::Streamed(result), RetryStage::Calling) => (
            over,
            seq![RetryActionView::Return(result)],
        ),
        (RetryEventView::Failed(f), RetryStage::Calling) => if gives_up(r, f) {
            (over, seq![RetryActionView::Fail(f.cause)])
        } else {
            (
                RetryRun { stage: RetryStage::Waiting, ..r },
                seq![
                    RetryActionView::Send(retry_notice(r, f)),
                    RetryActionView::Sleep(f.wait_ms),
                ],
            )
        },
        (RetryEventView::Waited, RetryStage::Waiting) => (
            RetryRun { stage: RetryStage::Calling, attempt: (r.attempt + 1) as u32, ..r },
            seq![RetryActionView::Call],
        ),
        (RetryEventView::Shutdown, RetryStage::Waiting) => (over, seq![RetryActionView::Cancel]),
        _ => (r, Seq::empty()),
    }
}

impl RetryRun {
    /// Makes the first call.
    pub fn begin(max_retries: u32) -> (res: (RetryRun, Vec<RetryAction>))
        requires
            max_retries < u32::MAX,
        ensures
            res.0 == (RetryRun { stage: RetryStage::Calling, attempt: 1, max_retries }),
            res.0.wf(),
            res.1.deep_view() == seq![RetryActionView::Call],
    {
        let mut actions: Vec<RetryAction> = empty_list();
        push_item(&mut actions, RetryAction::Call);
        assert(actions.deep_view() =~= seq![RetryActionView::Call]);
        (RetryRun { stage: RetryStage::Calling, attempt: 1, max_retries }, actions)
    }

    /// Tells what happened. Returns what is asked for, in order.
    pub fn step(&mut self, event: RetryEvent) -> (res: Vec<RetryAction>)
        requires
            old(self).wf(),
        ensures
            (*final(self), res.deep_view()) == retry_step(*old(self), event@),
            final(self).wf(),
    {
        let ghost r = *self;
        let ghost e = event@;
        let mut actions: Vec<RetryAction> = empty_list();
        match event {
            RetryEvent::Streamed(result) => {
                if let RetryStage::Calling = self.stage {
                    self.stage = RetryStage::Over;
                    push_item(&mut actions, RetryAction::Return(result));
                }
            },
            RetryEvent::Failed(f) => {
                if let RetryStage::Calling = self.stage {
                    if f.started || !f.retryable || self.attempt > self.max_retries {
                        self.stage = RetryStage::Over;
                        push_item(&mut actions, RetryAction::Fail(f.cause));
                    } else {
                        let payload = RetryPayload {
                            attempt: self.attempt,
                            max_retries: self.max_retries,
                            wait_ms: f.wait_ms,
                            cause: f.cause,
                        };
                        self.stage = RetryStage::Waiting;
                        push_item(
                            &mut actions,
                            RetryAction::Send(
                                Outgoing::Notice(OutputEvent::Retry(envelope(payload))),
                            ),
                        );
                        push_item(&mut actions, RetryAction::Sleep(f.wait_ms));
                    }
                }
            },
            RetryEvent::Waited => {
                if let RetryStage::Waiting = self.stage {
                    self.stage = RetryStage::Calling;
                    self.attempt = self.attempt + 1;
                    push_item(&mut actions, RetryAction::Call);
                }
            },
            RetryEvent::Shutdown => {
                if let RetryStage::Waiting = self.stage {
                    self.stage = RetryStage::Over;
                    push_item(&mut actions, RetryAction::Cancel);
                }
            },
        }
        assert(actions.deep_view() =~= retry_step(r, e).1);
        actions
    }
}

// ---- laws ----

/// Where a row of calls stands after a row of events, and all that was asked for.
pub open spec fn retry_run(r: RetryRun, events: Seq<RetryEventView>) -> (
    RetryRun,
    Seq<RetryActionView>,
)
    decreases events.len(),
{
    if events.len() == 0 {
        (r, Seq::empty())
    } else {
        let (n, actions) = retry_run(r, events.drop_last());
        let (m, more) = retry_step(n, events.last());
        (m, actions + more)
    }
}

/// How many calls a row of actions asks for.
pub open spec fn calls_made(actions: Seq<RetryActionView>) -> nat
    decreases actions.len(),
{
    if actions.len() == 0 {
        0
    } else {
        calls_made(actions.drop_last()) + if actions.last() is Call {
            1nat
        } else {
            0nat
        }
    }
}

proof fn lemma_calls_add(a: Seq<RetryActionView>, b: Seq<RetryActionView>)
    ensures
        calls_made(a + b) == calls_made(a) + calls_made(b),
    decreases b.len(),
{
    if b.len() == 0 {
        assert(a + b =~= a);
    } else {
        assert((a + b).drop_last() =~= a + b.drop_last());
        lemma_calls_add(a, b.drop_last());
    }
}

/// Whatever happens, a call is repeated no more often than the limit says, and the
/// count of attempts is the count of calls.
pub proof fn law_calls_are_bounded(r: RetryRun, events: Seq<RetryEventView>)
    requires
        r.wf(),
    ensures
        retry_run(r, events).0.wf(),
        retry_run(r, events).0.max_retries == r.max_retries,
        r.attempt + calls_made(retry_run(r, events).1) == retry_run(r, events).0.attempt,
        r.attempt + calls_made(retry_run(r, events).1) <= r.max_retries + 1,
    decreases events.len(),
{
    if events.len() > 0 {
        law_calls_are_bounded(r, events.drop_last());
        let (n, actions) = retry_run(r, events.drop_last());
        let (m, more) = retry_step(n, events.last());
        lemma_calls_add(actions, more);
        reveal_with_fuel(calls_made, 3);
        if more.len() > 0 {
            assert(more.drop_last().len() <= 1);
        }
    }
}

/// Once anything of a reply has been shown, or where the failure will not pass, a
/// failed call is not repeated, and the user is not told that it will be.
pub proof fn law_no_retry_after_output(r: RetryRun, f: StreamFailureView)
    requires
        r.stage == RetryStage::Calling,
        f.started || !f.retryable,
    ensures
        retry_step(r, RetryEventView::Failed(f)) == (
            RetryRun { stage: RetryStage::Over, ..r },
            seq![RetryActionView::Fail(f.cause)],
        ),
{
}

/// A failure that may pass, before anything was shown and within the limit, is
/// announced, waited out and followed by one more call.
pub proof fn law_passing_failure_is_retried(r: RetryRun, f: StreamFailureView)
    requires
        r.wf(),
        r.stage == RetryStage::Calling,
        !f.started,
        f.retryable,
        r.attempt <= r.max_retries,
    ensures
        ({
            let (n, actions) = retry_step(r, RetryEventView::Failed(f));
            let (m, more) = retry_step(n, RetryEventView::Waited);
            &&& actions == seq![
                RetryActionView::Send(retry_notice(r, f)),
                RetryActionView::Sleep(f.wait_ms),
            ]
            &&& more == seq![RetryActionView::Call]
            &&& m.stage == RetryStage::Calling
            &&& m.attempt == r.attempt + 1
        }),
{
}

/// What is over stays over.
pub proof fn law_over_is_over(r: RetryRun, e: RetryEventView)
    requires
        r.stage == RetryStage::Over,
    ensures
        retry_step(r, e) == (r, Seq::<RetryActionView>::empty()),
{
}

/// A reply is handed on as it came. A failure is handed on with its cause once anything
/// was shown, where it will not pass, or when the call has been repeated as often as it
/// may be; else the user is told which attempt failed, of how many, why, and how long the
/// wait is, and that is how long it is. A shutdown during the wait ends it.
pub proof fn law_what_follows_a_call(r: RetryRun, result: StreamResultView, f: StreamFailureView)
    ensures
        r.stage == RetryStage::Calling ==> {
            let (n, actions) = retry_step(r, RetryEventView::Streamed(result));
            &&& n.stage == RetryStage::Over
            &&& actions.len() == 1
            &&& actions[0] is Return
            &&& actions[0]->Return_0 == result
        },
        r.stage == RetryStage::Calling && (f.started || !f.retryable || r.attempt > r.max_retries)
            ==> {
            let (n, actions) = retry_step(r, RetryEventView::Failed(f));
            &&& n.stage == RetryStage::Over
            &&& actions.len() == 1
            &&& actions[0] is Fail
            &&& actions[0]->Fail_0 == f.cause
        },
        r.stage == RetryStage::Calling && !f.started && f.retryable && r.attempt <= r.max_retries
            ==> {
            let (n, actions) = retry_step(r, RetryEventView::Failed(f));
            let told = actions[0]->Send_0->Notice_0->Retry_0.payload;
            &&& n.stage == RetryStage::Waiting
            &&& n.attempt == r.attempt
            &&& n.max_retries == r.max_retries
            &&& actions.len() == 2
            &&& actions[0] is Send
            &&& actions[0]->Send_0 is Notice
            &&& actions[0]->Send_0->Notice_0 is Retry
            &&& told.attempt == r.attempt
            &&& told.max_retries == r.max_retries
            &&& told.wait_ms == f.wait_ms
            &&& told.cause == f.cause
            &&& actions[1] is Sleep
            &&& actions[1]->Sleep_0 == f.wait_ms
        },
        r.stage == RetryStage::Waiting ==> {
            let (n, actions) = retry_step(r, RetryEventView::Shutdown);
            &&& n.stage == RetryStage::Over
            &&& actions.len() == 1
            &&& actions[0] is Cancel
        },
{
}

} // verus!
