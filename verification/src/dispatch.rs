//! The way of an event out of a session: the plugins see it, the engine does what
//! it has to do about it, it leaves, and the plugins take note.
//!
//! A plugin can change an event or block it. A blocked event goes no further: nothing
//! is done about it and nobody sees it.
use crate::emit::Emitter;
use crate::message::{OutputEvent, OutputEventView};
use crate::model::{empty_list, push_item, Dup};
use vstd::prelude::*;

verus! {

/// What the plugins make of an event.
#[derive(Debug)]
pub enum InterceptResult {
    /// It goes on, as they left it.
    Pass(OutputEvent),
    /// It goes no further, for this reason.
    Block(String),
}

/// The mathematical value of a [`InterceptResult`].
#[verifier::ext_equal]
pub enum InterceptResultView {
    Pass(OutputEventView),
    Block(Seq<char>),
}

impl View for InterceptResult {
    type V = InterceptResultView;

    open spec fn view(&self) -> InterceptResultView {
        match self {
            InterceptResult::Pass(x) => InterceptResultView::Pass(x@),
            InterceptResult::Block(x) => InterceptResultView::Block(x@),
        }
    }
}

impl DeepView for InterceptResult {
    type V = InterceptResultView;

    open spec fn deep_view(&self) -> InterceptResultView {
        self@
    }
}

impl Dup for InterceptResult {
    fn dup(&self) -> (res: Self) {
        match self {
            InterceptResult::Pass(x) => InterceptResult::Pass(x.dup()),
            InterceptResult::Block(x) => InterceptResult::Block(x.dup()),
        }
    }
}

/// A step of an event on its way out.
#[derive(Debug)]
pub enum PipelineStep {
    /// What the engine itself does about it.
    Process(OutputEvent),
    /// It leaves the session.
    Emit(OutputEvent),
    /// The plugins take note of it.
    Observe(OutputEvent),
}

/// The mathematical value of a [`PipelineStep`].
#[verifier::ext_equal]
pub enum PipelineStepView {
    Process(OutputEventView),
    Emit(OutputEventView),
    Observe(OutputEventView),
}

impl View for PipelineStep {
    type V = PipelineStepView;

    open spec fn view(&self) -> PipelineStepView {
        match self {
            PipelineStep::Process(x) => PipelineStepView::Process(x@),
            PipelineStep::Emit(x) => PipelineStepView::Emit(x@),
            PipelineStep::Observe(x) => PipelineStepView::Observe(x@),
        }
    }
}

impl DeepView for PipelineStep {
    type V = PipelineStepView;

    open spec fn deep_view(&self) -> PipelineStepView {
        self@
    }
}

impl Dup for PipelineStep {
    fn dup(&self) -> (res: Self) {
        match self {
            PipelineStep::Process(x) => PipelineStep::Process(x.dup()),
            PipelineStep::Emit(x) => PipelineStep::Emit(x.dup()),
            PipelineStep::Observe(x) => PipelineStep::Observe(x.dup()),
        }
    }
}
/// Carries out what the engine has to do about an event.
pub fn run<F: FnOnce()>(callback: F)
    requires
        callback.requires(()),
    ensures
        callback.ensures((), ()),
{
    callback()
}

/// What the plugins leave of an event.
pub open spec fn left_of(result: InterceptResultView) -> Option<OutputEventView> {
    match result {
        InterceptResultView::Pass(event) => Some(event),
        InterceptResultView::Block(_) => None,
    }
}

/// What the plugins leave of an event; `None` where they block it.
pub fn intercept(result: InterceptResult) -> (res: Option<OutputEvent>)
    ensures
        res.deep_view() == left_of(result@),
{
    match result {
        InterceptResult::Pass(event) => Some(event),
        InterceptResult::Block(_) => None,
    }
}

/// An event leaves under the name of its session; the plugins then take note of the
/// event as it was before.
pub open spec fn delivery_steps(session_id: Seq<char>, event: OutputEventView) -> Seq<
    PipelineStepView,
> {
    seq![PipelineStepView::Emit(event.stamped(session_id)), PipelineStepView::Observe(event)]
}

/// Has an event leave, and the plugins take note of it.
pub fn deliver(emitter: &Emitter, event: OutputEvent) -> (res: Vec<PipelineStep>)
    ensures
        res.deep_view() == delivery_steps(emitter.name(), event@),
{
    let mut res: Vec<PipelineStep> = empty_list();
    let observed = event.dup();
    push_item(&mut res, PipelineStep::Emit(emitter.emit(event)));
    push_item(&mut res, PipelineStep::Observe(observed));
    assert(res.deep_view() =~= delivery_steps(emitter.name(), event@));
    res
}

/// The way of an event, given what the plugins make of it, and whether the engine
/// has something to do about it.
pub open spec fn dispatch_steps(
    session_id: Seq<char>,
    result: InterceptResultView,
    process: bool,
) -> Seq<PipelineStepView> {
    match result {
        InterceptResultView::Pass(event) => if process {
            seq![PipelineStepView::Process(event)] + delivery_steps(session_id, event)
        } else {
            delivery_steps(session_id, event)
        },
        InterceptResultView::Block(_) => Seq::empty(),
    }
}

/// Sends an event on its way.
pub fn dispatch(emitter: &Emitter, result: InterceptResult, process: bool) -> (res: Vec<
    PipelineStep,
>)
    ensures
        res.deep_view() == dispatch_steps(emitter.name(), result@, process),
{
    match intercept(result) {
        Some(event) => {
            if process {
                let ghost view = event@;
                let mut res: Vec<PipelineStep> = empty_list();
                push_item(&mut res, PipelineStep::Process(event.dup()));
                let mut rest = deliver(emitter, event);
                let ghost tail = rest.deep_view();
                res.append(&mut rest);
                assert(res.deep_view() =~= seq![PipelineStepView::Process(view)] + tail);
                res
            } else {
                deliver(emitter, event)
            }
        },
        None => empty_list(),
    }
}

/// What leaves a session is what the plugins left of it, under the session's name;
/// what a plugin blocks leaves no trace; and what the engine does about an event, it
/// does before the event leaves.
pub proof fn law_pipeline(session_id: Seq<char>, result: InterceptResultView, process: bool)
    ensures
        result is Block ==> dispatch_steps(session_id, result, process).len() == 0,
        result is Pass ==> {
            let steps = dispatch_steps(session_id, result, process);
            let event = result->Pass_0;
            let k: int = if process {
                1
            } else {
                0
            };
            &&& steps.len() == k + 2
            &&& process ==> steps[0] == PipelineStepView::Process(event)
            &&& steps[k] == PipelineStepView::Emit(event.stamped(session_id))
            &&& steps[k]->Emit_0.base().session_id == Some(session_id)
            &&& steps[k + 1] == PipelineStepView::Observe(event)
        },
{
}

/// What the plugins leave of an event is the event they let pass, or nothing where they
/// block it.
pub proof fn law_what_the_plugins_leave(event: OutputEventView, reason: Seq<char>)
    ensures
        left_of(InterceptResultView::Pass(event)) == Some(event),
        left_of(InterceptResultView::Block(reason)) is None,
{
}

/// An event that leaves a session carries the session's name and is otherwise the event
/// that was to leave.
pub proof fn law_delivery_adds_only_the_name(session_id: Seq<char>, event: OutputEventView)
    ensures
        ({
            let steps = delivery_steps(session_id, event);
            let sent = steps[0]->Emit_0;
            &&& steps.len() == 2
            &&& steps[0] is Emit
            &&& sent.base().session_id == Some(session_id)
            &&& sent.with_base(event.base()) == event
            &&& sent.base().id == event.base().id
            &&& sent.base().seq == event.base().seq
            &&& steps[1] is Observe
            &&& steps[1]->Observe_0 == event
        }),
{
}

} // verus!
