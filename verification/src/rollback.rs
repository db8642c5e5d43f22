//! Taking a conversation back to an earlier point.
use crate::emit::{envelope, unsent};
use crate::history::{replay_user, replay_user_payload};
use crate::interrupt::{Outgoing, OutgoingView};
use crate::message::{
    ErrorPayload, ErrorPayloadView, Message, MessageView, OutputEvent, OutputEventView,
    RollbackPayload, RollbackPayloadView,
};
use crate::model::Dup;
use crate::text::concat;
use vstd::prelude::*;

verus! {

/// What the store says of a rollback.
#[derive(Debug)]
pub struct RollbackResult {
    /// Where the history was cut.
    pub target_seq: i64,
    pub deleted_count: i64,
    pub deleted_total: i64,
    /// The user message at the cut.
    pub target_message: Option<Message>,
    pub message_count: i64,
    pub tool_call_count: i64,
    pub last_compacted_seq: Option<i64>,
    pub compression_count: i64,
}

/// The mathematical value of a [`RollbackResult`].
#[verifier::ext_equal]
pub struct RollbackResultView {
    pub target_seq: i64,
    pub deleted_count: i64,
    pub deleted_total: i64,
    pub target_message: Option<MessageView>,
    pub message_count: i64,
    pub tool_call_count: i64,
    pub last_compacted_seq: Option<i64>,
    pub compression_count: i64,
}

impl View for RollbackResult {
    type V = RollbackResultView;

    open spec fn view(&self) -> RollbackResultView {
        RollbackResultView {
            target_seq: self.target_seq,
            deleted_count: self.deleted_count,
            deleted_total: self.deleted_total,
            target_message: self.target_message.deep_view(),
            message_count: self.message_count,
            tool_call_count: self.tool_call_count,
            last_compacted_seq: self.last_compacted_seq,
            compression_count: self.compression_count,
        }
    }
}

impl DeepView for RollbackResult {
    type V = RollbackResultView;

    open spec fn deep_view(&self) -> RollbackResultView {
        self@
    }
}

impl Dup for RollbackResult {
    fn dup(&self) -> (res: Self) {
        RollbackResult {
            target_seq: self.target_seq,
            deleted_count: self.deleted_count,
            deleted_total: self.deleted_total,
            target_message: self.target_message.dup(),
            message_count: self.message_count,
            tool_call_count: self.tool_call_count,
            last_compacted_seq: self.last_compacted_seq,
            compression_count: self.compression_count,
        }
    }
}
/// What is told of a rollback: what was deleted, and the message at the cut, ready
/// to be sent anew; or that it failed, after which the session goes on as before.
pub open spec fn rollback_notice(result: Result<RollbackResultView, Seq<char>>) -> OutgoingView {
    OutgoingView::Notice(
        match result {
            Ok(r) => OutputEventView::Rollback(
                unsent(
                    RollbackPayloadView {
                        target_seq: r.target_seq,
                        deleted_count: r.deleted_count,
                        deleted_total: r.deleted_total,
                        target_message: match r.target_message {
                            Some(m) => Some(replay_user(m)),
                            None => None,
                        },
                        message_count: r.message_count,
                        tool_call_count: r.tool_call_count,
                        last_compacted_seq: r.last_compacted_seq,
                        compression_count: r.compression_count,
                    },
                ),
            ),
            Err(cause) => OutputEventView::Error(
                unsent(
                    ErrorPayloadView { message: "对话回退失败："@ + cause, recoverable: true },
                ),
            ),
        },
    )
}

/// Tells what came of a rollback.
pub fn run_rollback(result: Result<RollbackResult, String>) -> (res: Outgoing)
    ensures
        res@ == rollback_notice(
            match result {
                Ok(r) => Ok(r@),
                Err(cause) => Err(cause@),
            },
        ),
{
    Outgoing::Notice(
        match result {
            Ok(r) => OutputEvent::Rollback(
                envelope(
                    RollbackPayload {
                        target_seq: r.target_seq,
                        deleted_count: r.deleted_count,
                        deleted_total: r.deleted_total,
                        target_message: match &r.target_message {
                            Some(m) => Some(replay_user_payload(m)),
                            None => None,
                        },
                        message_count: r.message_count,
                        tool_call_count: r.tool_call_count,
                        last_compacted_seq: r.last_compacted_seq,
                        compression_count: r.compression_count,
                    },
                ),
            ),
            Err(cause) => OutputEvent::Error(
                envelope(
                    ErrorPayload {
                        message: concat("对话回退失败：", cause.as_str()),
                        recoverable: true,
                    },
                ),
            ),
        },
    )
}

/// What is told of a rollback is what the store says of it: where the cut is, how much
/// was deleted, what is left, and the message at the cut with its text and its images. A
/// failure is told with its cause, as one that will pass.
pub proof fn law_a_rollback_is_told_as_it_happened(r: RollbackResultView, cause: Seq<char>)
    ensures
        ({
            let told = rollback_notice(Ok(r));
            let p = told->Notice_0->Rollback_0.payload;
            &&& told is Notice
            &&& told->Notice_0 is Rollback
            &&& p.target_seq == r.target_seq
            &&& p.deleted_count == r.deleted_count
            &&& p.deleted_total == r.deleted_total
            &&& p.message_count == r.message_count
            &&& p.tool_call_count == r.tool_call_count
            &&& p.last_compacted_seq == r.last_compacted_seq
            &&& p.compression_count == r.compression_count
            &&& p.target_message is Some <==> r.target_message is Some
            &&& r.target_message is Some ==> {
                &&& p.target_message->0.images == r.target_message->0.images
                &&& r.target_message->0.content is Some ==> p.target_message->0.content
                    == r.target_message->0.content->0
                &&& r.target_message->0.content is None ==> p.target_message->0.content.len() == 0
            }
        }),
        ({
            let told = rollback_notice(Err(cause));
            let p = told->Notice_0->Error_0.payload;
            &&& told is Notice
            &&& told->Notice_0 is Error
            &&& p.message == "对话回退失败："@ + cause
            &&& p.recoverable
        }),
{
    reveal_strlit("");
}

} // verus!
