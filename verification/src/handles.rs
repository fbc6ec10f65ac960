//! The handles of the `tokio` runtime by which a turn is cancelled and the asker of an approval is
//! answered.

use crate::session::{ApprovalDecision, Cancellation, Resolution};
use tokio::sync::oneshot::Sender;
use tokio_util::sync::CancellationToken;
use vstd::prelude::*;

verus! {

/// `tokio::sync::oneshot::Sender`, the way back to one who waits for an answer.
#[verifier::external_type_specification]
#[verifier::external_body]
#[verifier::reject_recursive_types(T)]
pub struct ExSender<T>(Sender<T>);

/// `tokio_util::sync::CancellationToken`, by which a turn is asked to stop.
#[verifier::external_type_specification]
#[verifier::external_body]
pub struct ExCancellationToken(CancellationToken);

/// `tokio::sync::oneshot::Sender::send`: where the receiver is gone, the decision comes back.
/// Whether it is gone depends on the task that waits, so that is left unsaid.
#[verifier::external_body]
fn send_decision(responder: Sender<ApprovalDecision>, decision: ApprovalDecision) -> (outcome:
    Result<(), ApprovalDecision>)
    ensures
        outcome matches Err(returned) ==> returned == decision,
{
    responder.send(decision)
}

/// `tokio_util::sync::CancellationToken::cancel`: wakes the tasks that wait for the token. It has
/// no result, so nothing is claimed.
#[verifier::external_body]
fn cancel_token(token: &CancellationToken) {
    token.cancel()
}

/// Whether an answer reached its asker: it was sent, and the sending did not bring it back. `None`
/// stands for an answer that there was nobody to send to.
pub fn was_delivered(outcome: Option<Result<(), ApprovalDecision>>) -> (delivered: bool)
    ensures
        delivered == (outcome matches Some(Ok(_))),
{
    match outcome {
        Some(Ok(_)) => true,
        _ => false,
    }
}

/// Whether `outcome` can come of telling the asker of an approval what was decided: there is an
/// outcome where there was an asker, and what an asker that is gone leaves behind is the decision.
pub open spec fn outcome_of(
    resolution: Option<Resolution<Sender<ApprovalDecision>>>,
    outcome: Option<Result<(), ApprovalDecision>>,
) -> bool {
    &&& outcome is Some <==> resolution is Some
    &&& outcome matches Some(Err(returned)) ==> returned == resolution->0.decision
}

/// Tells the asker of an approval what was decided, if there is one to be told, and hands back the
/// outcome, which [`was_delivered`] reads. Whether the asker is still there rests on the task that
/// asked, and is left unsaid.
pub fn deliver(resolution: Option<Resolution<Sender<ApprovalDecision>>>) -> (outcome: Option<
    Result<(), ApprovalDecision>,
>)
    ensures
        outcome_of(resolution, outcome),
{
    match resolution {
        Some(resolution) => Some(send_decision(resolution.responder, resolution.decision)),
        None => None,
    }
}

/// What came of stopping a turn.
#[derive(Debug)]
pub struct Stopped {
    /// Whether there was a turn to cancel.
    pub turn: bool,
    /// The outcome of answering the approval that it waited for.
    pub approval: Option<Result<(), ApprovalDecision>>,
}

/// Cancels a turn and answers the approval that it waits for.
pub fn carry_out(cancellation: Cancellation<CancellationToken, Sender<ApprovalDecision>>) -> (
stopped: Stopped)
    ensures
        stopped.turn == (cancellation.cancel is Some),
        outcome_of(cancellation.resolution, stopped.approval),
{
    let approval = deliver(cancellation.resolution);
    let turn = match cancellation.cancel {
        Some(token) => {
            cancel_token(&token);
            true
        },
        None => false,
    };
    Stopped { turn, approval }
}

} // verus!
