use telegram_codex_bridge::handles::{carry_out, deliver, was_delivered};
use telegram_codex_bridge::session::{
    ApprovalDecision, Cancellation, PendingApproval, SharedSessionState,
};
use tokio::sync::oneshot;
use tokio_util::sync::CancellationToken;

type Session = SharedSessionState<CancellationToken, (), oneshot::Sender<ApprovalDecision>>;

#[test]
fn a_decision_reaches_the_asker() {
    let mut session = Session::default();
    let (sender, mut receiver) = oneshot::channel();
    session.set_pending_approval(PendingApproval::new("m".to_string(), true, sender));
    assert_eq!(
        deliver(session.resolve_pending_approval(ApprovalDecision::AcceptForSession)),
        Some(Ok(()))
    );
    assert_eq!(receiver.try_recv(), Ok(ApprovalDecision::AcceptForSession));
}

#[test]
fn a_decision_may_find_nobody() {
    let mut session = Session::default();
    assert_eq!(deliver(session.resolve_pending_approval(ApprovalDecision::Accept)), None);
    let (sender, receiver) = oneshot::channel();
    drop(receiver);
    session.set_pending_approval(PendingApproval::new("m".to_string(), true, sender));
    assert_eq!(
        deliver(session.resolve_pending_approval(ApprovalDecision::Decline)),
        Some(Err(ApprovalDecision::Decline))
    );
}

#[test]
fn a_replaced_approval_is_told_so() {
    let mut session = Session::default();
    let (first, mut first_receiver) = oneshot::channel();
    let (second, mut second_receiver) = oneshot::channel();
    deliver(session.set_pending_approval(PendingApproval::new("first".to_string(), true, first)));
    deliver(session.set_pending_approval(PendingApproval::new("second".to_string(), true, second)));
    assert_eq!(first_receiver.try_recv(), Ok(ApprovalDecision::Cancel));
    assert!(second_receiver.try_recv().is_err());
}

#[test]
fn a_stopped_turn_is_cancelled() {
    let mut session = Session::default();
    let token = CancellationToken::new();
    let (sender, mut receiver) = oneshot::channel();
    session.set_active_turn(token.clone(), ());
    session.set_pending_approval(PendingApproval::new("m".to_string(), true, sender));
    let stopped = carry_out(session.cancel_active_turn());
    assert!(stopped.turn);
    assert_eq!(stopped.approval, Some(Ok(())));
    assert!(token.is_cancelled());
    assert_eq!(receiver.try_recv(), Ok(ApprovalDecision::Cancel));
    assert!(!carry_out(session.cancel_active_turn()).turn);
    let nothing = carry_out(Cancellation { cancel: None, resolution: None });
    assert!(!nothing.turn && nothing.approval.is_none());
}

#[test]
fn only_an_answer_that_does_not_come_back_is_delivered() {
    assert!(was_delivered(Some(Ok(()))));
    assert!(!was_delivered(Some(Err(ApprovalDecision::Accept))));
    assert!(!was_delivered(None));
}
