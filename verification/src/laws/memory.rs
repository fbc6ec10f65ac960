//! Laws of the session.

use crate::session;
use crate::session::{
    record_cwd_history, ApprovalDecision, Cancellation, PendingApproval, Resolution,
    SessionSnapshot, SessionView, SharedSessionState,
};
use crate::workdir;
use crate::workdir::{WorkDir, WorkDirView};
use vstd::prelude::*;
use vstd::string::*;

verus! {

/// Whether `resolution` answers the approval that `before` waits for with `decision`, if it waits
/// for one, and is nothing if it does not.
pub open spec fn answers<C, J, R>(
    before: SessionView<C, J, R>,
    resolution: Option<Resolution<R>>,
    decision: ApprovalDecision,
) -> bool {
    match before.pending_approval {
        Some(approval) => resolution matches Some(r) && r.responder == approval.responder
            && r.decision == decision,
        None => resolution is None,
    }
}

/// A session that begins knows no thread, no turn and no directory, and waits for nothing.
pub proof fn law_a_session_begins_empty<C, J, R>(session: SharedSessionState<C, J, R>)
    requires
        call_ensures(SharedSessionState::<C, J, R>::default, (), session),
    ensures
        session@.active_thread_id is None,
        session@.active_turn_id is None,
        session@.active_turn_cancel is None,
        session@.active_turn_task is None,
        session@.pending_approval is None,
        session@.active_cwd is None,
        session@.cwd_history.len() == 0,
{
}

/// What is shown by default is a session in which nothing has happened.
pub proof fn law_nothing_is_shown_by_default(snapshot: SessionSnapshot)
    requires
        call_ensures(SessionSnapshot::default, (), snapshot),
    ensures
        snapshot@.active_thread_id is None,
        snapshot@.active_turn_id is None,
        !snapshot@.active_turn_running,
        snapshot@.active_cwd is None,
        snapshot@.cwd_history.len() == 0,
        snapshot@.pending_approval_message is None,
        !snapshot@.pending_approval_supports_session,
{
}

/// What is shown of a session is what it holds; an approval can be given for the session only where
/// one is waited for that offers it.
pub proof fn law_a_snapshot_shows_the_session<C, J, R>(
    session: &SharedSessionState<C, J, R>,
    snapshot: SessionSnapshot,
)
    requires
        call_ensures(SharedSessionState::<C, J, R>::snapshot, (session,), snapshot),
    ensures
        snapshot@.active_thread_id == session@.active_thread_id,
        snapshot@.active_turn_id == session@.active_turn_id,
        snapshot@.active_turn_running == (session@.active_turn_cancel is Some),
        snapshot@.active_cwd == session@.active_cwd,
        snapshot@.cwd_history == session@.cwd_history,
        match session@.pending_approval {
            Some(approval) => snapshot@.pending_approval_message == Some(approval.message)
                && snapshot@.pending_approval_supports_session == approval.allow_accept_for_session,
            None => snapshot@.pending_approval_message is None
                && !snapshot@.pending_approval_supports_session,
        },
{
}

/// A snapshot holds its texts as they are shown.
pub proof fn law_a_snapshot_is_what_it_holds(snapshot: SessionSnapshot, i: int)
    ensures
        match snapshot.active_thread_id {
            Some(id) => snapshot@.active_thread_id == Some(id@),
            None => snapshot@.active_thread_id is None,
        },
        match snapshot.active_turn_id {
            Some(id) => snapshot@.active_turn_id == Some(id@),
            None => snapshot@.active_turn_id is None,
        },
        match snapshot.active_cwd {
            Some(cwd) => snapshot@.active_cwd == Some(cwd@),
            None => snapshot@.active_cwd is None,
        },
        match snapshot.pending_approval_message {
            Some(message) => snapshot@.pending_approval_message == Some(message@),
            None => snapshot@.pending_approval_message is None,
        },
        snapshot@.active_turn_running == snapshot.active_turn_running,
        snapshot@.pending_approval_supports_session == snapshot.pending_approval_supports_session,
        snapshot@.cwd_history.len() == snapshot.cwd_history@.len(),
        0 <= i < snapshot.cwd_history@.len() ==> snapshot@.cwd_history[i]
            == snapshot.cwd_history@[i]@,
{
}

/// What is asked of a session is what it holds.
pub proof fn law_a_session_tells_what_it_holds<C, J, R>(
    session: &SharedSessionState<C, J, R>,
    thread_id: Option<String>,
    cwd: Option<WorkDir>,
    index: usize,
    entry: Option<WorkDir>,
    running: bool,
)
    requires
        call_ensures(SharedSessionState::<C, J, R>::active_thread_id, (session,), thread_id),
        call_ensures(SharedSessionState::<C, J, R>::active_cwd, (session,), cwd),
        call_ensures(
            SharedSessionState::<C, J, R>::resolve_cwd_history_entry,
            (session, index),
            entry,
        ),
        call_ensures(SharedSessionState::<C, J, R>::has_active_turn, (session,), running),
    ensures
        match session@.active_thread_id {
            Some(id) => thread_id matches Some(given) && given@ == id,
            None => thread_id is None,
        },
        match session@.active_cwd {
            Some(dir) => cwd matches Some(given) && given@ == dir,
            None => cwd is None,
        },
        if index < session@.cwd_history.len() {
            entry matches Some(given) && given@ == session@.cwd_history[index as int]
        } else {
            entry is None
        },
        running == (session@.active_turn_cancel is Some),
{
}

/// Setting the thread sets nothing else.
pub proof fn law_the_thread_is_set_alone<C, J, R>(
    session: &mut SharedSessionState<C, J, R>,
    thread_id: String,
)
    requires
        call_ensures(SharedSessionState::<C, J, R>::set_active_thread, (session, thread_id), ()),
    ensures
        final(session)@.active_thread_id == Some(thread_id@),
        final(session)@.active_turn_id == old(session)@.active_turn_id,
        final(session)@.active_turn_cancel == old(session)@.active_turn_cancel,
        final(session)@.active_turn_task == old(session)@.active_turn_task,
        final(session)@.pending_approval == old(session)@.pending_approval,
        final(session)@.active_cwd == old(session)@.active_cwd,
        final(session)@.cwd_history == old(session)@.cwd_history,
{
}

/// Setting the id of the turn sets nothing else.
pub proof fn law_the_turn_id_is_set_alone<C, J, R>(
    session: &mut SharedSessionState<C, J, R>,
    turn_id: String,
)
    requires
        call_ensures(SharedSessionState::<C, J, R>::set_active_turn_id, (session, turn_id), ()),
    ensures
        final(session)@.active_turn_id == Some(turn_id@),
        final(session)@.active_thread_id == old(session)@.active_thread_id,
        final(session)@.active_turn_cancel == old(session)@.active_turn_cancel,
        final(session)@.active_turn_task == old(session)@.active_turn_task,
        final(session)@.pending_approval == old(session)@.pending_approval,
        final(session)@.active_cwd == old(session)@.active_cwd,
        final(session)@.cwd_history == old(session)@.cwd_history,
{
}

/// A turn that is launched is held by its handles and has no id yet.
pub proof fn law_a_launched_turn_is_held<C, J, R>(
    session: &mut SharedSessionState<C, J, R>,
    cancel: C,
    task: J,
)
    requires
        call_ensures(SharedSessionState::<C, J, R>::set_active_turn, (session, cancel, task), ()),
    ensures
        final(session)@.active_turn_cancel == Some(cancel),
        final(session)@.active_turn_task == Some(task),
        final(session)@.active_turn_id is None,
        final(session)@.active_thread_id == old(session)@.active_thread_id,
        final(session)@.pending_approval == old(session)@.pending_approval,
        final(session)@.active_cwd == old(session)@.active_cwd,
        final(session)@.cwd_history == old(session)@.cwd_history,
{
}

/// Of a turn that ended nothing is left, and the asker whom it kept waiting is told `Cancel`.
pub proof fn law_nothing_is_left_of_an_ended_turn<C, J, R>(
    session: &mut SharedSessionState<C, J, R>,
    resolution: Option<Resolution<R>>,
)
    requires
        call_ensures(SharedSessionState::<C, J, R>::clear_active_turn, (session,), resolution),
    ensures
        final(session)@.active_turn_cancel is None,
        final(session)@.active_turn_task is None,
        final(session)@.active_turn_id is None,
        final(session)@.pending_approval is None,
        final(session)@.active_thread_id == old(session)@.active_thread_id,
        final(session)@.active_cwd == old(session)@.active_cwd,
        final(session)@.cwd_history == old(session)@.cwd_history,
        answers(old(session)@, resolution, ApprovalDecision::Cancel),
{
}

/// A turn that is given up hands out its handle once, and the asker whom it kept waiting is told
/// `Cancel`; its task and its id stay until it has ended.
pub proof fn law_a_turn_is_given_up_once<C, J, R>(
    session: &mut SharedSessionState<C, J, R>,
    cancellation: Cancellation<C, R>,
    again: &mut SharedSessionState<C, J, R>,
    second: Cancellation<C, R>,
)
    requires
        call_ensures(SharedSessionState::<C, J, R>::cancel_active_turn, (session,), cancellation),
        *old(again) == *final(session),
        call_ensures(SharedSessionState::<C, J, R>::cancel_active_turn, (again,), second),
    ensures
        cancellation.cancel == old(session)@.active_turn_cancel,
        answers(old(session)@, cancellation.resolution, ApprovalDecision::Cancel),
        final(session)@.active_turn_cancel is None,
        final(session)@.pending_approval is None,
        final(session)@.active_turn_task == old(session)@.active_turn_task,
        final(session)@.active_turn_id == old(session)@.active_turn_id,
        final(session)@.active_thread_id == old(session)@.active_thread_id,
        final(session)@.active_cwd == old(session)@.active_cwd,
        final(session)@.cwd_history == old(session)@.cwd_history,
        second.cancel is None,
        second.resolution is None,
        final(again)@ == final(session)@,
{
}

/// An approval that is waited for is answered once, by the decision that is given, and nothing else
/// changes.
pub proof fn law_an_approval_is_answered_once<C, J, R>(
    session: &mut SharedSessionState<C, J, R>,
    decision: ApprovalDecision,
    resolution: Option<Resolution<R>>,
    again: &mut SharedSessionState<C, J, R>,
    later: ApprovalDecision,
    second: Option<Resolution<R>>,
)
    requires
        call_ensures(
            SharedSessionState::<C, J, R>::resolve_pending_approval,
            (session, decision),
            resolution,
        ),
        *old(again) == *final(session),
        call_ensures(
            SharedSessionState::<C, J, R>::resolve_pending_approval,
            (again, later),
            second,
        ),
    ensures
        answers(old(session)@, resolution, decision),
        final(session)@.pending_approval is None,
        final(session)@.active_thread_id == old(session)@.active_thread_id,
        final(session)@.active_turn_id == old(session)@.active_turn_id,
        final(session)@.active_turn_cancel == old(session)@.active_turn_cancel,
        final(session)@.active_turn_task == old(session)@.active_turn_task,
        final(session)@.active_cwd == old(session)@.active_cwd,
        final(session)@.cwd_history == old(session)@.cwd_history,
        second is None,
{
}

/// A new approval is the one that is waited for; the asker of the one before is told `Cancel`.
pub proof fn law_the_latest_approval_is_waited_for<C, J, R>(
    session: &mut SharedSessionState<C, J, R>,
    approval: PendingApproval<R>,
    resolution: Option<Resolution<R>>,
)
    requires
        call_ensures(
            SharedSessionState::<C, J, R>::set_pending_approval,
            (session, approval),
            resolution,
        ),
    ensures
        answers(old(session)@, resolution, ApprovalDecision::Cancel),
        final(session)@.pending_approval matches Some(waiting) && waiting.message
            == approval.message@ && waiting.allow_accept_for_session
            == approval.allow_accept_for_session && waiting.responder == approval.responder,
        final(session)@.active_thread_id == old(session)@.active_thread_id,
        final(session)@.active_turn_id == old(session)@.active_turn_id,
        final(session)@.active_turn_cancel == old(session)@.active_turn_cancel,
        final(session)@.active_turn_task == old(session)@.active_turn_task,
        final(session)@.active_cwd == old(session)@.active_cwd,
        final(session)@.cwd_history == old(session)@.cwd_history,
{
}

/// An approval holds what it was made of, and its answer goes to its own asker.
pub proof fn law_an_answer_goes_to_its_asker<R>(
    message: String,
    allow_accept_for_session: bool,
    responder: R,
    approval: PendingApproval<R>,
    decision: ApprovalDecision,
    resolution: Resolution<R>,
)
    requires
        call_ensures(
            PendingApproval::<R>::new,
            (message, allow_accept_for_session, responder),
            approval,
        ),
        call_ensures(PendingApproval::<R>::resolve, (approval, decision), resolution),
    ensures
        approval.message@ == message@,
        approval.allow_accept_for_session == allow_accept_for_session,
        resolution.responder == responder,
        resolution.decision == decision,
{
}

/// Whether `history` does not list the directory `cwd`.
pub open spec fn is_new_to(history: Seq<WorkDirView>, cwd: WorkDirView) -> bool {
    forall|i: int|
        0 <= i < history.len() ==> (#[trigger] history[i]).components != cwd.components
}

/// The history after a move: the directory comes first, its earlier mention is gone, and the others
/// keep their order.
pub proof fn law_a_move_puts_the_directory_first<C, J, R>(
    session: &mut SharedSessionState<C, J, R>,
    cwd: WorkDir,
    before: Seq<WorkDirView>,
    mention: Seq<WorkDirView>,
    after: Seq<WorkDirView>,
)
    requires
        call_ensures(SharedSessionState::<C, J, R>::set_active_cwd, (session, cwd), ()),
        old(session)@.cwd_history == before + mention + after,
        is_new_to(before, cwd@),
        is_new_to(after, cwd@),
        mention.len() <= 1,
        mention.len() == 1 ==> mention[0].components == cwd@.components,
    ensures
        final(session)@.active_cwd == Some(cwd@),
        final(session)@.cwd_history == seq![cwd@] + before + after,
        final(session)@.active_thread_id == old(session)@.active_thread_id,
        final(session)@.active_turn_id == old(session)@.active_turn_id,
        final(session)@.active_turn_cancel == old(session)@.active_turn_cancel,
        final(session)@.active_turn_task == old(session)@.active_turn_task,
        final(session)@.pending_approval == old(session)@.pending_approval,
{
    lemma_history_without(before, mention, after, cwd@);
}

/// The list of visited directories changes as the history of a session does.
pub proof fn law_a_visit_puts_the_directory_first(
    history: &mut Vec<WorkDir>,
    cwd: &WorkDir,
    before: Seq<WorkDirView>,
    mention: Seq<WorkDirView>,
    after: Seq<WorkDirView>,
)
    requires
        call_ensures(record_cwd_history, (history, cwd), ()),
        workdir::dir_views(old(history)@) == before + mention + after,
        is_new_to(before, cwd@),
        is_new_to(after, cwd@),
        mention.len() <= 1,
        mention.len() == 1 ==> mention[0].components == cwd@.components,
    ensures
        workdir::dir_views(final(history)@) == seq![cwd@] + before + after,
{
    lemma_history_without(before, mention, after, cwd@);
}

proof fn lemma_history_without(
    before: Seq<WorkDirView>,
    mention: Seq<WorkDirView>,
    after: Seq<WorkDirView>,
    cwd: WorkDirView,
)
    requires
        is_new_to(before, cwd),
        is_new_to(after, cwd),
        mention.len() <= 1,
        mention.len() == 1 ==> mention[0].components == cwd.components,
    ensures
        session::visited(before + mention + after, cwd) == seq![cwd] + before + after,
{
    let keep = |d: WorkDirView| d.components != cwd.components;
    lemma_filter_keeps(before, keep);
    lemma_filter_keeps(after, keep);
    Seq::filter_distributes_over_add(before + mention, after, keep);
    Seq::filter_distributes_over_add(before, mention, keep);
    reveal_with_fuel(Seq::filter, 2);
    if mention.len() == 1 {
        assert(mention.drop_last() =~= Seq::empty());
        assert(mention.last() == mention[0]);
    }
    assert(mention.filter(keep) =~= Seq::empty());
    assert(session::visited(before + mention + after, cwd) =~= seq![cwd] + before + after);
}

proof fn lemma_filter_keeps(history: Seq<WorkDirView>, keep: spec_fn(WorkDirView) -> bool)
    requires
        forall|i: int| 0 <= i < history.len() ==> keep(#[trigger] history[i]),
    ensures
        history.filter(keep) == history,
    decreases history.len(),
{
    reveal(Seq::filter);
    if history.len() > 0 {
        let front = history.drop_last();
        assert forall|i: int| 0 <= i < front.len() implies keep(#[trigger] front[i]) by {
            assert(front[i] == history[i]);
        }
        lemma_filter_keeps(front, keep);
        assert(keep(history[history.len() - 1]));
        assert(history.filter(keep) =~= history);
    }
}

/// A session that begins with directories visited before is one that begins in the latest of them
/// and then moves on; with none visited before, it lists the one that it begins in.
pub proof fn law_a_session_with_a_history_has_moved<C, J, R>(
    cwd: WorkDir,
    history: Vec<WorkDir>,
    session: SharedSessionState<C, J, R>,
    latest: WorkDir,
    earlier: Vec<WorkDir>,
    moving: &mut SharedSessionState<C, J, R>,
)
    requires
        call_ensures(
            SharedSessionState::<C, J, R>::new_with_history,
            (cwd, history),
            session,
        ),
        call_ensures(
            SharedSessionState::<C, J, R>::new_with_history,
            (latest, earlier),
            *old(moving),
        ),
        call_ensures(SharedSessionState::<C, J, R>::set_active_cwd, (moving, cwd), ()),
    ensures
        history@.len() > 0 && latest@ == history@[0]@ && earlier@ == history@.drop_first()
            ==> session@ == final(moving)@,
        history@.len() == 0 ==> session@.cwd_history == seq![cwd@],
        session@.active_cwd == Some(cwd@),
        session@.active_thread_id is None,
        session@.active_turn_id is None,
        session@.active_turn_cancel is None,
        session@.active_turn_task is None,
        session@.pending_approval is None,
{
    reveal(Seq::filter);
    if history@.len() > 0 && latest@ == history@[0]@ && earlier@ == history@.drop_first() {
        let dirs = workdir::dir_views(history@);
        assert(dirs.drop_first() =~= workdir::dir_views(earlier@));
        assert(dirs.first() == latest@);
    }
    if history@.len() == 0 {
        assert(workdir::dir_views(history@) =~= Seq::empty());
        assert(session@.cwd_history =~= seq![cwd@]);
    }
}

} // verus!
