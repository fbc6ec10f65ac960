//! What the bridge remembers of the chat: the thread, the running turn, the approval that is
//! waited for, and the working directories.
//!
//! The handles by which a turn is cancelled (`C`), its task is held (`J`) and the asker of an
//! approval is answered (`R`) belong to the host. They are kept here and handed back when they
//! are to be used; nothing depends on what they are.

use crate::text;
use crate::text::copy_text;
use crate::workdir;
use crate::workdir::{duplicate_all, WorkDir, WorkDirView};
use vstd::prelude::*;
use vstd::string::*;

verus! {

/// The answer to an approval request.
#[derive(Debug, Clone, Copy, PartialEq, Eq, Structural)]
pub enum ApprovalDecision {
    Accept,
    AcceptForSession,
    Decline,
    Cancel,
}

/// An approval that Codex asked for and nobody has answered yet.
#[derive(Debug)]
pub struct PendingApproval<R> {
    pub message: String,
    pub allow_accept_for_session: bool,
    pub responder: R,
}

/// An answer on its way: `responder` is to be told `decision`.
#[derive(Debug)]
pub struct Resolution<R> {
    pub responder: R,
    pub decision: ApprovalDecision,
}

impl<R> PendingApproval<R> {
    pub fn new(message: String, allow_accept_for_session: bool, responder: R) -> (approval: Self)
        ensures
            approval == (PendingApproval { message, allow_accept_for_session, responder }),
    {
        PendingApproval { message, allow_accept_for_session, responder }
    }

    /// Answers the request.
    pub fn resolve(self, decision: ApprovalDecision) -> (resolution: Resolution<R>)
        ensures
            resolution == (Resolution { responder: self.responder, decision }),
    {
        Resolution { responder: self.responder, decision }
    }
}

/// A pending approval as mathematics.
pub struct ApprovalView<R> {
    pub message: Seq<char>,
    pub allow_accept_for_session: bool,
    pub responder: R,
}

impl<R> View for PendingApproval<R> {
    type V = ApprovalView<R>;

    open spec fn view(&self) -> ApprovalView<R> {
        ApprovalView {
            message: self.message@,
            allow_accept_for_session: self.allow_accept_for_session,
            responder: self.responder,
        }
    }
}

/// The session as it is shown to the user.
#[derive(Debug, Clone)]
pub struct SessionSnapshot {
    pub active_thread_id: Option<String>,
    pub active_turn_id: Option<String>,
    pub active_turn_running: bool,
    pub active_cwd: Option<WorkDir>,
    pub cwd_history: Vec<WorkDir>,
    pub pending_approval_message: Option<String>,
    pub pending_approval_supports_session: bool,
}

/// A snapshot as mathematics.
pub struct SnapshotView {
    pub active_thread_id: Option<Seq<char>>,
    pub active_turn_id: Option<Seq<char>>,
    pub active_turn_running: bool,
    pub active_cwd: Option<WorkDirView>,
    pub cwd_history: Seq<WorkDirView>,
    pub pending_approval_message: Option<Seq<char>>,
    pub pending_approval_supports_session: bool,
}

/// An optional directory as mathematics.
pub open spec fn dir_view(dir: Option<WorkDir>) -> Option<WorkDirView> {
    match dir {
        Some(d) => Some(d@),
        None => None,
    }
}

impl View for SessionSnapshot {
    type V = SnapshotView;

    open spec fn view(&self) -> SnapshotView {
        SnapshotView {
            active_thread_id: text::text_view(self.active_thread_id),
            active_turn_id: text::text_view(self.active_turn_id),
            active_turn_running: self.active_turn_running,
            active_cwd: dir_view(self.active_cwd),
            cwd_history: workdir::dir_views(self.cwd_history@),
            pending_approval_message: text::text_view(self.pending_approval_message),
            pending_approval_supports_session: self.pending_approval_supports_session,
        }
    }
}

impl Default for SessionSnapshot {
    /// The snapshot of a session in which nothing has happened.
    fn default() -> (snapshot: Self)
        ensures
            snapshot@ == SessionView::<(), (), ()>::empty().shown(),
    {
        let snapshot = SessionSnapshot {
            active_thread_id: None,
            active_turn_id: None,
            active_turn_running: false,
            active_cwd: None,
            cwd_history: Vec::new(),
            pending_approval_message: None,
            pending_approval_supports_session: false,
        };
        assert(snapshot@.cwd_history =~= Seq::empty());
        snapshot
    }
}

/// The parts of the session.
#[derive(Debug)]
pub struct SessionState<C, J, R> {
    active_thread_id: Option<String>,
    active_turn_id: Option<String>,
    active_turn_cancel: Option<C>,
    active_turn_task: Option<J>,
    pending_approval: Option<PendingApproval<R>>,
    active_cwd: Option<WorkDir>,
    cwd_history: Vec<WorkDir>,
}

/// The session as mathematics.
pub struct SessionView<C, J, R> {
    pub active_thread_id: Option<Seq<char>>,
    pub active_turn_id: Option<Seq<char>>,
    pub active_turn_cancel: Option<C>,
    pub active_turn_task: Option<J>,
    pub pending_approval: Option<ApprovalView<R>>,
    pub active_cwd: Option<WorkDirView>,
    pub cwd_history: Seq<WorkDirView>,
}

impl<C, J, R> View for SessionState<C, J, R> {
    type V = SessionView<C, J, R>;

    closed spec fn view(&self) -> SessionView<C, J, R> {
        SessionView {
            active_thread_id: text::text_view(self.active_thread_id),
            active_turn_id: text::text_view(self.active_turn_id),
            active_turn_cancel: self.active_turn_cancel,
            active_turn_task: self.active_turn_task,
            pending_approval: match self.pending_approval {
                Some(approval) => Some(approval@),
                None => None,
            },
            active_cwd: dir_view(self.active_cwd),
            cwd_history: workdir::dir_views(self.cwd_history@),
        }
    }
}

/// Whether no directory of `history` is listed twice.
pub open spec fn distinct_dirs(history: Seq<WorkDirView>) -> bool {
    forall|i: int, j: int|
        0 <= i < j < history.len() ==> (#[trigger] history[i]).components != (
        #[trigger] history[j]).components
}

impl<C, J, R> SessionView<C, J, R> {
    /// The history lists no directory twice, and the working directory, once there is one, is
    /// its first entry.
    pub open spec fn well_formed(self) -> bool {
        &&& distinct_dirs(self.cwd_history)
        &&& match self.active_cwd {
            Some(cwd) => self.cwd_history.len() > 0 && self.cwd_history[0] == cwd,
            None => self.cwd_history.len() == 0,
        }
    }

    /// The session of a bridge that has just started and knows no directory.
    pub open spec fn empty() -> SessionView<C, J, R> {
        SessionView {
            active_thread_id: None,
            active_turn_id: None,
            active_turn_cancel: None,
            active_turn_task: None,
            pending_approval: None,
            active_cwd: None,
            cwd_history: Seq::empty(),
        }
    }

    /// What the user is shown of the session.
    pub open spec fn shown(self) -> SnapshotView {
        SnapshotView {
            active_thread_id: self.active_thread_id,
            active_turn_id: self.active_turn_id,
            active_turn_running: self.active_turn_cancel is Some,
            active_cwd: self.active_cwd,
            cwd_history: self.cwd_history,
            pending_approval_message: match self.pending_approval {
                Some(approval) => Some(approval.message),
                None => None,
            },
            pending_approval_supports_session: match self.pending_approval {
                Some(approval) => approval.allow_accept_for_session,
                None => false,
            },
        }
    }

    /// The answer `decision` to the approval that is waited for.
    pub open spec fn answered(self, decision: ApprovalDecision) -> Option<Resolution<R>> {
        match self.pending_approval {
            Some(approval) => Some(Resolution { responder: approval.responder, decision }),
            None => None,
        }
    }
}

/// The history after `cwd` is visited: `cwd` comes first, the other directories follow in their
/// order.
pub open spec fn visited(history: Seq<WorkDirView>, cwd: WorkDirView) -> Seq<WorkDirView> {
    seq![cwd] + history.filter(|d: WorkDirView| d.components != cwd.components)
}

/// The history after the directories of `dirs` are visited, the last one first.
pub open spec fn visited_all(dirs: Seq<WorkDirView>) -> Seq<WorkDirView>
    decreases dirs.len(),
{
    if dirs.len() == 0 {
        Seq::empty()
    } else {
        visited(visited_all(dirs.drop_first()), dirs.first())
    }
}

proof fn lemma_filter_push(
    history: Seq<WorkDirView>,
    dir: WorkDirView,
    keep: spec_fn(WorkDirView) -> bool,
)
    ensures
        history.push(dir).filter(keep) == if keep(dir) {
            history.filter(keep).push(dir)
        } else {
            history.filter(keep)
        },
{
    reveal(Seq::filter);
    assert(history.push(dir).drop_last() =~= history);
}

/// Puts `cwd` first in the history and drops its earlier mention.
pub fn record_cwd_history(history: &mut Vec<WorkDir>, cwd: &WorkDir)
    ensures
        workdir::dir_views(final(history)@) == visited(workdir::dir_views(old(history)@), cwd@),
{
    let ghost before = workdir::dir_views(history@);
    let ghost keep = |d: WorkDirView| d.components != cwd@.components;
    let mut kept: Vec<WorkDir> = Vec::new();
    kept.push(cwd.duplicate());
    let mut i: usize = 0;
    proof {
        reveal(Seq::filter);
        assert(before.take(0).filter(keep) =~= Seq::empty());
        assert(workdir::dir_views(kept@) =~= seq![cwd@] + before.take(0).filter(keep));
    }
    while i < history.len()
        invariant
            before == workdir::dir_views(history@),
            keep == (|d: WorkDirView| d.components != cwd@.components),
            i <= history@.len(),
            workdir::dir_views(kept@) == seq![cwd@] + before.take(i as int).filter(keep),
        decreases history@.len() - i,
    {
        let ghost so_far = kept@;
        proof {
            assert(before.take(i + 1) =~= before.take(i as int).push(before[i as int]));
            lemma_filter_push(before.take(i as int), before[i as int], keep);
        }
        if !history[i].same_as(cwd) {
            kept.push(history[i].duplicate());
            assert(workdir::dir_views(kept@) =~= workdir::dir_views(so_far).push(
                before[i as int],
            ));
        }
        assert(workdir::dir_views(kept@) =~= seq![cwd@] + before.take(i + 1).filter(keep));
        i = i + 1;
    }
    assert(before.take(i as int) =~= before);
    *history = kept;
}

/// What is to be done when the running turn is stopped.
#[derive(Debug)]
pub struct Cancellation<C, R> {
    /// The handle of the turn that is to be cancelled, if one runs.
    pub cancel: Option<C>,
    /// The answer to the approval that the turn waits for, if it waits for one.
    pub resolution: Option<Resolution<R>>,
}

/// A copy of an optional directory.
pub fn copy_dir(dir: &Option<WorkDir>) -> (copy: Option<WorkDir>)
    ensures
        dir_view(copy) == dir_view(*dir),
{
    match dir {
        Some(d) => Some(d.duplicate()),
        None => None,
    }
}

/// The session that the poll loop and the turns of the host share.
#[derive(Debug)]
pub struct SharedSessionState<C, J, R> {
    inner: SessionState<C, J, R>,
}

impl<C, J, R> View for SharedSessionState<C, J, R> {
    type V = SessionView<C, J, R>;

    closed spec fn view(&self) -> SessionView<C, J, R> {
        self.inner@
    }
}

impl<C, J, R> Default for SharedSessionState<C, J, R> {
    fn default() -> (session: Self)
        ensures
            session@ == SessionView::<C, J, R>::empty(),
            session@.well_formed(),
    {
        let inner = SessionState {
            active_thread_id: None,
            active_turn_id: None,
            active_turn_cancel: None,
            active_turn_task: None,
            pending_approval: None,
            active_cwd: None,
            cwd_history: Vec::new(),
        };
        assert(inner@.cwd_history =~= Seq::empty());
        SharedSessionState { inner }
    }
}

impl<C, J, R> SharedSessionState<C, J, R> {
    /// A session in `cwd`, with the directories of `history` visited before, the latest first.
    pub fn new_with_history(cwd: WorkDir, history: Vec<WorkDir>) -> (session: Self)
        ensures
            session@ == (SessionView::<C, J, R> {
                active_cwd: Some(cwd@),
                cwd_history: visited(visited_all(workdir::dir_views(history@)), cwd@),
                ..SessionView::empty()
            }),
            session@.well_formed(),
    {
        let ghost dirs = workdir::dir_views(history@);
        let mut visits: Vec<WorkDir> = Vec::new();
        let mut n: usize = history.len();
        assert(dirs.skip(n as int) =~= Seq::empty());
        assert(workdir::dir_views(visits@) =~= Seq::empty());
        while n > 0
            invariant
                dirs == workdir::dir_views(history@),
                n <= history@.len(),
                workdir::dir_views(visits@) == visited_all(dirs.skip(n as int)),
            decreases n,
        {
            n = n - 1;
            record_cwd_history(&mut visits, &history[n]);
            assert(dirs.skip(n as int).drop_first() =~= dirs.skip(n + 1));
        }
        assert(dirs.skip(0) =~= dirs);
        proof {
            law_visited_all_distinct(dirs);
            law_visit_keeps_distinct(visited_all(dirs), cwd@);
        }
        record_cwd_history(&mut visits, &cwd);
        SharedSessionState {
            inner: SessionState {
                active_thread_id: None,
                active_turn_id: None,
                active_turn_cancel: None,
                active_turn_task: None,
                pending_approval: None,
                active_cwd: Some(cwd),
                cwd_history: visits,
            },
        }
    }

    /// What the user is shown of the session.
    pub fn snapshot(&self) -> (snapshot: SessionSnapshot)
        ensures
            snapshot@ == self@.shown(),
    {
        SessionSnapshot {
            active_thread_id: copy_text(&self.inner.active_thread_id),
            active_turn_id: copy_text(&self.inner.active_turn_id),
            active_turn_running: self.inner.active_turn_cancel.is_some(),
            active_cwd: copy_dir(&self.inner.active_cwd),
            cwd_history: duplicate_all(&self.inner.cwd_history),
            pending_approval_message: match &self.inner.pending_approval {
                Some(approval) => Some(approval.message.clone()),
                None => None,
            },
            pending_approval_supports_session: match &self.inner.pending_approval {
                Some(approval) => approval.allow_accept_for_session,
                None => false,
            },
        }
    }

    /// The thread that prompts go to.
    pub fn active_thread_id(&self) -> (thread_id: Option<String>)
        ensures
            text::text_view(thread_id) == self@.active_thread_id,
    {
        copy_text(&self.inner.active_thread_id)
    }

    /// Makes `thread_id` the thread that prompts go to.
    pub fn set_active_thread(&mut self, thread_id: String)
        ensures
            final(self)@ == (SessionView { active_thread_id: Some(thread_id@), ..old(self)@ }),
            old(self)@.well_formed() ==> final(self)@.well_formed(),
    {
        self.inner.active_thread_id = Some(thread_id);
    }

    /// The working directory.
    pub fn active_cwd(&self) -> (cwd: Option<WorkDir>)
        ensures
            dir_view(cwd) == self@.active_cwd,
    {
        copy_dir(&self.inner.active_cwd)
    }

    /// Makes `cwd` the working directory and the first entry of the history.
    pub fn set_active_cwd(&mut self, cwd: WorkDir)
        ensures
            final(self)@ == (SessionView {
                active_cwd: Some(cwd@),
                cwd_history: visited(old(self)@.cwd_history, cwd@),
                ..old(self)@
            }),
            old(self)@.well_formed() ==> final(self)@.well_formed(),
    {
        proof {
            if distinct_dirs(self@.cwd_history) {
                law_visit_keeps_distinct(self@.cwd_history, cwd@);
            }
        }
        record_cwd_history(&mut self.inner.cwd_history, &cwd);
        self.inner.active_cwd = Some(cwd);
    }

    /// The entry of the history with this index, counted from zero at the latest one.
    pub fn resolve_cwd_history_entry(&self, index: usize) -> (entry: Option<WorkDir>)
        ensures
            dir_view(entry) == if index < self@.cwd_history.len() {
                Some(self@.cwd_history[index as int])
            } else {
                None
            },
    {
        if index < self.inner.cwd_history.len() {
            Some(self.inner.cwd_history[index].duplicate())
        } else {
            None
        }
    }

    /// Remembers the id that Codex gave the running turn.
    pub fn set_active_turn_id(&mut self, turn_id: String)
        ensures
            final(self)@ == (SessionView { active_turn_id: Some(turn_id@), ..old(self)@ }),
            old(self)@.well_formed() ==> final(self)@.well_formed(),
    {
        self.inner.active_turn_id = Some(turn_id);
    }

    /// Records that a turn has been launched; its id is not known yet.
    pub fn set_active_turn(&mut self, cancel: C, task: J)
        ensures
            final(self)@ == (SessionView {
                active_turn_cancel: Some(cancel),
                active_turn_task: Some(task),
                active_turn_id: None,
                ..old(self)@
            }),
            old(self)@.well_formed() ==> final(self)@.well_formed(),
    {
        self.inner.active_turn_cancel = Some(cancel);
        self.inner.active_turn_task = Some(task);
        self.inner.active_turn_id = None;
    }

    /// Records that the turn has ended. An approval that it waited for is answered with
    /// `Cancel`: the asker to be told so is returned.
    pub fn clear_active_turn(&mut self) -> (resolution: Option<Resolution<R>>)
        ensures
            final(self)@ == (SessionView {
                active_turn_cancel: None,
                active_turn_task: None,
                active_turn_id: None,
                pending_approval: None,
                ..old(self)@
            }),
            resolution == old(self)@.answered(ApprovalDecision::Cancel),
            old(self)@.well_formed() ==> final(self)@.well_formed(),
    {
        self.inner.active_turn_cancel = None;
        self.inner.active_turn_task = None;
        self.inner.active_turn_id = None;
        self.resolve_pending_approval(ApprovalDecision::Cancel)
    }

    /// Gives up the running turn. Its handle is returned to be cancelled, and the asker of an
    /// approval that it waited for is returned to be told `Cancel`.
    pub fn cancel_active_turn(&mut self) -> (cancellation: Cancellation<C, R>)
        ensures
            final(self)@ == (SessionView {
                active_turn_cancel: None,
                pending_approval: None,
                ..old(self)@
            }),
            cancellation.cancel == old(self)@.active_turn_cancel,
            cancellation.resolution == old(self)@.answered(ApprovalDecision::Cancel),
            old(self)@.well_formed() ==> final(self)@.well_formed(),
    {
        let resolution = self.resolve_pending_approval(ApprovalDecision::Cancel);
        let cancel = self.inner.active_turn_cancel.take();
        Cancellation { cancel, resolution }
    }

    /// Whether a turn runs that has not been given up.
    pub fn has_active_turn(&self) -> (running: bool)
        ensures
            running == self@.active_turn_cancel is Some,
    {
        self.inner.active_turn_cancel.is_some()
    }

    /// Waits for `approval`. One that was waited for before is answered with `Cancel`: its asker
    /// is returned to be told so.
    pub fn set_pending_approval(&mut self, approval: PendingApproval<R>) -> (resolution: Option<
        Resolution<R>,
    >)
        ensures
            final(self)@ == (SessionView { pending_approval: Some(approval@), ..old(self)@ }),
            resolution == old(self)@.answered(ApprovalDecision::Cancel),
            old(self)@.well_formed() ==> final(self)@.well_formed(),
    {
        let resolution = self.resolve_pending_approval(ApprovalDecision::Cancel);
        self.inner.pending_approval = Some(approval);
        resolution
    }

    /// Answers the approval that is waited for: its asker is returned to be told `decision`.
    pub fn resolve_pending_approval(&mut self, decision: ApprovalDecision) -> (resolution: Option<
        Resolution<R>,
    >)
        ensures
            final(self)@ == (SessionView { pending_approval: None, ..old(self)@ }),
            resolution == old(self)@.answered(decision),
            old(self)@.well_formed() ==> final(self)@.well_formed(),
    {
        match self.inner.pending_approval.take() {
            Some(approval) => Some(approval.resolve(decision)),
            None => None,
        }
    }
}

proof fn lemma_filter_distinct(history: Seq<WorkDirView>, keep: spec_fn(WorkDirView) -> bool)
    requires
        distinct_dirs(history),
    ensures
        distinct_dirs(history.filter(keep)),
        forall|i: int|
            0 <= i < history.filter(keep).len() ==> keep(#[trigger] history.filter(keep)[i])
                && history.contains(history.filter(keep)[i]),
    decreases history.len(),
{
    reveal(Seq::filter);
    if history.len() > 0 {
        let front = history.drop_last();
        assert forall|i: int, j: int| 0 <= i < j < front.len() implies (
        #[trigger] front[i]).components != (#[trigger] front[j]).components by {
            assert(front[i] == history[i] && front[j] == history[j]);
        }
        lemma_filter_distinct(front, keep);
        let kept = history.filter(keep);
        assert forall|i: int| 0 <= i < kept.len() implies keep(#[trigger] kept[i])
            && history.contains(kept[i]) by {
            if i < front.filter(keep).len() {
                assert(kept[i] == front.filter(keep)[i]);
                let k = front.index_of(kept[i]);
                assert(front[k] == kept[i]);
                assert(history[k] == kept[i]);
            } else {
                assert(history[history.len() - 1] == kept[i]);
            }
        }
        assert forall|i: int, j: int| 0 <= i < j < kept.len() implies (
        #[trigger] kept[i]).components != (#[trigger] kept[j]).components by {
            if j == front.filter(keep).len() {
                assert(kept[i] == front.filter(keep)[i]);
                let k = front.index_of(kept[i]);
                assert(front[k] == kept[i]);
                assert(history[k] == kept[i]);
                assert(history[history.len() - 1] == kept[j]);
            } else {
                assert(kept[i] == front.filter(keep)[i]);
                assert(kept[j] == front.filter(keep)[j]);
            }
        }
    }
}

/// Visiting a directory lists no directory twice, if none was listed twice before.
pub proof fn law_visit_keeps_distinct(history: Seq<WorkDirView>, cwd: WorkDirView)
    requires
        distinct_dirs(history),
    ensures
        distinct_dirs(visited(history, cwd)),
{
    let keep = |d: WorkDirView| d.components != cwd.components;
    lemma_filter_distinct(history, keep);
    let after = visited(history, cwd);
    assert forall|i: int, j: int| 0 <= i < j < after.len() implies (
    #[trigger] after[i]).components != (#[trigger] after[j]).components by {
        assert(after[j] == history.filter(keep)[j - 1]);
        if i > 0 {
            assert(after[i] == history.filter(keep)[i - 1]);
        }
    }
}

/// However often the directories of `dirs` are repeated, the history made of them lists none
/// twice.
pub proof fn law_visited_all_distinct(dirs: Seq<WorkDirView>)
    ensures
        distinct_dirs(visited_all(dirs)),
    decreases dirs.len(),
{
    if dirs.len() > 0 {
        law_visited_all_distinct(dirs.drop_first());
        law_visit_keeps_distinct(visited_all(dirs.drop_first()), dirs.first());
    }
}

proof fn lemma_filter_all(history: Seq<WorkDirView>, keep: spec_fn(WorkDirView) -> bool)
    requires
        forall|i: int| 0 <= i < history.len() ==> keep(#[trigger] history[i]),
    ensures
        history.filter(keep) == history,
    decreases history.len(),
{
    reveal(Seq::filter);
    if history.len() > 0 {
        let front = history.drop_last();
        assert forall|i: int| 0 <= i < front.len() implies keep(#[trigger] front[i]) by {
            assert(front[i] == history[i]);
        }
        lemma_filter_all(front, keep);
        assert(keep(history[history.len() - 1]));
        assert(history.filter(keep) =~= history);
    }
}

/// Directories that are visited from the last to the first are listed from the first to the
/// last.
pub proof fn law_visits_are_listed_latest_first(dirs: Seq<WorkDirView>)
    requires
        distinct_dirs(dirs),
    ensures
        visited_all(dirs) == dirs,
    decreases dirs.len(),
{
    if dirs.len() > 0 {
        let rest = dirs.drop_first();
        assert forall|i: int, j: int| 0 <= i < j < rest.len() implies (
        #[trigger] rest[i]).components != (#[trigger] rest[j]).components by {
            assert(rest[i] == dirs[i + 1] && rest[j] == dirs[j + 1]);
        }
        law_visits_are_listed_latest_first(rest);
        let keep = |d: WorkDirView| d.components != dirs.first().components;
        assert forall|i: int| 0 <= i < rest.len() implies keep(#[trigger] rest[i]) by {
            assert(rest[i] == dirs[i + 1]);
            assert(dirs[0].components != dirs[i + 1].components);
        }
        lemma_filter_all(rest, keep);
        assert(visited_all(dirs) =~= dirs);
    } else {
        assert(visited_all(dirs) =~= dirs);
    }
}

/// Visiting a directory again at once changes nothing.
pub proof fn law_visiting_twice_is_visiting_once(history: Seq<WorkDirView>, cwd: WorkDirView)
    ensures
        visited(visited(history, cwd), cwd) == visited(history, cwd),
{
    let keep = |d: WorkDirView| d.components != cwd.components;
    let kept = history.filter(keep);
    broadcast use vstd::seq_lib::group_seq_properties;

    assert forall|i: int| 0 <= i < kept.len() implies keep(#[trigger] kept[i]) by {
        history.lemma_filter_pred(keep, i);
    }
    lemma_filter_all(kept, keep);
    Seq::filter_distributes_over_add(seq![cwd], kept, keep);
    reveal_with_fuel(Seq::filter, 2);
    assert(seq![cwd].drop_last() =~= Seq::empty());
    assert(seq![cwd].filter(keep) =~= Seq::empty());
    assert(visited(history, cwd).filter(keep) =~= kept);
}

/// A visited directory is listed first, and every directory that was listed before is still
/// listed.
pub proof fn law_visits_forget_nothing(
    history: Seq<WorkDirView>,
    cwd: WorkDirView,
    dir: WorkDirView,
)
    requires
        history.contains(dir),
    ensures
        visited(history, cwd)[0] == cwd,
        exists|i: int|
            0 <= i < visited(history, cwd).len() && (#[trigger] visited(
                history,
                cwd,
            )[i]).components == dir.components,
{
    let keep = |d: WorkDirView| d.components != cwd.components;
    let after = visited(history, cwd);
    if dir.components == cwd.components {
        assert(after[0].components == dir.components);
    } else {
        let k = history.index_of(dir);
        history.lemma_filter_contains(keep, k);
        let i = history.filter(keep).index_of(dir);
        assert(after[i + 1] == history.filter(keep)[i]);
    }
}

} // verus!
