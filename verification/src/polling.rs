//! Long polling: which updates are asked for next, and what is done when a poll fails.

use crate::telegram;
use crate::telegram::{is_telegram_poll_conflict, TelegramUpdate};
use vstd::prelude::*;
use vstd::string::*;

verus! {

/// Whether polling is given up after this many conflicts in a row.
pub fn should_exit_after_poll_conflicts(consecutive: u32) -> (exit: bool)
    ensures
        exit == (consecutive >= 3),
{
    consecutive >= 3
}

/// The state of the poll loop.
#[derive(Debug)]
pub struct PollState {
    offset: Option<i64>,
    conflicts: u32,
}

/// The state of the poll loop as mathematics.
pub struct PollView {
    /// The first update that is asked for.
    pub offset: Option<i64>,
    /// How many polls in a row met another poller.
    pub conflicts: nat,
}

impl View for PollState {
    type V = PollView;

    closed spec fn view(&self) -> PollView {
        PollView { offset: self.offset, conflicts: self.conflicts as nat }
    }
}

/// What is done when a poll has failed.
#[derive(Debug)]
pub enum PollReaction {
    /// Polling is given up for this reason.
    GiveUp(String),
    /// After this many seconds the poll is tried again; meanwhile `notice` is reported.
    Retry { delay_seconds: u64, notice: String },
}

/// What is done when a poll has failed, as mathematics.
pub enum PollReactionView {
    GiveUp(Seq<char>),
    Retry { delay_seconds: u64, notice: Seq<char> },
}

impl View for PollReaction {
    type V = PollReactionView;

    open spec fn view(&self) -> PollReactionView {
        match self {
            PollReaction::GiveUp(reason) => PollReactionView::GiveUp(reason@),
            PollReaction::Retry { delay_seconds, notice } => PollReactionView::Retry {
                delay_seconds: *delay_seconds,
                notice: notice@,
            },
        }
    }
}

/// The reason for which polling is given up.
pub open spec fn persistent_conflict() -> Seq<char> {
    "telegram polling conflict persisted after 3 attempts; local single-instance lock is active, so another program or machine is using the same bot token via getUpdates. Stop the external poller or rotate TELEGRAM_BOT_TOKEN."@
}

impl PollView {
    /// Whether the loop has not been given up.
    pub open spec fn polling(self) -> bool {
        self.conflicts < 3
    }

    /// The state after a poll has succeeded.
    pub open spec fn after_success(self) -> PollView {
        PollView { conflicts: 0, ..self }
    }

    /// The state after a poll has failed with `error`.
    pub open spec fn after_error(self, error: Seq<char>) -> PollView {
        if telegram::tells_poll_conflict(error) {
            PollView { conflicts: self.conflicts + 1, ..self }
        } else {
            self
        }
    }

    /// Whether a poll that failed with `error` met another poller whose poll is waited out.
    pub open spec fn waits_out(self, error: Seq<char>) -> bool {
        telegram::tells_poll_conflict(error) && self.conflicts + 1 < 3
    }

    /// What is done about a poll that failed with `error`.
    pub open spec fn reaction(self, error: Seq<char>, poll_timeout_seconds: u64) -> PollReactionView {
        if !telegram::tells_poll_conflict(error) {
            PollReactionView::Retry {
                delay_seconds: 2,
                notice: "telegram polling failed: "@ + error,
            }
        } else if self.conflicts + 1 >= 3 {
            PollReactionView::GiveUp(persistent_conflict())
        } else {
            PollReactionView::Retry {
                delay_seconds: (poll_timeout_seconds + 2) as u64,
                notice: "telegram polling conflict: another poller is using the same bot token"@,
            }
        }
    }
}

impl PollState {
    /// The state before the first poll: every update is asked for.
    pub fn new() -> (state: PollState)
        ensures
            state@ == (PollView { offset: None, conflicts: 0 }),
            state@.polling(),
    {
        PollState { offset: None, conflicts: 0 }
    }

    /// The first update that is asked for.
    pub fn offset(&self) -> (offset: Option<i64>)
        ensures
            offset == self@.offset,
    {
        self.offset
    }

    /// How many polls in a row met another poller.
    pub fn conflicts(&self) -> (conflicts: u32)
        ensures
            conflicts == self@.conflicts,
    {
        self.conflicts
    }

    /// Records that a poll has succeeded.
    pub fn poll_succeeded(&mut self)
        ensures
            final(self)@ == old(self)@.after_success(),
            final(self)@.polling(),
    {
        self.conflicts = 0;
    }

    /// Records that an update has been received: it is not asked for again.
    pub fn take_update(&mut self, update: &TelegramUpdate)
        requires
            update.update_id < i64::MAX,
        ensures
            final(self)@ == (PollView { offset: Some((update.update_id + 1) as i64), ..old(self)@ }),
    {
        self.offset = Some(update.update_id + 1);
    }

    /// Records that a poll has failed and says what is done. Conflicts with another poller are
    /// waited out, so that its poll can end, and given up after the third in a row.
    pub fn poll_failed(&mut self, error: &str, poll_timeout_seconds: u64) -> (reaction: PollReaction)
        requires
            old(self)@.polling(),
            old(self)@.waits_out(error@) ==> poll_timeout_seconds <= u64::MAX - 2,
        ensures
            final(self)@ == old(self)@.after_error(error@),
            reaction@ == old(self)@.reaction(error@, poll_timeout_seconds),
            final(self)@.polling() <==> reaction is Retry,
    {
        if !is_telegram_poll_conflict(error) {
            let mut notice = "telegram polling failed: ".to_owned();
            notice.append(error);
            return PollReaction::Retry { delay_seconds: 2, notice };
        }
        self.conflicts = self.conflicts + 1;
        if should_exit_after_poll_conflicts(self.conflicts) {
            PollReaction::GiveUp(
                "telegram polling conflict persisted after 3 attempts; local single-instance lock is active, so another program or machine is using the same bot token via getUpdates. Stop the external poller or rotate TELEGRAM_BOT_TOKEN.".to_owned(),
            )
        } else {
            PollReaction::Retry {
                delay_seconds: poll_timeout_seconds + 2,
                notice: "telegram polling conflict: another poller is using the same bot token".to_owned(),
            }
        }
    }
}

/// The state after polls have failed with these errors, one after another.
pub open spec fn after_errors(state: PollView, errors: Seq<Seq<char>>) -> PollView
    decreases errors.len(),
{
    if errors.len() == 0 {
        state
    } else {
        after_errors(state, errors.drop_last()).after_error(errors.last())
    }
}

/// Polling that has just succeeded is given up at the third conflict in a row and not before.
pub proof fn law_third_conflict_gives_up(
    state: PollView,
    first: Seq<char>,
    second: Seq<char>,
    third: Seq<char>,
    poll_timeout_seconds: u64,
)
    requires
        telegram::tells_poll_conflict(first),
        telegram::tells_poll_conflict(second),
        telegram::tells_poll_conflict(third),
    ensures
        ({
            let fresh = state.after_success();
            let once = fresh.after_error(first);
            let twice = once.after_error(second);
            &&& fresh.reaction(first, poll_timeout_seconds) is Retry
            &&& once.reaction(second, poll_timeout_seconds) is Retry
            &&& twice.reaction(third, poll_timeout_seconds) == PollReactionView::GiveUp(
                persistent_conflict(),
            )
        }),
{
}

/// However many polls fail, polling goes on as long as none of them meets another poller.
pub proof fn law_other_errors_never_give_up(
    state: PollView,
    errors: Seq<Seq<char>>,
    poll_timeout_seconds: u64,
)
    requires
        state.polling(),
        forall|i: int| 0 <= i < errors.len() ==> !telegram::tells_poll_conflict(#[trigger] errors[i]),
    ensures
        after_errors(state, errors) == state,
        errors.len() > 0 ==> state.reaction(errors.last(), poll_timeout_seconds) is Retry,
    decreases errors.len(),
{
    if errors.len() > 0 {
        let front = errors.drop_last();
        assert forall|i: int| 0 <= i < front.len() implies !telegram::tells_poll_conflict(
            #[trigger] front[i],
        ) by {
            assert(front[i] == errors[i]);
        }
        law_other_errors_never_give_up(state, front, poll_timeout_seconds);
        assert(errors.last() == errors[errors.len() - 1]);
    }
}

} // verus!
