//! Laws of what the bridge writes to the chat.

use crate::codex::TurnRunResult;
use crate::config::Config;
use crate::laws::words::is_blank;
use crate::render;
use crate::render::{
    approval_acknowledgement, finalize_text, render_cwd_history, render_help, render_status,
    summarize_pending_approval,
};
use crate::session::{ApprovalDecision, SessionSnapshot};
use crate::text;
use crate::text::trim_end;
use crate::workdir::WorkDirView;
use vstd::prelude::*;
use vstd::string::*;

verus! {

/// One line: a label and what it names.
pub open spec fn line(label: Seq<char>, value: Seq<char>) -> Seq<char> {
    label + value + "\n"@
}

/// The directories of a list from the index `from` on, each on a line with its index.
pub open spec fn listed(indent: Seq<char>, dirs: Seq<WorkDirView>, from: int) -> Seq<char>
    decreases dirs.len() - from,
{
    if 0 <= from < dirs.len() {
        indent + text::decimal(from as nat) + ": "@ + dirs[from].display + "\n"@ + listed(
            indent,
            dirs,
            from + 1,
        )
    } else {
        Seq::empty()
    }
}

proof fn lemma_listed(indent: Seq<char>, dirs: Seq<WorkDirView>, k: int)
    requires
        0 <= k <= dirs.len(),
    ensures
        render::numbered(indent, dirs, dirs.len()) == render::numbered(indent, dirs, k as nat)
            + listed(indent, dirs, k),
    decreases dirs.len() - k,
{
    let front = render::numbered(indent, dirs, k as nat);
    if k < dirs.len() {
        lemma_listed(indent, dirs, k + 1);
        let entry = indent + text::decimal(k as nat) + ": "@ + dirs[k].display + "\n"@;
        assert(render::numbered(indent, dirs, (k + 1) as nat) =~= front + entry);
        assert(listed(indent, dirs, k) =~= entry + listed(indent, dirs, k + 1));
        assert(front + entry + listed(indent, dirs, k + 1) =~= front + listed(indent, dirs, k));
    } else {
        assert(front + listed(indent, dirs, k) =~= front);
    }
}

/// Every directory of a list is shown on one line, by the index at which it stands, and in the order
/// of the list.
pub proof fn law_a_list_is_shown_in_order(indent: Seq<char>, dirs: Seq<WorkDirView>)
    ensures
        render::numbered(indent, dirs, dirs.len()) == listed(indent, dirs, 0),
{
    lemma_listed(indent, dirs, 0);
    assert(render::numbered(indent, dirs, 0) =~= Seq::empty());
    assert(Seq::empty() + listed(indent, dirs, 0) =~= listed(indent, dirs, 0));
}

/// The status says, line by line, where the bridge works and with which settings, its thread and its
/// turn, the approval that it waits for, and where it has worked; the white space at the end is
/// dropped.
pub proof fn law_the_status_tells_all(
    snapshot: &SessionSnapshot,
    config: &Config,
    status: String,
    whole: &str,
    kept: &str,
    summary: String,
    message: &str,
)
    requires
        call_ensures(render_status, (snapshot, config), status),
        call_ensures(trim_end, (whole,), kept),
        call_ensures(summarize_pending_approval, (message,), summary),
        snapshot.pending_approval_message matches Some(words) ==> words@ == message@,
        whole@ == "Current status\n"@ + line(
            "cwd: "@,
            if snapshot.active_cwd is Some {
                snapshot.active_cwd->0@.display
            } else {
                config.codex_cwd@.display
            },
        ) + line(
            "model: "@,
            if config.codex_model is Some {
                config.codex_model->0@
            } else {
                "(default)"@
            },
        ) + line("approval_policy: "@, config.codex_approval_policy@) + line(
            "sandbox_mode: "@,
            if config.codex_sandbox_mode is Some {
                config.codex_sandbox_mode->0@
            } else {
                "(default)"@
            },
        ) + line(
            "thread: "@,
            if snapshot.active_thread_id is Some {
                snapshot.active_thread_id->0@
            } else {
                "(none)"@
            },
        ) + line(
            "turn_running: "@,
            if snapshot.active_turn_running {
                "yes"@
            } else {
                "no"@
            },
        ) + (if snapshot.active_turn_id is Some {
            line("turn_id: "@, snapshot.active_turn_id->0@)
        } else {
            Seq::empty()
        }) + (if snapshot.pending_approval_message is Some {
            "approval_pending: yes"@
        } else {
            "approval_pending: no"@
        }) + ("\n"@ + (if snapshot.pending_approval_message is Some {
            line("approval: "@, summary@)
        } else {
            Seq::empty()
        }) + (if snapshot.cwd_history@.len() > 0 {
            "cwd_history:\n"@ + listed("  "@, snapshot@.cwd_history, 0)
        } else {
            Seq::empty()
        })),
    ensures
        status@ == kept@,
{
    law_a_list_is_shown_in_order("  "@, snapshot@.cwd_history);
    assert(whole@ == render::status_head(snapshot@, config@) + render::status_tail(snapshot@));
}

/// The answer to `/cwd` says where the bridge works and where it has worked; the white space at the
/// end is dropped.
pub proof fn law_the_directories_are_told(
    snapshot: &SessionSnapshot,
    shown: String,
    whole: &str,
    kept: &str,
)
    requires
        call_ensures(render_cwd_history, (snapshot,), shown),
        call_ensures(trim_end, (whole,), kept),
        whole@ == "Current working directory\n"@ + (if snapshot.active_cwd is Some {
            snapshot.active_cwd->0@.display
        } else {
            "(none)"@
        }) + "\n"@ + (if snapshot.cwd_history@.len() > 0 {
            "\nHistory\n"@ + listed(Seq::empty(), snapshot@.cwd_history, 0)
        } else {
            Seq::empty()
        }),
    ensures
        shown@ == kept@,
{
    law_a_list_is_shown_in_order(Seq::empty(), snapshot@.cwd_history);
}

/// The help lists the commands and ends with the status.
pub proof fn law_the_help_ends_with_the_status(
    snapshot: &SessionSnapshot,
    config: &Config,
    help: String,
    status: String,
)
    requires
        call_ensures(render_help, (snapshot, config), help),
        call_ensures(render_status, (snapshot, config), status),
    ensures
        help@
            == "Telegram Codex Bridge\n\n/new - start a new Codex thread\n/use <thread_id> - switch active thread\n/cwd [path|index] - show or switch working directory\n/status - show current state\n/stop - interrupt running turn\n/approve [session] - approve pending action\n/deny - decline pending action\n\n"@
            + status@,
{
}

/// A summary is the first line of the message without the white space around it, cut off behind its
/// eightieth character, where three dots then stand.
pub proof fn law_a_summary_is_the_first_line(
    message: &str,
    summary: String,
    before: Seq<char>,
    words: Seq<char>,
    after: Seq<char>,
    rest: Seq<char>,
)
    requires
        call_ensures(summarize_pending_approval, (message,), summary),
        message@ == before + words + after + rest,
        is_blank(before),
        is_blank(after),
        words.len() > 0 ==> !text::is_white(words.first()) && !text::is_white(words.last()),
        forall|i: int| 0 <= i < (before + words + after).len() ==> (before + words + after)[i]
            != '\n',
        rest.len() > 0 ==> rest[0] == '\n',
    ensures
        words.len() <= 80 ==> summary@ == words,
        words.len() > 80 ==> summary@ == words.take(80) + "..."@,
{
    let first = before + words + after;
    let stop = |c: char| c == '\n';
    assert forall|i: int| 0 <= i < first.len() implies !#[trigger] stop(message@[i]) by {
        assert(message@[i] == first[i]);
    }
    if rest.len() > 0 {
        assert(message@[first.len() as int] == rest[0]);
    }
    text::lemma_length_before(message@, stop, first.len());
    assert(text::first_line(message@) =~= first);
    if words.len() > 0 {
        text::lemma_trimmed_of_parts(before, words, after);
    } else {
        assert forall|i: int| 0 <= i < first.len() implies text::is_white(#[trigger] first[i]) by {
            if i < before.len() {
                assert(first[i] == before[i]);
            } else {
                assert(first[i] == after[i - before.len()]);
            }
        }
        text::lemma_white_is_trimmed_away(first);
        assert(text::trimmed(first) =~= words);
    }
}

/// A turn ends with what the assistant wrote; where it wrote nothing, with what was shown; where
/// nothing was shown, with the word that it was interrupted, its last status, or the word that
/// nothing was written.
pub proof fn law_a_turn_never_ends_in_silence(result: &TurnRunResult, shown: &str, words: String)
    requires
        call_ensures(finalize_text, (result, shown), words),
    ensures
        result.assistant_text@.len() > 0 ==> words@ == result.assistant_text@,
        result.assistant_text@.len() == 0 && shown@.len() > 0 ==> words@ == shown@,
        result.assistant_text@.len() == 0 && shown@.len() == 0 && result.interrupted ==> words@
            == "Turn interrupted."@,
        result.assistant_text@.len() == 0 && shown@.len() == 0 && !result.interrupted ==> words@
            == (if result.last_status is Some {
            result.last_status->0@
        } else {
            "Turn completed with no assistant text."@
        }),
{
}

/// Each decision is acknowledged in its own words.
pub proof fn law_decisions_are_acknowledged(decision: ApprovalDecision, words: &'static str)
    requires
        call_ensures(approval_acknowledgement, (decision,), words),
    ensures
        decision == ApprovalDecision::Accept ==> words@ == "Approval accepted."@,
        decision == ApprovalDecision::AcceptForSession ==> words@
            == "Approval accepted for this session."@,
        decision == ApprovalDecision::Decline ==> words@ == "Approval declined."@,
        decision == ApprovalDecision::Cancel ==> words@ == "Approval cancelled."@,
{
}

} // verus!
