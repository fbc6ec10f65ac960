//! What the bridge writes to the chat.

use crate::codex::{TurnResultView, TurnRunResult};
use crate::config::{Config, ConfigView};
use crate::session::{ApprovalDecision, SessionSnapshot, SnapshotView};
use crate::text;
use crate::text::{characters, decimal_text, leading_line, trim, trim_end};
use crate::workdir;
use crate::workdir::{WorkDir, WorkDirView};
use vstd::prelude::*;
use vstd::string::*;

verus! {

/// A line that gives `value` under `label`.
pub open spec fn labelled(label: Seq<char>, value: Seq<char>) -> Seq<char> {
    label + value + "\n"@
}

/// The first `n` directories of a list, each on a line with its index.
pub open spec fn numbered(indent: Seq<char>, dirs: Seq<WorkDirView>, n: nat) -> Seq<char>
    decreases n,
{
    if n == 0 {
        Seq::empty()
    } else {
        numbered(indent, dirs, (n - 1) as nat) + labelled(
            indent + text::decimal((n - 1) as nat) + ": "@,
            dirs[n - 1].display,
        )
    }
}

/// An optional text, or what is written where there is none.
pub open spec fn or_else(value: Option<Seq<char>>, default: Seq<char>) -> Seq<char> {
    match value {
        Some(text) => text,
        None => default,
    }
}

/// A message in one line of at most eighty characters.
pub open spec fn approval_summary(message: Seq<char>) -> Seq<char> {
    let line = text::trimmed(text::first_line(message));
    if line.len() <= 80 {
        line
    } else {
        line.take(80) + "..."@
    }
}

/// The status down to the words that say whether an approval is waited for.
pub open spec fn status_head(snapshot: SnapshotView, config: ConfigView) -> Seq<char> {
    "Current status\n"@ + labelled(
        "cwd: "@,
        match snapshot.active_cwd {
            Some(cwd) => cwd.display,
            None => config.codex_cwd.display,
        },
    ) + labelled("model: "@, or_else(config.codex_model, "(default)"@)) + labelled(
        "approval_policy: "@,
        config.codex_approval_policy,
    ) + labelled("sandbox_mode: "@, or_else(config.codex_sandbox_mode, "(default)"@)) + labelled(
        "thread: "@,
        or_else(snapshot.active_thread_id, "(none)"@),
    ) + labelled(
        "turn_running: "@,
        if snapshot.active_turn_running {
            "yes"@
        } else {
            "no"@
        },
    ) + match snapshot.active_turn_id {
        Some(turn_id) => labelled("turn_id: "@, turn_id),
        None => Seq::empty(),
    } + match snapshot.pending_approval_message {
        Some(_) => "approval_pending: yes"@,
        None => "approval_pending: no"@,
    }
}

/// The status from there on: the approval that is waited for, and the directories visited.
pub open spec fn status_tail(snapshot: SnapshotView) -> Seq<char> {
    "\n"@ + match snapshot.pending_approval_message {
        Some(message) => labelled("approval: "@, approval_summary(message)),
        None => Seq::empty(),
    } + if snapshot.cwd_history.len() > 0 {
        "cwd_history:\n"@ + numbered("  "@, snapshot.cwd_history, snapshot.cwd_history.len())
    } else {
        Seq::empty()
    }
}

/// The status of the bridge.
pub open spec fn status_text(snapshot: SnapshotView, config: ConfigView) -> Seq<char> {
    text::trimmed_end(status_head(snapshot, config) + status_tail(snapshot))
}

/// The working directory and the directories visited before, each with the index by which it is
/// chosen.
pub open spec fn cwd_history_text(snapshot: SnapshotView) -> Seq<char> {
    text::trimmed_end(
        "Current working directory\n"@ + match snapshot.active_cwd {
            Some(cwd) => cwd.display,
            None => "(none)"@,
        } + "\n"@ + if snapshot.cwd_history.len() > 0 {
            "\nHistory\n"@ + numbered(
                Seq::empty(),
                snapshot.cwd_history,
                snapshot.cwd_history.len(),
            )
        } else {
            Seq::empty()
        },
    )
}

/// The commands in words.
pub open spec fn command_list() -> Seq<char> {
    "Telegram Codex Bridge\n\n/new - start a new Codex thread\n/use <thread_id> - switch active thread\n/cwd [path|index] - show or switch working directory\n/status - show current state\n/stop - interrupt running turn\n/approve [session] - approve pending action\n/deny - decline pending action\n\n"@
}

fn push_labelled(text: &mut String, label: &str, value: &str)
    ensures
        final(text)@ == old(text)@ + labelled(label@, value@),
{
    text.append(label);
    text.append(value);
    text.append("\n");
    assert(text@ =~= old(text)@ + labelled(label@, value@));
}

fn push_numbered(text: &mut String, indent: &str, dirs: &Vec<WorkDir>)
    ensures
        final(text)@ == old(text)@ + numbered(
            indent@,
            workdir::dir_views(dirs@),
            dirs@.len() as nat,
        ),
{
    let ghost before = text@;
    let ghost views = workdir::dir_views(dirs@);
    let mut i: usize = 0;
    assert(before + numbered(indent@, views, 0) =~= before);
    while i < dirs.len()
        invariant
            views == workdir::dir_views(dirs@),
            i <= dirs@.len(),
            text@ == before + numbered(indent@, views, i as nat),
        decreases dirs@.len() - i,
    {
        let mut label = indent.to_owned();
        label.append(decimal_text(i as u64).as_str());
        label.append(": ");
        push_labelled(text, label.as_str(), dirs[i].display());
        i = i + 1;
        assert(text@ =~= before + numbered(indent@, views, i as nat));
    }
}

fn text_or<'a>(value: &'a Option<String>, default: &'a str) -> (text: &'a str)
    ensures
        text@ == or_else(text::text_view(*value), default@),
{
    match value {
        Some(text) => text.as_str(),
        None => default,
    }
}

/// The status of the bridge.
pub fn render_status(snapshot: &SessionSnapshot, config: &Config) -> (text: String)
    ensures
        text@ == status_text(snapshot@, config@),
{
    let mut text = "Current status\n".to_owned();
    push_labelled(
        &mut text,
        "cwd: ",
        match &snapshot.active_cwd {
            Some(cwd) => cwd.display(),
            None => config.codex_cwd.display(),
        },
    );
    push_labelled(&mut text, "model: ", text_or(&config.codex_model, "(default)"));
    push_labelled(&mut text, "approval_policy: ", config.codex_approval_policy.as_str());
    push_labelled(&mut text, "sandbox_mode: ", text_or(&config.codex_sandbox_mode, "(default)"));
    push_labelled(&mut text, "thread: ", text_or(&snapshot.active_thread_id, "(none)"));
    push_labelled(
        &mut text,
        "turn_running: ",
        if snapshot.active_turn_running {
            "yes"
        } else {
            "no"
        },
    );
    match &snapshot.active_turn_id {
        Some(turn_id) => {
            push_labelled(&mut text, "turn_id: ", turn_id.as_str());
        },
        None => {
            assert(text@ + Seq::<char>::empty() =~= text@);
        },
    }
    match &snapshot.pending_approval_message {
        Some(message) => {
            text.append("approval_pending: yes");
            assert(text@ =~= status_head(snapshot@, config@));
            text.append("\n");
            push_labelled(&mut text, "approval: ", summarize_pending_approval(message.as_str()).as_str());
        },
        None => {
            text.append("approval_pending: no");
            assert(text@ =~= status_head(snapshot@, config@));
            text.append("\n");
        },
    }
    if snapshot.cwd_history.len() > 0 {
        text.append("cwd_history:\n");
        push_numbered(&mut text, "  ", &snapshot.cwd_history);
    }
    assert(text@ =~= status_head(snapshot@, config@) + status_tail(snapshot@));
    trim_end(text.as_str()).to_owned()
}

/// The working directory and the directories visited before.
pub fn render_cwd_history(snapshot: &SessionSnapshot) -> (text: String)
    ensures
        text@ == cwd_history_text(snapshot@),
{
    let mut text = "Current working directory\n".to_owned();
    text.append(
        match &snapshot.active_cwd {
            Some(cwd) => cwd.display(),
            None => "(none)",
        },
    );
    text.append("\n");
    let ghost head = text@;
    if snapshot.cwd_history.len() > 0 {
        text.append("\nHistory\n");
        proof {
            reveal_strlit("");
            assert(""@ =~= Seq::<char>::empty());
        }
        push_numbered(&mut text, "", &snapshot.cwd_history);
        assert(text@ =~= head + ("\nHistory\n"@ + numbered(
            Seq::empty(),
            snapshot@.cwd_history,
            snapshot@.cwd_history.len(),
        )));
    } else {
        assert(text@ =~= head + Seq::empty());
    }
    trim_end(text.as_str()).to_owned()
}

/// The commands in words, and the status.
pub fn render_help(snapshot: &SessionSnapshot, config: &Config) -> (text: String)
    ensures
        text@ == command_list() + status_text(snapshot@, config@),
{
    let mut text = "Telegram Codex Bridge\n\n/new - start a new Codex thread\n/use <thread_id> - switch active thread\n/cwd [path|index] - show or switch working directory\n/status - show current state\n/stop - interrupt running turn\n/approve [session] - approve pending action\n/deny - decline pending action\n\n".to_owned();
    text.append(render_status(snapshot, config).as_str());
    text
}

/// The text that a turn ends with: the assistant text, or else what was shown last, or else what
/// is known of its end.
pub open spec fn final_text(result: TurnResultView, last_rendered: Seq<char>) -> Seq<char> {
    if result.assistant_text.len() > 0 {
        result.assistant_text
    } else if last_rendered.len() > 0 {
        last_rendered
    } else if result.interrupted {
        "Turn interrupted."@
    } else {
        or_else(result.last_status, "Turn completed with no assistant text."@)
    }
}

/// The text that a turn ends with.
pub fn finalize_text(result: &TurnRunResult, last_rendered: &str) -> (text: String)
    ensures
        text@ == final_text(result@, last_rendered@),
{
    if !result.assistant_text.as_str().is_empty() {
        result.assistant_text.clone()
    } else if !last_rendered.is_empty() {
        last_rendered.to_owned()
    } else if result.interrupted {
        "Turn interrupted.".to_owned()
    } else {
        text_or(&result.last_status, "Turn completed with no assistant text.").to_owned()
    }
}

/// What is written when an approval has been answered.
pub open spec fn acknowledgement(decision: ApprovalDecision) -> Seq<char> {
    match decision {
        ApprovalDecision::Accept => "Approval accepted."@,
        ApprovalDecision::AcceptForSession => "Approval accepted for this session."@,
        ApprovalDecision::Decline => "Approval declined."@,
        ApprovalDecision::Cancel => "Approval cancelled."@,
    }
}

/// What is written when an approval has been answered.
pub fn approval_acknowledgement(decision: ApprovalDecision) -> (text: &'static str)
    ensures
        text@ == acknowledgement(decision),
{
    match decision {
        ApprovalDecision::Accept => "Approval accepted.",
        ApprovalDecision::AcceptForSession => "Approval accepted for this session.",
        ApprovalDecision::Decline => "Approval declined.",
        ApprovalDecision::Cancel => "Approval cancelled.",
    }
}

/// A message in one line of at most eighty characters.
pub fn summarize_pending_approval(message: &str) -> (summary: String)
    ensures
        summary@ == approval_summary(message@),
{
    let line = trim(leading_line(message));
    let length: usize = characters(line).len();
    if length <= 80 {
        return line.to_owned();
    }
    let mut summary = line.substring_char(0, 80).to_owned();
    assert(summary@ =~= line@.take(80));
    summary.append("...");
    summary
}

proof fn lemma_status_keeps_head(snapshot: SnapshotView, config: ConfigView)
    ensures
        status_text(snapshot, config) == status_head(snapshot, config) + text::trimmed_end(
            status_tail(snapshot),
        ),
{
    let head = status_head(snapshot, config);
    let flag = match snapshot.pending_approval_message {
        Some(_) => "approval_pending: yes"@,
        None => "approval_pending: no"@,
    };
    reveal_strlit("approval_pending: yes");
    reveal_strlit("approval_pending: no");
    assert(head.last() == flag.last());
    text::lemma_trimmed_end_keeps(head, status_tail(snapshot));
}

/// The status shows the working directory, the model, the approval policy, the sandbox mode, the
/// thread, whether a turn runs, and its id.
pub proof fn law_status_shows_the_session(snapshot: SnapshotView, config: ConfigView)
    ensures
        ({
            let status = status_text(snapshot, config);
            let cwd = match snapshot.active_cwd {
                Some(cwd) => cwd.display,
                None => config.codex_cwd.display,
            };
            &&& text::occurs_in(status, labelled("cwd: "@, cwd))
            &&& text::occurs_in(
                status,
                labelled("model: "@, or_else(config.codex_model, "(default)"@)),
            )
            &&& text::occurs_in(
                status,
                labelled("approval_policy: "@, config.codex_approval_policy),
            )
            &&& text::occurs_in(
                status,
                labelled("sandbox_mode: "@, or_else(config.codex_sandbox_mode, "(default)"@)),
            )
            &&& text::occurs_in(
                status,
                labelled("thread: "@, or_else(snapshot.active_thread_id, "(none)"@)),
            )
            &&& text::occurs_in(
                status,
                labelled(
                    "turn_running: "@,
                    if snapshot.active_turn_running {
                        "yes"@
                    } else {
                        "no"@
                    },
                ),
            )
            &&& snapshot.active_turn_id matches Some(turn_id) ==> text::occurs_in(
                status,
                labelled("turn_id: "@, turn_id),
            )
        }),
{
    let status = status_text(snapshot, config);
    let cwd = labelled(
        "cwd: "@,
        match snapshot.active_cwd {
            Some(cwd) => cwd.display,
            None => config.codex_cwd.display,
        },
    );
    let model = labelled("model: "@, or_else(config.codex_model, "(default)"@));
    let policy = labelled("approval_policy: "@, config.codex_approval_policy);
    let sandbox = labelled("sandbox_mode: "@, or_else(config.codex_sandbox_mode, "(default)"@));
    let thread = labelled("thread: "@, or_else(snapshot.active_thread_id, "(none)"@));
    let running = labelled(
        "turn_running: "@,
        if snapshot.active_turn_running {
            "yes"@
        } else {
            "no"@
        },
    );
    let turn = match snapshot.active_turn_id {
        Some(turn_id) => labelled("turn_id: "@, turn_id),
        None => Seq::empty(),
    };
    let flag = match snapshot.pending_approval_message {
        Some(_) => "approval_pending: yes"@,
        None => "approval_pending: no"@,
    };
    let tail = text::trimmed_end(status_tail(snapshot));
    lemma_status_keeps_head(snapshot, config);
    let parts = seq![
        "Current status\n"@,
        cwd,
        model,
        policy,
        sandbox,
        thread,
        running,
        turn,
        flag,
        tail,
    ];
    lemma_joined_ten(parts);
    assert(status == joined(parts));
    lemma_part_occurs(parts, 1);
    lemma_part_occurs(parts, 2);
    lemma_part_occurs(parts, 3);
    lemma_part_occurs(parts, 4);
    lemma_part_occurs(parts, 5);
    lemma_part_occurs(parts, 6);
    lemma_part_occurs(parts, 7);
}

spec fn joined(parts: Seq<Seq<char>>) -> Seq<char>
    decreases parts.len(),
{
    if parts.len() == 0 {
        Seq::empty()
    } else if parts.len() == 1 {
        parts[0]
    } else {
        joined(parts.drop_last()) + parts.last()
    }
}

proof fn lemma_joined_ten(parts: Seq<Seq<char>>)
    requires
        parts.len() == 10,
    ensures
        joined(parts) == parts[0] + parts[1] + parts[2] + parts[3] + parts[4] + parts[5] + parts[6]
            + parts[7] + parts[8] + parts[9],
{
    reveal_with_fuel(joined, 11);
}

proof fn lemma_part_occurs(parts: Seq<Seq<char>>, i: int)
    requires
        0 <= i < parts.len(),
    ensures
        text::occurs_in(joined(parts), parts[i]),
    decreases parts.len(),
{
    if parts.len() == 1 {
        text::lemma_occurs_at_end(Seq::empty(), parts[0]);
        assert(Seq::empty() + parts[0] =~= parts[0]);
    } else if i == parts.len() - 1 {
        text::lemma_occurs_at_end(joined(parts.drop_last()), parts[i]);
    } else {
        lemma_part_occurs(parts.drop_last(), i);
        text::lemma_occurs_extended(joined(parts.drop_last()), parts[i], parts.last());
    }
}

/// A summary is one line of at most eighty-three characters, the dots included.
pub proof fn law_summary_is_one_short_line(message: Seq<char>)
    ensures
        approval_summary(message).len() <= 83,
        forall|i: int|
            0 <= i < approval_summary(message).len() ==> #[trigger] approval_summary(message)[i]
                != '\n',
{
    reveal_strlit("...");
    let first = text::first_line(message);
    let line = text::trimmed(first);
    text::lemma_first_line_has_no_feed(message);
    text::lemma_trimmed_is_part(first);
    let at = choose|at: int| text::occurs_at(first, line, at);
    assert forall|i: int| 0 <= i < line.len() implies #[trigger] line[i] != '\n' by {
        assert(first.subrange(at, at + line.len())[i] == first[at + i]);
    }
}

proof fn lemma_numbered_grows(indent: Seq<char>, dirs: Seq<WorkDirView>, k: nat, n: nat)
    requires
        k <= n,
    ensures
        numbered(indent, dirs, k).len() <= numbered(indent, dirs, n).len(),
        numbered(indent, dirs, n).take(numbered(indent, dirs, k).len() as int) == numbered(
            indent,
            dirs,
            k,
        ),
    decreases n,
{
    let part = numbered(indent, dirs, k);
    if k < n {
        lemma_numbered_grows(indent, dirs, k, (n - 1) as nat);
        let before = numbered(indent, dirs, (n - 1) as nat);
        assert(numbered(indent, dirs, n).take(part.len() as int) =~= before.take(
            part.len() as int,
        ));
    } else {
        assert(part.take(part.len() as int) =~= part);
    }
}

/// Whether the entry `i` of a list that a message ends with is shown in full: the white space at
/// the end of a message is dropped.
pub open spec fn shown_in_full(dirs: Seq<WorkDirView>, i: int) -> bool {
    i < dirs.len() - 1 || (dirs[i].display.len() > 0 && !text::is_white(dirs[i].display.last()))
}

/// What a text shows up to a character that is no white space is still shown when the end is
/// trimmed.
proof fn lemma_kept(
    head: Seq<char>,
    list: Seq<char>,
    more: Seq<char>,
    rest: Seq<char>,
    part: Seq<char>,
)
    requires
        text::occurs_in(head + list, part),
        (list + more).len() > 0,
        !text::is_white((list + more).last()),
    ensures
        text::occurs_in(text::trimmed_end(head + (list + more + rest)), part),
{
    let shown = head + list;
    text::lemma_occurs_extended(shown, part, more);
    assert((shown + more).last() == (list + more).last());
    text::lemma_trimmed_end_keeps(shown + more, rest);
    text::lemma_occurs_extended(shown + more, part, text::trimmed_end(rest));
    assert(head + (list + more + rest) =~= shown + more + rest);
}

/// The line of the entry `i`, without its line feed.
spec fn entry_of(dirs: Seq<WorkDirView>, i: int) -> Seq<char> {
    text::decimal(i as nat) + ": "@ + dirs[i].display
}

/// The list down to the entry `i`, without its line feed.
spec fn list_to(indent: Seq<char>, dirs: Seq<WorkDirView>, i: int) -> Seq<char> {
    numbered(indent, dirs, i as nat) + indent + entry_of(dirs, i)
}

proof fn lemma_list_to(indent: Seq<char>, dirs: Seq<WorkDirView>, i: int)
    requires
        0 <= i < dirs.len(),
    ensures
        numbered(indent, dirs, (i + 1) as nat) == list_to(indent, dirs, i) + "\n"@,
{
    assert(numbered(indent, dirs, (i + 1) as nat) =~= list_to(indent, dirs, i) + "\n"@);
}

proof fn lemma_list_goes_on(indent: Seq<char>, dirs: Seq<WorkDirView>, i: int) -> (rest: Seq<char>)
    requires
        0 <= i < dirs.len() - 1,
    ensures
        numbered(indent, dirs, dirs.len()) == list_to(indent, dirs, i) + ("\n"@ + indent
            + text::decimal((i + 1) as nat)) + rest,
{
    let all = numbered(indent, dirs, dirs.len());
    let long = numbered(indent, dirs, (i + 2) as nat);
    let start = list_to(indent, dirs, i) + ("\n"@ + indent + text::decimal((i + 1) as nat));
    lemma_list_to(indent, dirs, i);
    assert(long =~= start + (": "@ + dirs[i + 1].display + "\n"@));
    lemma_numbered_grows(indent, dirs, (i + 2) as nat, dirs.len());
    let rest = all.skip(start.len() as int);
    assert forall|k: int| 0 <= k < start.len() implies all[k] == start[k] by {
        assert(all.take(long.len() as int)[k] == long[k]);
    }
    assert(all =~= start + rest);
    rest
}

proof fn lemma_entry_in_list(
    head: Seq<char>,
    indent: Seq<char>,
    dirs: Seq<WorkDirView>,
    i: int,
)
    ensures
        text::occurs_in(head + list_to(indent, dirs, i), entry_of(dirs, i)),
{
    let before = numbered(indent, dirs, i as nat) + indent;
    text::lemma_occurs_at_end(head + before, entry_of(dirs, i));
    assert(head + list_to(indent, dirs, i) =~= head + before + entry_of(dirs, i));
}

proof fn lemma_last_character(a: Seq<char>, b: Seq<char>, c: Seq<char>)
    requires
        c.len() > 0,
    ensures
        (a + (b + c)).last() == c.last(),
        (a + b + c).last() == c.last(),
{
}

proof fn lemma_listed_before_others(
    head: Seq<char>,
    indent: Seq<char>,
    dirs: Seq<WorkDirView>,
    i: int,
)
    requires
        0 <= i < dirs.len() - 1,
    ensures
        text::occurs_in(
            text::trimmed_end(head + numbered(indent, dirs, dirs.len())),
            entry_of(dirs, i),
        ),
{
    let digits = text::decimal((i + 1) as nat);
    let rest = lemma_list_goes_on(indent, dirs, i);
    text::law_numeral_is_read_back((i + 1) as nat, (i + 1) as nat);
    lemma_last_character(list_to(indent, dirs, i), "\n"@ + indent, digits);
    lemma_entry_in_list(head, indent, dirs, i);
    lemma_kept(
        head,
        list_to(indent, dirs, i),
        "\n"@ + indent + digits,
        rest,
        entry_of(dirs, i),
    );
}

proof fn lemma_listed_last(head: Seq<char>, indent: Seq<char>, dirs: Seq<WorkDirView>, i: int)
    requires
        0 <= i == dirs.len() - 1,
        shown_in_full(dirs, i),
    ensures
        text::occurs_in(
            text::trimmed_end(head + numbered(indent, dirs, dirs.len())),
            entry_of(dirs, i),
        ),
{
    let list = list_to(indent, dirs, i);
    lemma_list_to(indent, dirs, i);
    lemma_entry_in_list(head, indent, dirs, i);
    lemma_last_character(
        numbered(indent, dirs, i as nat) + indent,
        text::decimal(i as nat) + ": "@,
        dirs[i].display,
    );
    assert(list + Seq::empty() =~= list);
    lemma_kept(head, list, Seq::empty(), "\n"@, entry_of(dirs, i));
}

proof fn lemma_listed(head: Seq<char>, indent: Seq<char>, dirs: Seq<WorkDirView>, i: int)
    requires
        0 <= i < dirs.len(),
        shown_in_full(dirs, i),
    ensures
        text::occurs_in(
            text::trimmed_end(head + numbered(indent, dirs, dirs.len())),
            entry_of(dirs, i),
        ),
{
    if i < dirs.len() - 1 {
        lemma_listed_before_others(head, indent, dirs, i);
    } else {
        lemma_listed_last(head, indent, dirs, i);
    }
}

/// Both the status and the answer to `/cwd` list every directory visited, with its index.
pub proof fn law_history_is_listed(snapshot: SnapshotView, config: ConfigView, i: int)
    requires
        0 <= i < snapshot.cwd_history.len(),
        shown_in_full(snapshot.cwd_history, i),
    ensures
        ({
            let entry = text::decimal(i as nat) + ": "@ + snapshot.cwd_history[i].display;
            &&& text::occurs_in(status_text(snapshot, config), entry)
            &&& text::occurs_in(cwd_history_text(snapshot), entry)
        }),
{
    let dirs = snapshot.cwd_history;
    let approval = match snapshot.pending_approval_message {
        Some(message) => labelled("approval: "@, approval_summary(message)),
        None => Seq::empty(),
    };
    let status_before = status_head(snapshot, config) + "\n"@ + approval + "cwd_history:\n"@;
    assert(status_head(snapshot, config) + status_tail(snapshot) =~= status_before + numbered(
        "  "@,
        dirs,
        dirs.len(),
    ));
    lemma_listed(status_before, "  "@, dirs, i);
    let current = match snapshot.active_cwd {
        Some(cwd) => cwd.display,
        None => "(none)"@,
    };
    let before = "Current working directory\n"@ + current + "\n"@ + "\nHistory\n"@;
    assert("Current working directory\n"@ + current + "\n"@ + ("\nHistory\n"@ + numbered(
        Seq::empty(),
        dirs,
        dirs.len(),
    )) =~= before + numbered(Seq::empty(), dirs, dirs.len()));
    lemma_listed(before, Seq::empty(), dirs, i);
}

/// What the assistant wrote is what the turn ends with, whatever else was shown.
pub proof fn law_assistant_text_comes_first(
    result: TurnResultView,
    shown: Seq<char>,
    other: Seq<char>,
)
    requires
        result.assistant_text.len() > 0,
    ensures
        final_text(result, shown) == result.assistant_text,
        final_text(result, shown) == final_text(result, other),
{
}

/// A turn whose last status, if it has one, is not empty ends with a text that is not empty.
pub proof fn law_final_text_is_not_empty(result: TurnResultView, shown: Seq<char>)
    requires
        result.last_status matches Some(status) ==> status.len() > 0,
    ensures
        final_text(result, shown).len() > 0,
{
    reveal_strlit("Turn interrupted.");
    reveal_strlit("Turn completed with no assistant text.");
}

} // verus!
