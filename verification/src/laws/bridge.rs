//! Laws of the chat: what comes of a message and of a command.

use crate::app::{answer_text, conclude_turn, Action, App, EventReply};
use crate::codex::{TurnEvent, TurnEventView, TurnRunResult};
use crate::commands::{BotCommand, BotCommandView};
use crate::config::Config;
use crate::progress::ProgressRenderer;
use crate::render::{render_cwd_history, render_help, render_status};
use crate::session::{ApprovalDecision, SessionSnapshot, SharedSessionState};
use crate::telegram::{EmptyToken, TelegramMessage};
use crate::text;
use crate::text::{decimal_text, parse_unsigned};
use crate::workdir::{WorkDir, WorkDirView};
use vstd::prelude::*;
use vstd::string::*;

verus! {

/// A message of a chat that is not private is ignored and changes nothing.
pub proof fn law_other_chats_are_ignored<C, J, R>(
    app: &mut App<C, J, R>,
    message: TelegramMessage,
    action: Action<C, R>,
)
    requires
        call_ensures(App::<C, J, R>::handle_message, (app, message), action),
        message.chat.kind@ != "private"@,
    ensures
        action is Ignore,
        final(app)@ == old(app)@,
{
}

/// A private message that does not say who wrote it is reported and changes nothing.
pub proof fn law_nameless_messages_are_reported<C, J, R>(
    app: &mut App<C, J, R>,
    message: TelegramMessage,
    action: Action<C, R>,
)
    requires
        call_ensures(App::<C, J, R>::handle_message, (app, message), action),
        message.chat.kind@ == "private"@,
        message.from is None,
    ensures
        action matches Action::Fail(reason) && reason@ == "telegram message missing from field"@,
        final(app)@ == old(app)@,
{
}

/// Where one user is allowed, whatever another user writes is dismissed and changes nothing.
pub proof fn law_strangers_are_dismissed<C, J, R>(
    app: &mut App<C, J, R>,
    message: TelegramMessage,
    action: Action<C, R>,
    allowed: i64,
)
    requires
        call_ensures(App::<C, J, R>::handle_message, (app, message), action),
        message.chat.kind@ == "private"@,
        message.from is Some,
        old(app)@.config.telegram_allowed_user_id == Some(allowed),
        message.from->0.id != allowed,
    ensures
        action matches Action::Dismiss { chat_id, text } && chat_id == message.chat.id && text@
            == "Unauthorized user."@,
        final(app)@ == old(app)@,
{
}

/// Whether `message` comes from a private chat and from one who may give commands.
pub open spec fn may_speak<C, J, R>(app: App<C, J, R>, message: TelegramMessage) -> bool {
    &&& message.chat.kind@ == "private"@
    &&& message.from is Some
    &&& app@.config.telegram_allowed_user_id matches Some(allowed) ==> message.from->0.id == allowed
}

/// A message that holds nothing but white space is answered with the advice to send text, and
/// changes nothing.
pub proof fn law_messages_without_text_are_answered<C, J, R>(
    app: &mut App<C, J, R>,
    message: TelegramMessage,
    action: Action<C, R>,
)
    requires
        call_ensures(App::<C, J, R>::handle_message, (app, message), action),
        may_speak(*old(app), message),
        message.text matches Some(text) ==> forall|i: int|
            0 <= i < text@.len() ==> text::is_white(#[trigger] text@[i]),
    ensures
        action matches Action::Send { chat_id, text } && chat_id == message.chat.id && text@
            == "Only text messages are supported in this MVP."@,
        final(app)@ == old(app)@,
{
    if message.text is Some {
        text::lemma_white_is_trimmed_away(message.text->0@);
    }
}

/// A message with text, from one who may speak, does what the command does that the text gives.
pub proof fn law_a_message_does_what_its_command_does<C, J, R>(
    app: &mut App<C, J, R>,
    message: TelegramMessage,
    action: Action<C, R>,
    other: &mut App<C, J, R>,
    words: &str,
    command: BotCommand,
    expected: Action<C, R>,
)
    requires
        call_ensures(App::<C, J, R>::handle_message, (app, message), action),
        call_ensures(BotCommand::parse, (words,), command),
        call_ensures(
            App::<C, J, R>::handle_command,
            (other, message.chat.id, command),
            expected,
        ),
        old(app)@ == old(other)@,
        may_speak(*old(app), message),
        message.text matches Some(text) && text@ == words@,
        exists|i: int| 0 <= i < words@.len() && !text::is_white(#[trigger] words@[i]),
    ensures
        action@ == expected@,
        final(app)@ == final(other)@,
{
    let i = choose|i: int| 0 <= i < words@.len() && !text::is_white(#[trigger] words@[i]);
    text::lemma_words_are_not_trimmed_away(words@, i);
    crate::commands::law_surrounding_space_does_not_matter(words@);
}

/// While a turn runs, a prompt, `/new`, `/use` and `/cwd` change nothing and are answered with the
/// advice to stop the turn first.
pub proof fn law_a_busy_bridge_refuses<C, J, R>(
    app: &mut App<C, J, R>,
    chat_id: i64,
    command: BotCommand,
    action: Action<C, R>,
)
    requires
        call_ensures(App::<C, J, R>::handle_command, (app, chat_id, command), action),
        old(app)@.session.active_turn_cancel is Some,
        command is New || command is Use || command is Cwd || command is Prompt,
    ensures
        final(app)@ == old(app)@,
        action matches Action::Send { chat_id: to, text } && to == chat_id && text@ == (if command
            is Prompt {
            "A turn is already running. Use /stop first."@
        } else {
            "A turn is running. Use /stop first."@
        }),
{
}

/// In an idle bridge `/new` starts a thread and changes nothing until the thread is there.
pub proof fn law_new_starts_a_thread<C, J, R>(
    app: &mut App<C, J, R>,
    chat_id: i64,
    command: BotCommand,
    action: Action<C, R>,
)
    requires
        call_ensures(App::<C, J, R>::handle_command, (app, chat_id, command), action),
        old(app)@.session.active_turn_cancel is None,
        command is New,
    ensures
        final(app)@ == old(app)@,
        action matches Action::StartThread { chat_id: to, text } && to == chat_id && text@
            == "Creating new Codex thread..."@,
{
}

/// A thread that was started is the one that prompts go to, whichever was before, and the chat
/// reads its id. A thread that could not be started changes nothing, and the chat reads why.
pub proof fn law_a_started_thread_is_active<C, J, R>(
    app: &mut App<C, J, R>,
    outcome: Result<String, String>,
    text: String,
)
    requires
        call_ensures(App::<C, J, R>::thread_started, (app, outcome), text),
    ensures
        final(app)@.config == old(app)@.config,
        final(app)@.telegram == old(app)@.telegram,
        final(app)@.codex == old(app)@.codex,
        final(app)@.session.active_turn_id == old(app)@.session.active_turn_id,
        final(app)@.session.active_turn_cancel == old(app)@.session.active_turn_cancel,
        final(app)@.session.active_turn_task == old(app)@.session.active_turn_task,
        final(app)@.session.pending_approval == old(app)@.session.pending_approval,
        final(app)@.session.active_cwd == old(app)@.session.active_cwd,
        final(app)@.session.cwd_history == old(app)@.session.cwd_history,
        match outcome {
            Ok(thread_id) => final(app)@.session.active_thread_id == Some(thread_id@) && text@
                == "Started new Codex thread:\n"@ + thread_id@,
            Err(error) => final(app)@.session.active_thread_id
                == old(app)@.session.active_thread_id && text@
                == "Failed to start Codex thread:\n"@ + error@,
        },
{
}

/// In an idle bridge `/use` makes the named thread the one that prompts go to, and nothing else
/// changes.
pub proof fn law_use_switches_the_thread<C, J, R>(
    app: &mut App<C, J, R>,
    chat_id: i64,
    command: BotCommand,
    action: Action<C, R>,
    thread_id: Seq<char>,
)
    requires
        call_ensures(App::<C, J, R>::handle_command, (app, chat_id, command), action),
        old(app)@.session.active_turn_cancel is None,
        command@ == BotCommandView::Use(thread_id),
    ensures
        final(app)@.session.active_thread_id == Some(thread_id),
        final(app)@.config == old(app)@.config,
        final(app)@.telegram == old(app)@.telegram,
        final(app)@.codex == old(app)@.codex,
        final(app)@.session.active_turn_id == old(app)@.session.active_turn_id,
        final(app)@.session.active_turn_cancel is None,
        final(app)@.session.active_turn_task == old(app)@.session.active_turn_task,
        final(app)@.session.pending_approval == old(app)@.session.pending_approval,
        final(app)@.session.active_cwd == old(app)@.session.active_cwd,
        final(app)@.session.cwd_history == old(app)@.session.cwd_history,
        action matches Action::Send { chat_id: to, text } && to == chat_id && text@
            == "Switched to Codex thread:\n"@ + thread_id,
{
}

/// In an idle bridge a prompt goes, as it is written, to the active thread, or is answered with the
/// advice to start one; it changes nothing by itself.
pub proof fn law_prompts_are_passed_on<C, J, R>(
    app: &mut App<C, J, R>,
    chat_id: i64,
    command: BotCommand,
    action: Action<C, R>,
    prompt: Seq<char>,
)
    requires
        call_ensures(App::<C, J, R>::handle_command, (app, chat_id, command), action),
        old(app)@.session.active_turn_cancel is None,
        command@ == BotCommandView::Prompt(prompt),
    ensures
        final(app)@ == old(app)@,
        match old(app)@.session.active_thread_id {
            Some(thread) => action matches Action::StartTurn {
                chat_id: to,
                text,
                thread_id,
                prompt: given,
            } && to == chat_id && text@ == "Thinking..."@ && thread_id@ == thread && given@
                == prompt,
            None => action matches Action::Send { chat_id: to, text } && to == chat_id && text@
                == "No active thread. Run /new first."@,
        },
{
}

/// `/start`, `/status` and `/cwd` without an argument change nothing and send what is rendered of
/// the session as it is.
pub proof fn law_questions_are_answered_from_the_session<C, J, R>(
    app: &mut App<C, J, R>,
    chat_id: i64,
    command: BotCommand,
    action: Action<C, R>,
    snapshot: SessionSnapshot,
    help: String,
    status: String,
    history: String,
)
    requires
        call_ensures(App::<C, J, R>::handle_command, (app, chat_id, command), action),
        call_ensures(
            SharedSessionState::<C, J, R>::snapshot,
            (&old(app).session,),
            snapshot,
        ),
        call_ensures(render_help, (&snapshot, &old(app).config), help),
        call_ensures(render_status, (&snapshot, &old(app).config), status),
        call_ensures(render_cwd_history, (&snapshot,), history),
        command is Start || command is Status || (command@ == BotCommandView::Cwd(None) && old(
            app,
        )@.session.active_turn_cancel is None),
    ensures
        final(app)@ == old(app)@,
        action matches Action::Send { chat_id: to, text } && to == chat_id && text@ == (if command
            is Start {
            help@
        } else if command is Status {
            status@
        } else {
            history@
        }),
{
}

/// A command that is none is answered with the help that it carries, and changes nothing.
pub proof fn law_invalid_commands_are_answered<C, J, R>(
    app: &mut App<C, J, R>,
    chat_id: i64,
    command: BotCommand,
    action: Action<C, R>,
    help: Seq<char>,
)
    requires
        call_ensures(App::<C, J, R>::handle_command, (app, chat_id, command), action),
        command@ == BotCommandView::Invalid(help),
    ensures
        final(app)@ == old(app)@,
        action matches Action::Send { chat_id: to, text } && to == chat_id && text@
            == "Invalid command.\n"@ + help,
{
}

/// `/stop` gives up the turn that runs, by its own handle, and answers the approval that is waited
/// for with `Cancel`. Nothing else changes.
pub proof fn law_stop_gives_up_the_turn<C, J, R>(
    app: &mut App<C, J, R>,
    chat_id: i64,
    command: BotCommand,
    action: Action<C, R>,
)
    requires
        call_ensures(App::<C, J, R>::handle_command, (app, chat_id, command), action),
        command is Stop,
    ensures
        final(app)@.session.active_turn_cancel is None,
        final(app)@.session.pending_approval is None,
        final(app)@.config == old(app)@.config,
        final(app)@.telegram == old(app)@.telegram,
        final(app)@.codex == old(app)@.codex,
        final(app)@.session.active_thread_id == old(app)@.session.active_thread_id,
        final(app)@.session.active_turn_id == old(app)@.session.active_turn_id,
        final(app)@.session.active_turn_task == old(app)@.session.active_turn_task,
        final(app)@.session.active_cwd == old(app)@.session.active_cwd,
        final(app)@.session.cwd_history == old(app)@.session.cwd_history,
        action matches Action::Stop { cancellation, chat_id: to, text } && {
            &&& to == chat_id
            &&& cancellation.cancel == old(app)@.session.active_turn_cancel
            &&& match old(app)@.session.pending_approval {
                Some(approval) => cancellation.resolution matches Some(resolution)
                    && resolution.responder == approval.responder && resolution.decision
                    == ApprovalDecision::Cancel,
                None => cancellation.resolution is None,
            }
            &&& text@ == (if old(app)@.session.active_turn_cancel is Some {
                "Stop requested."@
            } else {
                "No active turn."@
            })
        },
{
}

/// `/approve` approves once what is asked for: its asker is told `Accept`, also where an approval
/// for the whole session is offered.
pub proof fn law_approve_approves_once<C, J, R>(
    app: &mut App<C, J, R>,
    chat_id: i64,
    command: BotCommand,
    action: Action<C, R>,
)
    requires
        call_ensures(App::<C, J, R>::handle_command, (app, chat_id, command), action),
        command@ == (BotCommandView::Approve { for_session: false }),
        old(app)@.session.pending_approval is Some,
    ensures
        final(app)@.session.pending_approval is None,
        action matches Action::Answer { resolution, chat_id: to, delivered, expired } && {
            &&& resolution.responder == old(app)@.session.pending_approval->0.responder
            &&& resolution.decision == ApprovalDecision::Accept
            &&& to == chat_id
            &&& delivered@ == "Approval accepted."@
            &&& expired@ == "Pending approval already expired."@
        },
{
}

/// `/approve session` approves for the whole session where that is offered: its asker is told
/// `AcceptForSession`. Where it is not offered, the approval stays open and nothing changes.
pub proof fn law_approve_session_needs_an_offer<C, J, R>(
    app: &mut App<C, J, R>,
    chat_id: i64,
    command: BotCommand,
    action: Action<C, R>,
)
    requires
        call_ensures(App::<C, J, R>::handle_command, (app, chat_id, command), action),
        command@ == (BotCommandView::Approve { for_session: true }),
        old(app)@.session.pending_approval is Some,
    ensures
        if old(app)@.session.pending_approval->0.allow_accept_for_session {
            &&& final(app)@.session.pending_approval is None
            &&& action matches Action::Answer { resolution, chat_id: to, delivered, expired } && {
                &&& resolution.responder == old(app)@.session.pending_approval->0.responder
                &&& resolution.decision == ApprovalDecision::AcceptForSession
                &&& to == chat_id
                &&& delivered@ == "Approval accepted for this session."@
                &&& expired@ == "Pending approval already expired."@
            }
        } else {
            &&& final(app)@ == old(app)@
            &&& action matches Action::Send { chat_id: to, text } && to == chat_id && text@
                == "This approval does not support session-wide approval. Use /approve or /deny."@
        },
{
}

/// `/deny` declines what is asked for: its asker is told `Decline`.
pub proof fn law_deny_declines<C, J, R>(
    app: &mut App<C, J, R>,
    chat_id: i64,
    command: BotCommand,
    action: Action<C, R>,
)
    requires
        call_ensures(App::<C, J, R>::handle_command, (app, chat_id, command), action),
        command is Deny,
        old(app)@.session.pending_approval is Some,
    ensures
        final(app)@.session.pending_approval is None,
        action matches Action::Answer { resolution, chat_id: to, delivered, expired } && {
            &&& resolution.responder == old(app)@.session.pending_approval->0.responder
            &&& resolution.decision == ApprovalDecision::Decline
            &&& to == chat_id
            &&& delivered@ == "Approval declined."@
            &&& expired@ == "No pending approval."@
        },
{
}

/// `/approve` and `/deny` change nothing but the approval that is waited for, and where none is, say
/// so and change nothing at all.
pub proof fn law_answers_change_only_the_approval<C, J, R>(
    app: &mut App<C, J, R>,
    chat_id: i64,
    command: BotCommand,
    action: Action<C, R>,
)
    requires
        call_ensures(App::<C, J, R>::handle_command, (app, chat_id, command), action),
        command is Approve || command is Deny,
    ensures
        final(app)@.config == old(app)@.config,
        final(app)@.telegram == old(app)@.telegram,
        final(app)@.codex == old(app)@.codex,
        final(app)@.session.active_thread_id == old(app)@.session.active_thread_id,
        final(app)@.session.active_turn_id == old(app)@.session.active_turn_id,
        final(app)@.session.active_turn_cancel == old(app)@.session.active_turn_cancel,
        final(app)@.session.active_turn_task == old(app)@.session.active_turn_task,
        final(app)@.session.active_cwd == old(app)@.session.active_cwd,
        final(app)@.session.cwd_history == old(app)@.session.cwd_history,
        old(app)@.session.pending_approval is None ==> {
            &&& final(app)@ == old(app)@
            &&& action matches Action::Send { chat_id: to, text } && to == chat_id && text@
                == "No pending approval."@
        },
{
}

/// The bridge has moved to `cwd`: Codex works there, the session shows it, it comes first in the
/// history, and nothing but that changed.
pub open spec fn has_moved<C, J, R>(before: App<C, J, R>, after: App<C, J, R>, cwd: WorkDirView) -> bool {
    &&& after@.codex.cwd == cwd
    &&& after@.codex.binary == before@.codex.binary
    &&& after@.codex.model == before@.codex.model
    &&& after@.codex.approval_policy == before@.codex.approval_policy
    &&& after@.codex.sandbox_mode == before@.codex.sandbox_mode
    &&& after@.session.active_cwd == Some(cwd)
    &&& after@.session.cwd_history.len() > 0
    &&& after@.session.cwd_history[0] == cwd
    &&& after@.session.active_thread_id == before@.session.active_thread_id
    &&& after@.session.active_turn_id == before@.session.active_turn_id
    &&& after@.session.active_turn_cancel == before@.session.active_turn_cancel
    &&& after@.session.active_turn_task == before@.session.active_turn_task
    &&& after@.session.pending_approval == before@.session.pending_approval
    &&& after@.config == before@.config
    &&& after@.telegram == before@.telegram
}

/// In an idle bridge `/cwd` with the number of an entry of the history moves to this entry, and the
/// chat reads where the bridge is and the new history. A number beyond the history is reported and
/// changes nothing.
pub proof fn law_cwd_with_an_index_moves_there<C, J, R>(
    app: &mut App<C, J, R>,
    chat_id: i64,
    command: BotCommand,
    action: Action<C, R>,
    words: &str,
    index: u64,
    number: String,
    snapshot: SessionSnapshot,
    history: String,
)
    requires
        call_ensures(App::<C, J, R>::handle_command, (app, chat_id, command), action),
        call_ensures(
            SharedSessionState::<C, J, R>::snapshot,
            (&final(app).session,),
            snapshot,
        ),
        call_ensures(render_cwd_history, (&snapshot,), history),
        call_ensures(parse_unsigned, (words, usize::MAX as u64), Some(index)),
        call_ensures(decimal_text, (index,), number),
        old(app)@.session.active_turn_cancel is None,
        command@ == BotCommandView::Cwd(Some(words@)),
    ensures
        if index < old(app)@.session.cwd_history.len() {
            let cwd = old(app)@.session.cwd_history[index as int];
            &&& has_moved(*old(app), *final(app), cwd)
            &&& action matches Action::Send { chat_id: to, text } && to == chat_id && text@
                == "Switched working directory to:\n"@ + cwd.display + "\n\n"@ + history@
        } else {
            &&& final(app)@ == old(app)@
            &&& action matches Action::Fail(reason) && reason@
                == "No working directory found at history index "@ + number@ + "."@
        },
{
}

/// The index under which a directory is listed, written as a number, chooses this directory.
pub proof fn law_a_listed_index_is_a_number(index: usize, number: String, words: &str, read: Option<u64>)
    requires
        call_ensures(decimal_text, (index as u64,), number),
        call_ensures(parse_unsigned, (words, usize::MAX as u64), read),
        words@ == number@,
    ensures
        read == Some(index as u64),
{
    text::law_numeral_is_read_back(index as nat, usize::MAX as nat);
}

/// A move leaves the session as setting its working directory does, by an index as by a path.
pub proof fn law_a_move_is_remembered<C, J, R>(
    app: &mut App<C, J, R>,
    chat_id: i64,
    cwd: WorkDir,
    action: Action<C, R>,
    other: &mut App<C, J, R>,
    command: BotCommand,
    chosen: Action<C, R>,
    words: &str,
    index: u64,
    session: &mut SharedSessionState<C, J, R>,
)
    requires
        call_ensures(App::<C, J, R>::cwd_probed, (app, chat_id, cwd, true), action),
        call_ensures(App::<C, J, R>::handle_command, (other, chat_id, command), chosen),
        call_ensures(SharedSessionState::<C, J, R>::set_active_cwd, (session, cwd), ()),
        old(app)@ == old(other)@,
        old(session)@ == old(app)@.session,
        old(app)@.session.active_turn_cancel is None,
        call_ensures(parse_unsigned, (words, usize::MAX as u64), Some(index)),
        command@ == BotCommandView::Cwd(Some(words@)),
        index < old(app)@.session.cwd_history.len(),
        cwd@ == old(app)@.session.cwd_history[index as int],
    ensures
        final(app)@.session == final(session)@,
        final(app)@ == final(other)@,
        action@ == chosen@,
{
}

/// A move by a path leaves the session as setting its working directory does.
pub proof fn law_a_move_by_path_is_remembered<C, J, R>(
    app: &mut App<C, J, R>,
    chat_id: i64,
    cwd: WorkDir,
    action: Action<C, R>,
    session: &mut SharedSessionState<C, J, R>,
)
    requires
        call_ensures(App::<C, J, R>::cwd_probed, (app, chat_id, cwd, true), action),
        call_ensures(SharedSessionState::<C, J, R>::set_active_cwd, (session, cwd), ()),
        old(session)@ == old(app)@.session,
    ensures
        final(app)@.session == final(session)@,
{
}

/// In an idle bridge `/cwd` with anything that is no number looks for the path that it names from
/// the directory in which the bridge works, and changes nothing before it is found.
pub proof fn law_cwd_with_a_path_is_read_from_the_active_directory<C, J, R>(
    app: &mut App<C, J, R>,
    chat_id: i64,
    command: BotCommand,
    action: Action<C, R>,
    input: Seq<char>,
    i: int,
)
    requires
        call_ensures(App::<C, J, R>::handle_command, (app, chat_id, command), action),
        old(app)@.session.active_turn_cancel is None,
        command@ == BotCommandView::Cwd(Some(input)),
        0 <= i < input.len(),
        !('0' <= input[i] <= '9'),
        i > 0 || input[i] != '+',
    ensures
        final(app)@ == old(app)@,
        action matches Action::ProbeCwd { chat_id: to, base, input: given } && {
            &&& to == chat_id
            &&& given@ == input
            &&& match old(app)@.session.active_cwd {
                Some(cwd) => base@ == cwd,
                None => base@ == old(app)@.config.codex_cwd,
            }
        },
{
    text::lemma_no_number(input, i, usize::MAX as nat);
}

/// Whatever `/cwd` is given that is not read as a number, too large numerals among it, is looked for
/// as a path from the directory in which the bridge works.
pub proof fn law_what_is_no_index_is_a_path<C, J, R>(
    app: &mut App<C, J, R>,
    chat_id: i64,
    command: BotCommand,
    action: Action<C, R>,
    words: &str,
)
    requires
        call_ensures(App::<C, J, R>::handle_command, (app, chat_id, command), action),
        call_ensures(parse_unsigned, (words, usize::MAX as u64), None::<u64>),
        old(app)@.session.active_turn_cancel is None,
        command@ == BotCommandView::Cwd(Some(words@)),
    ensures
        final(app)@ == old(app)@,
        action matches Action::ProbeCwd { chat_id: to, base, input } && {
            &&& to == chat_id
            &&& input@ == words@
            &&& match old(app)@.session.active_cwd {
                Some(cwd) => base@ == cwd,
                None => base@ == old(app)@.config.codex_cwd,
            }
        },
{
}

/// After a move to a directory, the next path is read from this directory.
pub proof fn law_paths_are_read_from_where_the_bridge_moved<C, J, R>(
    app: &mut App<C, J, R>,
    chat_id: i64,
    cwd: WorkDir,
    moved: Action<C, R>,
    later: &mut App<C, J, R>,
    command: BotCommand,
    action: Action<C, R>,
    input: Seq<char>,
    i: int,
)
    requires
        call_ensures(App::<C, J, R>::cwd_probed, (app, chat_id, cwd, true), moved),
        *old(later) == *final(app),
        call_ensures(App::<C, J, R>::handle_command, (later, chat_id, command), action),
        old(app)@.session.active_turn_cancel is None,
        command@ == BotCommandView::Cwd(Some(input)),
        0 <= i < input.len(),
        !('0' <= input[i] <= '9'),
        i > 0 || input[i] != '+',
    ensures
        action matches Action::ProbeCwd { base, .. } && base@ == cwd@,
{
    text::lemma_no_number(input, i, usize::MAX as nat);
}

/// A path that was looked for and is a directory is moved to; one that is none is reported and
/// changes nothing.
pub proof fn law_a_directory_that_exists_is_moved_to<C, J, R>(
    app: &mut App<C, J, R>,
    chat_id: i64,
    cwd: WorkDir,
    is_dir: bool,
    action: Action<C, R>,
    snapshot: SessionSnapshot,
    history: String,
)
    requires
        call_ensures(App::<C, J, R>::cwd_probed, (app, chat_id, cwd, is_dir), action),
        call_ensures(
            SharedSessionState::<C, J, R>::snapshot,
            (&final(app).session,),
            snapshot,
        ),
        call_ensures(render_cwd_history, (&snapshot,), history),
    ensures
        if is_dir {
            &&& has_moved(*old(app), *final(app), cwd@)
            &&& action matches Action::Send { chat_id: to, text } && to == chat_id && text@
                == "Switched working directory to:\n"@ + cwd@.display + "\n\n"@ + history@
        } else {
            &&& final(app)@ == old(app)@
            &&& action matches Action::Fail(reason) && reason@
                == "Working directory does not exist or is not a directory:\n"@ + cwd@.display
        },
{
}

/// A new bridge works in the configured directory with the configured settings, knows where Codex has
/// worked, knows no thread and no turn, and is refused only for a token that is blank.
pub proof fn law_a_new_bridge_is_as_configured<C, J, R>(
    config: Config,
    history: Vec<WorkDir>,
    app: Result<App<C, J, R>, EmptyToken>,
    cwd: WorkDir,
    session: SharedSessionState<C, J, R>,
)
    requires
        call_ensures(App::<C, J, R>::new, (config, history), app),
        call_ensures(
            SharedSessionState::<C, J, R>::new_with_history,
            (cwd, history),
            session,
        ),
        cwd@ == config@.codex_cwd,
    ensures
        app is Err <==> forall|i: int|
            0 <= i < config@.telegram_bot_token.len() ==> text::is_white(
                #[trigger] config@.telegram_bot_token[i],
            ),
        app matches Ok(app) ==> {
            &&& app@.config == config@
            &&& app@.telegram == "https://api.telegram.org/bot"@ + config@.telegram_bot_token
            &&& app@.codex.binary == config@.codex_binary
            &&& app@.codex.cwd == config@.codex_cwd
            &&& app@.codex.model == config@.codex_model
            &&& app@.codex.approval_policy == config@.codex_approval_policy
            &&& app@.codex.sandbox_mode == config@.codex_sandbox_mode
            &&& app@.session == session@
            &&& app@.session.active_cwd == Some(config@.codex_cwd)
            &&& app@.session.cwd_history.len() > 0
            &&& app@.session.cwd_history[0] == config@.codex_cwd
            &&& app@.session.active_thread_id is None
            &&& app@.session.active_turn_id is None
            &&& app@.session.active_turn_cancel is None
            &&& app@.session.active_turn_task is None
            &&& app@.session.pending_approval is None
        },
{
    let token = config@.telegram_bot_token;
    if forall|i: int| 0 <= i < token.len() ==> text::is_white(#[trigger] token[i]) {
        text::lemma_white_is_trimmed_away(token);
    } else {
        let i = choose|i: int| 0 <= i < token.len() && !text::is_white(#[trigger] token[i]);
        text::lemma_words_are_not_trimmed_away(token, i);
    }
}

/// The chat reads that an answer was delivered where it was, and that it came too late where it
/// did.
pub proof fn law_late_answers_are_told(
    was_delivered: bool,
    delivered: String,
    expired: String,
    text: String,
)
    requires
        call_ensures(answer_text, (was_delivered, delivered, expired), text),
    ensures
        was_delivered ==> text@ == delivered@,
        !was_delivered ==> text@ == expired@,
{
}

/// Whether the bridge is as it was but for the session.
pub open spec fn same_but_session<C, J, R>(before: App<C, J, R>, after: App<C, J, R>) -> bool {
    &&& after@.config == before@.config
    &&& after@.telegram == before@.telegram
    &&& after@.codex == before@.codex
    &&& after@.session.active_turn_cancel == before@.session.active_turn_cancel
    &&& after@.session.active_turn_task == before@.session.active_turn_task
    &&& after@.session.active_cwd == before@.session.active_cwd
    &&& after@.session.cwd_history == before@.session.cwd_history
}

/// What the assistant has written is what the message of the turn should read; it changes nothing
/// in the session and sends no message.
pub proof fn law_assistant_text_is_shown<C, J, R>(
    app: &mut App<C, J, R>,
    progress: &mut ProgressRenderer,
    event: TurnEvent<R>,
    reply: EventReply<R>,
    text: Seq<char>,
)
    requires
        call_ensures(App::<C, J, R>::handle_turn_event, (app, progress, event), reply),
        event@ == TurnEventView::<R>::AssistantDelta(text),
        !old(progress)@.closed,
    ensures
        final(app)@ == old(app)@,
        final(progress)@.desired == text,
        final(progress)@.rendered == old(progress)@.rendered,
        !final(progress)@.closed,
        final(progress)@.chat_id == old(progress)@.chat_id,
        final(progress)@.message_id == old(progress)@.message_id,
        reply.redraw == (old(progress)@.desired != text),
        reply.message is None,
        reply.resolution is None,
{
}

/// Where nothing is shown yet, the message should read `words` now; else it stays as it is. A text
/// that is final stays in any case.
pub open spec fn shows_where_nothing_is(
    before: ProgressRenderer,
    after: ProgressRenderer,
    words: Seq<char>,
) -> bool {
    &&& after@.desired == (if before@.desired.len() == 0 && before@.rendered.len() == 0
        && !before@.closed {
        words
    } else {
        before@.desired
    })
    &&& after@.rendered == before@.rendered
    &&& after@.closed == before@.closed
    &&& after@.chat_id == before@.chat_id
    &&& after@.message_id == before@.message_id
}

/// A status is shown as long as nothing is, and never covers what is shown.
pub proof fn law_a_status_covers_nothing<C, J, R>(
    app: &mut App<C, J, R>,
    progress: &mut ProgressRenderer,
    event: TurnEvent<R>,
    reply: EventReply<R>,
    text: Seq<char>,
)
    requires
        call_ensures(App::<C, J, R>::handle_turn_event, (app, progress, event), reply),
        event@ == TurnEventView::<R>::Status(text),
    ensures
        final(app)@ == old(app)@,
        shows_where_nothing_is(*old(progress), *final(progress), text),
        reply.redraw == (final(progress)@.desired != old(progress)@.desired),
        reply.message is None,
        reply.resolution is None,
{
}

/// A message whose text is final is not changed by what the assistant writes later.
pub proof fn law_final_words_are_not_changed<C, J, R>(
    app: &mut App<C, J, R>,
    progress: &mut ProgressRenderer,
    event: TurnEvent<R>,
    reply: EventReply<R>,
)
    requires
        call_ensures(App::<C, J, R>::handle_turn_event, (app, progress, event), reply),
        old(progress)@.closed,
    ensures
        final(progress)@ == old(progress)@,
        !reply.redraw,
{
}

/// A thread or a turn that Codex names is remembered; what is shown does not change.
pub proof fn law_named_threads_and_turns_are_remembered<C, J, R>(
    app: &mut App<C, J, R>,
    progress: &mut ProgressRenderer,
    event: TurnEvent<R>,
    reply: EventReply<R>,
)
    requires
        call_ensures(App::<C, J, R>::handle_turn_event, (app, progress, event), reply),
        event is ThreadReady || event is TurnStarted,
    ensures
        same_but_session(*old(app), *final(app)),
        final(app)@.session.pending_approval == old(app)@.session.pending_approval,
        event@ matches TurnEventView::ThreadReady(id) ==> final(app)@.session.active_thread_id
            == Some(id) && final(app)@.session.active_turn_id
            == old(app)@.session.active_turn_id,
        event@ matches TurnEventView::TurnStarted(id) ==> final(app)@.session.active_turn_id
            == Some(id) && final(app)@.session.active_thread_id
            == old(app)@.session.active_thread_id,
        final(progress)@ == old(progress)@,
        !reply.redraw,
        reply.message is None,
        reply.resolution is None,
{
}

/// An approval that Codex asks for is waited for, and its message goes to the chat. The one that
/// was waited for before, if any, is answered with `Cancel`.
pub proof fn law_an_approval_replaces_the_one_before<C, J, R>(
    app: &mut App<C, J, R>,
    progress: &mut ProgressRenderer,
    event: TurnEvent<R>,
    reply: EventReply<R>,
)
    requires
        call_ensures(App::<C, J, R>::handle_turn_event, (app, progress, event), reply),
        event is ApprovalRequested,
    ensures
        same_but_session(*old(app), *final(app)),
        final(app)@.session.active_thread_id == old(app)@.session.active_thread_id,
        final(app)@.session.active_turn_id == old(app)@.session.active_turn_id,
        event@ matches TurnEventView::ApprovalRequested(approval) && {
            &&& final(app)@.session.pending_approval == Some(approval)
            &&& reply.message matches Some(message) && message@ == approval.message
        },
        match old(app)@.session.pending_approval {
            Some(before) => reply.resolution matches Some(resolution) && resolution.responder
                == before.responder && resolution.decision == ApprovalDecision::Cancel,
            None => reply.resolution is None,
        },
        shows_where_nothing_is(*old(progress), *final(progress), "Waiting for approval..."@),
        reply.redraw == (final(progress)@.desired != old(progress)@.desired),
{
}

/// A turn that ended well ends with what the assistant wrote; where it wrote nothing, with what is
/// shown; where nothing is shown, with what is known of its end.
pub proof fn law_a_turn_ends_with_the_best_words(
    progress: &mut ProgressRenderer,
    outcome: Result<TurnRunResult, String>,
)
    requires
        call_ensures(conclude_turn, (progress, outcome), ()),
    ensures
        final(progress)@.closed,
        final(progress)@.rendered == old(progress)@.rendered,
        final(progress)@.chat_id == old(progress)@.chat_id,
        final(progress)@.message_id == old(progress)@.message_id,
        match outcome {
            Err(error) => final(progress)@.desired == "Turn failed:\n"@ + error@,
            Ok(result) => final(progress)@.desired == (if result.assistant_text@.len() > 0 {
                result.assistant_text@
            } else if old(progress)@.desired.len() > 0 {
                old(progress)@.desired
            } else if old(progress)@.rendered.len() > 0 {
                old(progress)@.rendered
            } else if result.interrupted {
                "Turn interrupted."@
            } else {
                match result.last_status {
                    Some(status) => status@,
                    None => "Turn completed with no assistant text."@,
                }
            }),
        },
{
}

} // verus!
