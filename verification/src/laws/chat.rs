//! Laws of the Bot API, of polling and of the message that shows the progress of a turn.

use crate::json::JsonView;
use crate::laws::wire;
use crate::polling::{should_exit_after_poll_conflicts, PollReaction, PollState};
use crate::progress::{ProgressRenderer, RenderStep, TELEGRAM_EDIT_THROTTLE_MILLIS};
use crate::telegram;
use crate::telegram::{
    is_success, is_telegram_poll_conflict, read_response, read_response_with, ApiResponse,
    EmptyToken, TelegramClient, TelegramRequest, TelegramUpdate,
};
use crate::text;
use vstd::prelude::*;
use vstd::string::*;

verus! {

/// A client reaches the API by its token, whole as it is given; a token that is blank is refused,
/// and no other.
pub proof fn law_the_api_is_reached_by_token(
    token: String,
    client: Result<TelegramClient, EmptyToken>,
    words: String,
)
    requires
        call_ensures(TelegramClient::new, (token,), client),
        call_ensures(EmptyToken::message, (&EmptyToken,), words),
    ensures
        client is Err <==> forall|i: int|
            0 <= i < token@.len() ==> text::is_white(#[trigger] token@[i]),
        client matches Ok(reached) ==> reached@ == "https://api.telegram.org/bot"@ + token@,
        words@ == "empty Telegram bot token"@,
{
    if forall|i: int| 0 <= i < token@.len() ==> text::is_white(#[trigger] token@[i]) {
        text::lemma_white_is_trimmed_away(token@);
    } else {
        let i = choose|i: int| 0 <= i < token@.len() && !text::is_white(#[trigger] token@[i]);
        text::lemma_words_are_not_trimmed_away(token@, i);
    }
}

/// A copy of a client reaches what the client reaches.
pub proof fn law_a_copied_client_is_the_same(client: &TelegramClient, copy: TelegramClient)
    requires
        call_ensures(TelegramClient::duplicate, (client,), copy),
    ensures
        copy@ == client@,
{
}

/// Whether `value` is the integer `n`.
pub open spec fn is_integer(value: JsonView, n: int) -> bool {
    match value {
        JsonView::Unsigned(m) => m == n,
        JsonView::Negative(m) => m == n && n < 0,
        _ => false,
    }
}

/// Whether `value` is an object that holds the integer `n` under `name`.
pub open spec fn holds_integer(value: JsonView, name: Seq<char>, n: int) -> bool {
    exists|inner: JsonView| #[trigger] wire::holds(value, name, inner) && is_integer(inner, n)
}

/// Updates are asked for from the offset on, where there is one, and with the timeout and the limit
/// that are given.
pub proof fn law_updates_are_asked_for(
    client: &TelegramClient,
    offset: Option<i64>,
    timeout: u64,
    limit: u32,
    request: TelegramRequest,
)
    requires
        call_ensures(TelegramClient::get_updates, (client, offset, timeout, limit), request),
    ensures
        request.method@ == "getUpdates"@,
        request.url@ == client@ + "/getUpdates"@,
        match offset {
            Some(n) => holds_integer(request.body@, "offset"@, n as int),
            None => wire::lacks(request.body@, "offset"@),
        },
        holds_integer(request.body@, "timeout"@, timeout as int),
        holds_integer(request.body@, "limit"@, limit as int),
        wire::holds_only(
            request.body@,
            if offset is Some {
                seq!["offset"@, "timeout"@, "limit"@]
            } else {
                seq!["timeout"@, "limit"@]
            },
        ),
{
    reveal_strlit("offset");
    reveal_strlit("timeout");
    reveal_strlit("limit");
    assert("offset"@.len() == 6 && "timeout"@.len() == 7 && "limit"@.len() == 5);
    reveal_strlit("/");
    reveal_strlit("getUpdates");
    reveal_strlit("/getUpdates");
    assert("/getUpdates"@ =~= "/"@ + "getUpdates"@);
    assert(request.url@ =~= client@ + "/getUpdates"@);
    let members = telegram::get_updates_body(offset, timeout, limit);
    wire::lemma_object(members);
    let body = request.body@;
    if offset is Some {
        assert(wire::holds(body, members[0].0, members[0].1));
        assert(wire::holds(body, members[1].0, members[1].1));
        assert(wire::holds(body, members[2].0, members[2].1));
        assert(Seq::new(members.len(), |i: int| members[i].0) =~= seq![
            "offset"@,
            "timeout"@,
            "limit"@,
        ]);
    } else {
        assert(wire::holds(body, members[0].0, members[0].1));
        assert(wire::holds(body, members[1].0, members[1].1));
        crate::json::lemma_member_missing(members, "offset"@);
        assert(Seq::new(members.len(), |i: int| members[i].0) =~= seq!["timeout"@, "limit"@]);
    }
}

/// A message is sent to the chat that is meant, with the whole text.
pub proof fn law_messages_are_sent_whole(
    client: &TelegramClient,
    chat_id: i64,
    words: &str,
    request: TelegramRequest,
)
    requires
        call_ensures(TelegramClient::send_message, (client, chat_id, words), request),
    ensures
        request.method@ == "sendMessage"@,
        request.url@ == client@ + "/sendMessage"@,
        holds_integer(request.body@, "chat_id"@, chat_id as int),
        wire::holds(request.body@, "text"@, JsonView::Text(words@)),
        wire::holds_only(request.body@, seq!["chat_id"@, "text"@]),
{
    reveal_strlit("chat_id");
    reveal_strlit("text");
    assert("chat_id"@.len() == 7 && "text"@.len() == 4);
    reveal_strlit("/");
    reveal_strlit("sendMessage");
    reveal_strlit("/sendMessage");
    assert("/sendMessage"@ =~= "/"@ + "sendMessage"@);
    assert(request.url@ =~= client@ + "/sendMessage"@);
    let members = telegram::send_message_body(chat_id, words@);
    wire::lemma_object(members);
    assert(wire::holds(request.body@, members[0].0, members[0].1));
    assert(wire::holds(request.body@, members[1].0, members[1].1));
    assert(Seq::new(members.len(), |i: int| members[i].0) =~= seq!["chat_id"@, "text"@]);
}

/// A message is edited in the chat that is meant, by its own id, to the whole text.
pub proof fn law_messages_are_edited_whole(
    client: &TelegramClient,
    chat_id: i64,
    message_id: i64,
    words: &str,
    request: TelegramRequest,
)
    requires
        call_ensures(TelegramClient::edit_message, (client, chat_id, message_id, words), request),
    ensures
        request.method@ == "editMessageText"@,
        request.url@ == client@ + "/editMessageText"@,
        holds_integer(request.body@, "chat_id"@, chat_id as int),
        holds_integer(request.body@, "message_id"@, message_id as int),
        wire::holds(request.body@, "text"@, JsonView::Text(words@)),
        wire::holds_only(request.body@, seq!["chat_id"@, "message_id"@, "text"@]),
{
    reveal_strlit("chat_id");
    reveal_strlit("message_id");
    reveal_strlit("text");
    assert("chat_id"@.len() == 7 && "message_id"@.len() == 10 && "text"@.len() == 4);
    reveal_strlit("/");
    reveal_strlit("editMessageText");
    reveal_strlit("/editMessageText");
    assert("/editMessageText"@ =~= "/"@ + "editMessageText"@);
    assert(request.url@ =~= client@ + "/editMessageText"@);
    let members = telegram::edit_message_body(chat_id, message_id, words@);
    wire::lemma_object(members);
    assert(wire::holds(request.body@, members[0].0, members[0].1));
    assert(wire::holds(request.body@, members[1].0, members[1].1));
    assert(wire::holds(request.body@, members[2].0, members[2].1));
    assert(Seq::new(members.len(), |i: int| members[i].0) =~= seq![
        "chat_id"@,
        "message_id"@,
        "text"@,
    ]);
}

/// An answer counts where HTTP and the API both report success and there is a result, and then is
/// this result. Else it is told why not: in the words of the API, where it has any.
pub proof fn law_answers_count_where_all_is_well<T>(
    method: &str,
    http_success: bool,
    status: &str,
    response: ApiResponse<T>,
    result: Result<T, String>,
)
    requires
        call_ensures(read_response_with::<T>, (method, http_success, status, response), result),
    ensures
        if http_success && response.ok {
            match response.result {
                Some(value) => result matches Ok(given) && given == value,
                None => result matches Err(words) && words@ == "telegram "@ + method@
                    + " returned no result"@,
            }
        } else {
            match response.description {
                Some(described) => result matches Err(words) && words@ == "telegram "@ + method@
                    + " failed: "@ + described@,
                None => result matches Err(words) && words@ == "telegram "@ + method@
                    + " failed: "@ + ("http "@ + status@),
            }
        },
{
}

/// HTTP reports success by the codes from 200 to 299.
pub proof fn law_the_status_code_decides<T>(
    method: &str,
    code: u16,
    status: &str,
    response: ApiResponse<T>,
    success: bool,
    result: Result<T, String>,
    expected: Result<T, String>,
)
    requires
        call_ensures(is_success, (code,), success),
        call_ensures(read_response::<T>, (method, code, response), result),
        call_ensures(read_response_with::<T>, (method, success, status, response), expected),
        status@ == telegram::status_words(code),
    ensures
        success == (200 <= code && code <= 299),
        match expected {
            Ok(value) => result matches Ok(given) && given == value,
            Err(words) => result matches Err(given) && given@ == words@,
        },
{
}

/// An error tells of a conflict where it holds the words for it anywhere, and nowhere else.
pub proof fn law_conflicts_are_told_by_their_words(error: &str, conflict: bool)
    requires
        call_ensures(is_telegram_poll_conflict, (error,), conflict),
    ensures
        conflict == exists|a: Seq<char>, b: Seq<char>|
            error@ == #[trigger] (a + "terminated by other getUpdates request"@ + b),
{
    let part = "terminated by other getUpdates request"@;
    let n = part.len() as int;
    if conflict {
        let at = choose|at: int| text::occurs_at(error@, part, at);
        assert(error@ =~= error@.take(at) + error@.subrange(at, at + n) + error@.skip(at + n));
        assert(error@ == error@.take(at) + part + error@.skip(at + n));
    }
    assert forall|a: Seq<char>, b: Seq<char>| error@ == #[trigger] (a + part + b) implies conflict by {
        assert(error@.subrange(a.len() as int, a.len() + n) =~= part);
        assert(text::occurs_at(error@, part, a.len() as int));
    }
}

/// Polling begins with no offset and no conflicts; an update that was received is not asked for
/// again, and a poll that succeeds forgets the conflicts and keeps the offset.
pub proof fn law_updates_are_asked_for_once(
    fresh: PollState,
    state: &mut PollState,
    update: &TelegramUpdate,
    later: &mut PollState,
    offset: Option<i64>,
    conflicts: u32,
)
    requires
        call_ensures(PollState::new, (), fresh),
        call_ensures(PollState::take_update, (state, update), ()),
        call_ensures(PollState::poll_succeeded, (later,), ()),
        call_ensures(PollState::offset, (&*final(state),), offset),
        call_ensures(PollState::conflicts, (&*final(later),), conflicts),
        update.update_id < i64::MAX,
    ensures
        fresh@.offset is None,
        fresh@.conflicts == 0,
        offset matches Some(n) && n == update.update_id + 1,
        final(state)@.conflicts == old(state)@.conflicts,
        final(later)@.offset == old(later)@.offset,
        conflicts == 0,
        final(later)@.conflicts == 0,
{
}

/// A poll that fails is tried again after two seconds; one that meets another poller waits two
/// seconds longer than that poll can last, and the third in a row gives up.
pub proof fn law_failed_polls_are_tried_again(
    state: &mut PollState,
    error: &str,
    poll_timeout_seconds: u64,
    reaction: PollReaction,
    conflict: bool,
)
    requires
        call_ensures(PollState::poll_failed, (state, error, poll_timeout_seconds), reaction),
        call_ensures(is_telegram_poll_conflict, (error,), conflict),
        conflict && old(state)@.conflicts < 2 ==> poll_timeout_seconds <= u64::MAX - 2,
    ensures
        final(state)@.offset == old(state)@.offset,
        !conflict ==> {
            &&& final(state)@.conflicts == old(state)@.conflicts
            &&& reaction matches PollReaction::Retry { delay_seconds, notice } && delay_seconds == 2
                && notice@ == "telegram polling failed: "@ + error@
        },
        conflict ==> final(state)@.conflicts == old(state)@.conflicts + 1,
        conflict && old(state)@.conflicts < 2 ==> (reaction matches PollReaction::Retry {
            delay_seconds,
            notice,
        } && delay_seconds == poll_timeout_seconds + 2 && notice@
            == "telegram polling conflict: another poller is using the same bot token"@),
        conflict && old(state)@.conflicts >= 2 ==> (reaction matches PollReaction::GiveUp(reason)
            && reason@
            == "telegram polling conflict persisted after 3 attempts; local single-instance lock is active, so another program or machine is using the same bot token via getUpdates. Stop the external poller or rotate TELEGRAM_BOT_TOKEN."@),
{
}

/// Polling is given up from the third conflict on.
pub proof fn law_three_conflicts_are_too_many(consecutive: u32, exit: bool)
    requires
        call_ensures(should_exit_after_poll_conflicts, (consecutive,), exit),
    ensures
        exit <==> consecutive > 2,
{
}

/// The progress of a turn begins with nothing to show, in the message that it is given.
pub proof fn law_progress_begins_with_nothing(
    chat_id: i64,
    message_id: i64,
    progress: ProgressRenderer,
)
    requires
        call_ensures(ProgressRenderer::new, (chat_id, message_id), progress),
    ensures
        progress@.chat_id == chat_id,
        progress@.message_id == message_id,
        progress@.desired.len() == 0,
        progress@.rendered.len() == 0,
        !progress@.closed,
        TELEGRAM_EDIT_THROTTLE_MILLIS == 400,
{
}

/// The latest text is the one to show, until the turn has ended; then the text stays.
pub proof fn law_the_latest_text_is_shown(
    progress: &mut ProgressRenderer,
    words: &str,
    changed: bool,
    counting: String,
)
    requires
        call_ensures(ProgressRenderer::update, (progress, words), changed),
        call_ensures(ProgressRenderer::current_text, (&*final(progress),), counting),
    ensures
        final(progress)@.chat_id == old(progress)@.chat_id,
        final(progress)@.message_id == old(progress)@.message_id,
        final(progress)@.rendered == old(progress)@.rendered,
        final(progress)@.closed == old(progress)@.closed,
        old(progress)@.closed ==> final(progress)@.desired == old(progress)@.desired && !changed,
        !old(progress)@.closed ==> final(progress)@.desired == words@ && (changed <==> words@
            != old(progress)@.desired),
        final(progress)@.desired.len() > 0 ==> counting@ == final(progress)@.desired,
        final(progress)@.desired.len() == 0 ==> counting@ == final(progress)@.rendered,
{
}

/// A turn that has ended shows its last text for good.
pub proof fn law_the_last_text_is_shown_for_good(
    progress: &mut ProgressRenderer,
    last: &str,
    later: &mut ProgressRenderer,
    words: &str,
    changed: bool,
)
    requires
        call_ensures(ProgressRenderer::finish, (progress, last), ()),
        *old(later) == *final(progress),
        call_ensures(ProgressRenderer::update, (later, words), changed),
    ensures
        final(progress)@.closed,
        final(progress)@.desired == last@,
        final(progress)@.rendered == old(progress)@.rendered,
        final(progress)@.chat_id == old(progress)@.chat_id,
        final(progress)@.message_id == old(progress)@.message_id,
        final(later)@ == final(progress)@,
        !changed,
{
}

/// The message is edited, in its chat and by its id, where it does not read the text to show: at
/// once for the first and the last text, and else when enough time has passed.
pub proof fn law_the_message_is_edited_when_due(
    progress: &ProgressRenderer,
    allowed: bool,
    step: RenderStep,
)
    requires
        call_ensures(ProgressRenderer::run, (progress, allowed), step),
    ensures
        progress@.desired == progress@.rendered && progress@.closed ==> step is Finished,
        progress@.desired == progress@.rendered && !progress@.closed ==> step is WaitForChange,
        progress@.desired != progress@.rendered && (allowed || progress@.closed
            || progress@.rendered.len() == 0) ==> (step matches RenderStep::Edit {
            chat_id,
            message_id,
            text,
        } && chat_id == progress@.chat_id && message_id == progress@.message_id && text@
            == progress@.desired),
        progress@.desired != progress@.rendered && !allowed && !progress@.closed
            && progress@.rendered.len() > 0 ==> step is WaitForTime,
{
}

/// An edit that was made is remembered, and settles the message where it showed the last text.
pub proof fn law_edits_are_remembered(
    progress: &mut ProgressRenderer,
    words: String,
    settled: bool,
)
    requires
        call_ensures(ProgressRenderer::record_edit, (progress, words), settled),
    ensures
        final(progress)@.rendered == words@,
        final(progress)@.desired == old(progress)@.desired,
        final(progress)@.closed == old(progress)@.closed,
        final(progress)@.chat_id == old(progress)@.chat_id,
        final(progress)@.message_id == old(progress)@.message_id,
        settled <==> old(progress)@.closed && old(progress)@.desired == words@,
{
}

} // verus!
