//! Laws of the turn that runs: what each message of the app-server does to it, and what the chat is
//! told.

use crate::codex;
use crate::codex::{
    decision_answer, decision_or_cancel, handle_server_request, status_of_decision, ApprovalKind,
    ServerReaction, StderrLog, TurnEvent, TurnEventView, TurnRunResult, TurnState, TurnStep, TurnView,
};
use crate::json;
use crate::json::{Json, JsonView};
use crate::laws::wire;
use crate::laws::words::is_blank;
use crate::rpc::{format_rpc_error, Incoming, RpcError, RpcMessage};
use crate::session::ApprovalDecision;
use crate::text;
use vstd::prelude::*;
use vstd::string::*;

verus! {

/// The turn is the same but for the assistant text and the last status.
pub open spec fn same_but_words(before: TurnView, after: TurnView) -> bool {
    &&& after.thread_id == before.thread_id
    &&& after.request_id == before.request_id
    &&& after.interrupted == before.interrupted
    &&& after.turn_started == before.turn_started
    &&& after.stop_requested == before.stop_requested
    &&& after.interrupt_sent == before.interrupt_sent
    &&& after.done == before.done
}

/// Whether `value` holds the text `words` under `outer` and `inner`.
pub open spec fn says_at(
    value: JsonView,
    outer: Seq<char>,
    inner: Seq<char>,
    words: Seq<char>,
) -> bool {
    exists|held: JsonView| #[trigger]
        wire::holds(value, outer, held) && wire::holds(held, inner, JsonView::Text(words))
}

/// An agent message that is completed is the assistant text from then on, whatever the text was
/// before, and the chat is told this text.
pub proof fn law_a_completed_message_is_the_text<R>(
    turn: &mut TurnState,
    method: &str,
    params: &Json,
    event: Option<TurnEvent<R>>,
    item: JsonView,
    words: Seq<char>,
)
    requires
        call_ensures(TurnState::handle_notification::<R>, (turn, method, params), event),
        method@ == "item/completed"@,
        wire::holds(params@, "item"@, item),
        wire::holds(item, "type"@, JsonView::Text("agentMessage"@)),
        wire::holds(item, "text"@, JsonView::Text(words)),
    ensures
        final(turn)@.assistant_text == words,
        final(turn)@.last_status == old(turn)@.last_status,
        same_but_words(old(turn)@, final(turn)@),
        event matches Some(TurnEvent::AssistantDelta(shown)) && shown@ == words,
{
    lemma_methods_differ();
}

/// What was written before does not matter: two turns that are told of the same completed message
/// have the same assistant text, and the chat is told the same.
pub proof fn law_a_completed_message_forgets_the_text_before<R>(
    turn: &mut TurnState,
    other: &mut TurnState,
    method: &str,
    params: &Json,
    event: Option<TurnEvent<R>>,
    other_event: Option<TurnEvent<R>>,
    item: JsonView,
    words: Seq<char>,
)
    requires
        call_ensures(TurnState::handle_notification::<R>, (turn, method, params), event),
        call_ensures(TurnState::handle_notification::<R>, (other, method, params), other_event),
        method@ == "item/completed"@,
        wire::holds(params@, "item"@, item),
        wire::holds(item, "type"@, JsonView::Text("agentMessage"@)),
        wire::holds(item, "text"@, JsonView::Text(words)),
    ensures
        final(turn)@.assistant_text == final(other)@.assistant_text,
        event is Some,
        other_event is Some,
        event->0@ == other_event->0@,
{
    lemma_methods_differ();
}

/// A piece of an agent message comes behind the assistant text so far, and the chat is told the
/// whole text.
pub proof fn law_a_piece_is_added_to_the_text<R>(
    turn: &mut TurnState,
    method: &str,
    params: &Json,
    event: Option<TurnEvent<R>>,
    delta: Seq<char>,
)
    requires
        call_ensures(TurnState::handle_notification::<R>, (turn, method, params), event),
        method@ == "item/agentMessage/delta"@,
        wire::holds(params@, "delta"@, JsonView::Text(delta)),
    ensures
        final(turn)@.assistant_text == old(turn)@.assistant_text + delta,
        final(turn)@.last_status == old(turn)@.last_status,
        same_but_words(old(turn)@, final(turn)@),
        event matches Some(TurnEvent::AssistantDelta(shown)) && shown@ == old(
            turn,
        )@.assistant_text + delta,
{
    lemma_methods_differ();
}

/// A command that was executed is the last status: the command and how it ended, as far as they are
/// told. The chat is told this status, and the assistant text stays.
pub proof fn law_an_executed_command_is_the_status<R>(
    turn: &mut TurnState,
    method: &str,
    params: &Json,
    event: Option<TurnEvent<R>>,
    item: JsonView,
    command: Seq<char>,
    status: Seq<char>,
)
    requires
        call_ensures(TurnState::handle_notification::<R>, (turn, method, params), event),
        method@ == "item/completed"@,
        wire::holds(params@, "item"@, item),
        wire::holds(item, "type"@, JsonView::Text("commandExecution"@)),
        wire::holds(item, "command"@, JsonView::Text(command)) || (command == "command"@ && forall|
            words: Seq<char>,
        |
            !#[trigger] wire::holds(item, "command"@, JsonView::Text(words))),
        wire::holds(item, "status"@, JsonView::Text(status)) || (status == "completed"@ && forall|
            words: Seq<char>,
        |
            !#[trigger] wire::holds(item, "status"@, JsonView::Text(words))),
    ensures
        final(turn)@.assistant_text == old(turn)@.assistant_text,
        final(turn)@.last_status == Some(command + ": "@ + status),
        same_but_words(old(turn)@, final(turn)@),
        event matches Some(TurnEvent::Status(shown)) && shown@ == command + ": "@ + status,
{
    lemma_methods_differ();
    reveal_strlit("agentMessage");
    reveal_strlit("commandExecution");
    assert("agentMessage"@.len() == 12 && "commandExecution"@.len() == 16);
    match json::text_member(item, "command"@) {
        Some(words) => {
            assert(wire::holds(item, "command"@, JsonView::Text(words)));
        },
        None => {},
    }
    match json::text_member(item, "status"@) {
        Some(words) => {
            assert(wire::holds(item, "status"@, JsonView::Text(words)));
        },
        None => {},
    }
}

/// An event as mathematics holds the text that it holds.
pub proof fn law_an_event_is_what_it_holds<R>(event: TurnEvent<R>)
    ensures
        match event {
            TurnEvent::ThreadReady(id) => event@ == TurnEventView::<R>::ThreadReady(id@),
            TurnEvent::TurnStarted(id) => event@ == TurnEventView::<R>::TurnStarted(id@),
            TurnEvent::AssistantDelta(words) => event@ == TurnEventView::<R>::AssistantDelta(
                words@,
            ),
            TurnEvent::Status(words) => event@ == TurnEventView::<R>::Status(words@),
            TurnEvent::ApprovalRequested(approval) => event@ matches TurnEventView::ApprovalRequested(
                asked,
            ) && asked.message == approval.message@ && asked.responder == approval.responder
                && asked.allow_accept_for_session == approval.allow_accept_for_session,
        },
{
}

/// The id of a turn that has started is remembered, and the chat is told it; the id of a thread
/// is told to the chat and changes nothing in the turn.
pub proof fn law_ids_are_told<R>(
    turn: &mut TurnState,
    method: &str,
    params: &Json,
    event: Option<TurnEvent<R>>,
    id: Seq<char>,
)
    requires
        call_ensures(TurnState::handle_notification::<R>, (turn, method, params), event),
    ensures
        method@ == "turn/started"@ && says_at(params@, "turn"@, "id"@, id) ==> {
            &&& final(turn)@ == (TurnView { turn_started: Some(id), ..old(turn)@ })
            &&& event matches Some(TurnEvent::TurnStarted(shown)) && shown@ == id
        },
        method@ == "thread/started"@ && says_at(params@, "thread"@, "id"@, id) ==> {
            &&& final(turn)@ == old(turn)@
            &&& event matches Some(TurnEvent::ThreadReady(shown)) && shown@ == id
        },
{
    lemma_methods_differ();
}

/// A turn that is completed is done; it counts as interrupted where Codex says so or where it did
/// before. The chat is told nothing, and nothing else changes.
pub proof fn law_a_completed_turn_is_done<R>(
    turn: &mut TurnState,
    method: &str,
    params: &Json,
    event: Option<TurnEvent<R>>,
)
    requires
        call_ensures(TurnState::handle_notification::<R>, (turn, method, params), event),
        method@ == "turn/completed"@,
    ensures
        final(turn)@.done,
        final(turn)@.interrupted == (old(turn)@.interrupted || says_at(
            params@,
            "turn"@,
            "status"@,
            "interrupted"@,
        )),
        final(turn)@.assistant_text == old(turn)@.assistant_text,
        final(turn)@.last_status == old(turn)@.last_status,
        final(turn)@.turn_started == old(turn)@.turn_started,
        final(turn)@.thread_id == old(turn)@.thread_id,
        final(turn)@.request_id == old(turn)@.request_id,
        final(turn)@.stop_requested == old(turn)@.stop_requested,
        final(turn)@.interrupt_sent == old(turn)@.interrupt_sent,
        event is None,
{
    lemma_methods_differ();
    match json::member(params@, "turn"@) {
        Some(held) => {
            assert(wire::holds(params@, "turn"@, held));
        },
        None => {},
    }
}

/// A notification that does not bring what its method promises, or of any other method, changes
/// nothing, and the chat is told nothing.
pub proof fn law_other_notifications_are_passed_over<R>(
    turn: &mut TurnState,
    method: &str,
    params: &Json,
    event: Option<TurnEvent<R>>,
)
    requires
        call_ensures(TurnState::handle_notification::<R>, (turn, method, params), event),
        method@ != "turn/completed"@,
        method@ == "thread/started"@ ==> forall|id: Seq<char>|
            !#[trigger] says_at(params@, "thread"@, "id"@, id),
        method@ == "turn/started"@ ==> forall|id: Seq<char>|
            !#[trigger] says_at(params@, "turn"@, "id"@, id),
        method@ == "item/agentMessage/delta"@ ==> forall|delta: Seq<char>|
            !#[trigger] wire::holds(params@, "delta"@, JsonView::Text(delta)),
        method@ == "item/completed"@ ==> !says_at(params@, "item"@, "type"@, "commandExecution"@)
            && (!says_at(params@, "item"@, "type"@, "agentMessage"@) || forall|words: Seq<char>|
            !#[trigger] says_at(params@, "item"@, "text"@, words)),
    ensures
        final(turn)@ == old(turn)@,
        event is None,
{
    lemma_methods_differ();
    lemma_says(params@, "thread"@, "id"@);
    lemma_says(params@, "turn"@, "id"@);
    lemma_says(params@, "item"@, "type"@);
    lemma_says(params@, "item"@, "text"@);
    match json::text_member(params@, "delta"@) {
        Some(delta) => {
            assert(wire::holds(params@, "delta"@, JsonView::Text(delta)));
        },
        None => {},
    }
}

/// Where a value holds text under two names.
pub proof fn lemma_says(value: JsonView, outer: Seq<char>, inner: Seq<char>)
    ensures
        json::text_at(value, outer, inner) matches Some(words) ==> says_at(
            value,
            outer,
            inner,
            words,
        ),
        forall|words: Seq<char>| #[trigger]
            says_at(value, outer, inner, words) ==> json::text_at(value, outer, inner) == Some(
                words,
            ),
{
    match json::member(value, outer) {
        Some(held) => {
            assert(wire::holds(value, outer, held));
        },
        None => {},
    }
}

proof fn lemma_methods_differ()
    ensures
        "thread/started"@.len() == 14,
        "turn/started"@.len() == 12,
        "item/completed"@.len() == 14,
        "turn/completed"@.len() == 14,
        "item/agentMessage/delta"@.len() == 23,
        "thread/started"@ != "item/completed"@,
        "thread/started"@ != "turn/completed"@,
        "item/completed"@ != "turn/completed"@,
{
    reveal_strlit("thread/started");
    reveal_strlit("turn/started");
    reveal_strlit("item/agentMessage/delta");
    reveal_strlit("item/completed");
    reveal_strlit("turn/completed");
    assert("thread/started"@[1] == 'h' && "item/completed"@[1] == 't' && "turn/completed"@[1]
        == 'u');
}

/// A notification that comes from the app-server is taken in as such.
pub proof fn law_notifications_are_taken_in<R>(
    turn: &mut TurnState,
    next: Incoming,
    step: TurnStep<R>,
    same: &mut TurnState,
    method: &str,
    params: &Json,
    event: Option<TurnEvent<R>>,
)
    requires
        call_ensures(TurnState::advance::<R>, (turn, next), step),
        call_ensures(TurnState::handle_notification::<R>, (same, method, params), event),
        old(turn)@ == old(same)@,
        next matches Incoming::Message(RpcMessage::Notification { method: name, params: given })
            && name@ == method@ && given@ == params@,
    ensures
        final(turn)@ == final(same)@,
        match event {
            Some(told) => step matches TurnStep::Go(Some(shown)) && shown@ == told@,
            None => step matches TurnStep::Go(None),
        },
{
}

/// A request of the app-server is dealt with under its own id and changes nothing in the turn.
pub proof fn law_requests_are_dealt_with<R>(
    turn: &mut TurnState,
    next: Incoming,
    step: TurnStep<R>,
    id: u64,
    method: &str,
    params: &Json,
    reaction: ServerReaction,
)
    requires
        call_ensures(TurnState::advance::<R>, (turn, next), step),
        call_ensures(handle_server_request, (method, params), reaction),
        next matches Incoming::Message(
            RpcMessage::ServerRequest { id: asked, method: name, params: given },
        ) && asked == id && name@ == method@ && given@ == params@,
    ensures
        final(turn)@ == old(turn)@,
        step matches TurnStep::React { id: answered, reaction: chosen } && answered == id && chosen@
            == reaction@,
{
}

/// The response to the request that started the turn names the turn, or fails it with its error;
/// a response to another request is passed over.
pub proof fn law_the_response_names_the_turn<R>(
    turn: &mut TurnState,
    next: Incoming,
    step: TurnStep<R>,
    failure: &RpcError,
    words: String,
    turn_id: Seq<char>,
)
    requires
        call_ensures(TurnState::advance::<R>, (turn, next), step),
        call_ensures(format_rpc_error, (failure,), words),
        next matches Incoming::Message(RpcMessage::Response { .. }),
    ensures
        next matches Incoming::Message(RpcMessage::Response { id, result, error }) && {
            &&& id != old(turn)@.request_id ==> final(turn)@ == old(turn)@ && (
            step matches TurnStep::Go(None))
            &&& id == old(turn)@.request_id && (error matches Some(e) && e@ == failure@)
                ==> final(turn)@ == old(turn)@ && (step matches TurnStep::Failed(reason) && reason@
                == words@)
            &&& id == old(turn)@.request_id && error is None && (result matches Some(value)
                && says_at(value@, "turn"@, "id"@, turn_id)) ==> final(turn)@ == (TurnView {
                turn_started: Some(turn_id),
                ..old(turn)@
            }) && (step matches TurnStep::Go(Some(TurnEvent::TurnStarted(shown))) && shown@
                == turn_id)
            &&& id == old(turn)@.request_id && error is None && (result is None || forall|
                name: Seq<char>,
            |
                !#[trigger] says_at(result->0@, "turn"@, "id"@, name)) ==> final(turn)@ == old(
                turn,
            )@ && (step matches TurnStep::Go(None))
        },
{
    match next {
        Incoming::Message(RpcMessage::Response { id, result: Some(value), error }) => {
            lemma_says(value@, "turn"@, "id"@);
        },
        _ => {},
    }
}

/// A line that is no message changes nothing; the end of the output is the end of the turn; a
/// message that cannot be decoded fails it.
pub proof fn law_other_lines_keep_the_turn<R>(
    turn: &mut TurnState,
    next: Incoming,
    step: TurnStep<R>,
)
    requires
        call_ensures(TurnState::advance::<R>, (turn, next), step),
        !(next is Message),
    ensures
        final(turn)@ == old(turn)@,
        next is Noise ==> (step matches TurnStep::Go(None)),
        next is Closed ==> step is Over,
        next is Malformed ==> step is Malformed,
{
}

/// A turn that is asked to stop counts as interrupted, and nothing else changes.
pub proof fn law_a_stopped_turn_is_interrupted(turn: &mut TurnState)
    requires
        call_ensures(TurnState::request_stop, (turn,), ()),
    ensures
        final(turn)@.stop_requested,
        final(turn)@.interrupted,
        final(turn)@.thread_id == old(turn)@.thread_id,
        final(turn)@.request_id == old(turn)@.request_id,
        final(turn)@.assistant_text == old(turn)@.assistant_text,
        final(turn)@.turn_started == old(turn)@.turn_started,
        final(turn)@.interrupt_sent == old(turn)@.interrupt_sent,
        final(turn)@.done == old(turn)@.done,
        final(turn)@.last_status == old(turn)@.last_status,
{
}

/// What a turn has come to is what it holds.
pub proof fn law_a_turn_comes_to_what_it_holds(
    turn: TurnState,
    result: TurnRunResult,
    done: bool,
    stopping: bool,
    words: &str,
)
    requires
        call_ensures(TurnState::finish, (turn,), result),
        call_ensures(TurnState::is_done, (&turn,), done),
        call_ensures(TurnState::stop_requested, (&turn,), stopping),
        call_ensures(TurnState::assistant_text, (&turn,), words),
    ensures
        result.assistant_text@ == turn@.assistant_text,
        result.interrupted == turn@.interrupted,
        match turn@.last_status {
            Some(status) => result.last_status matches Some(given) && given@ == status,
            None => result.last_status is None,
        },
        done == turn@.done,
        stopping == turn@.stop_requested,
        words@ == turn@.assistant_text,
{
}

/// Whether an approval for the session is among the decisions that are offered.
pub open spec fn session_is_offered(params: JsonView) -> bool {
    exists|offered: Seq<JsonView>, i: int|
        #![trigger wire::holds(params, "availableDecisions"@, JsonView::Array(offered)), offered[i]]
        wire::holds(params, "availableDecisions"@, JsonView::Array(offered)) && 0 <= i
            < offered.len() && offered[i] == JsonView::Text("acceptForSession"@)
}

/// A request to approve a command or a file change asks the chat, by the command where it is told;
/// an approval for the session can be given where it is offered.
pub proof fn law_approvals_are_asked_of_the_chat(
    method: &str,
    params: &Json,
    reaction: ServerReaction,
    command: Seq<char>,
)
    requires
        call_ensures(handle_server_request, (method, params), reaction),
    ensures
        method@ == "item/commandExecution/requestApproval"@ ==> (
        reaction matches ServerReaction::AskApproval { kind, message, allow_accept_for_session }
            && {
            &&& kind == ApprovalKind::CommandExecution
            &&& wire::holds(params@, "command"@, JsonView::Text(command)) ==> message@
                == "Codex approval required: command execution"@ + "\ncommand: "@ + command
            &&& (forall|words: Seq<char>|
                !#[trigger] wire::holds(params@, "command"@, JsonView::Text(words))) ==> message@
                == "Codex approval required: command execution"@
            &&& allow_accept_for_session == session_is_offered(params@)
        }),
        method@ == "item/fileChange/requestApproval"@ ==> (
        reaction matches ServerReaction::AskApproval { kind, message, allow_accept_for_session }
            && {
            &&& kind == ApprovalKind::FileChange
            &&& message@ == "Codex approval required: file change"@
            &&& allow_accept_for_session == session_is_offered(params@)
        }),
{
    reveal_strlit("item/commandExecution/requestApproval");
    reveal_strlit("item/fileChange/requestApproval");
    assert("item/commandExecution/requestApproval"@.len() == 37);
    assert("item/fileChange/requestApproval"@.len() == 31);
    match json::text_member(params@, "command"@) {
        Some(words) => {
            assert(wire::holds(params@, "command"@, JsonView::Text(words)));
        },
        None => {},
    }
    match json::member(params@, "availableDecisions"@) {
        Some(JsonView::Array(offered)) => {
            assert(wire::holds(params@, "availableDecisions"@, JsonView::Array(offered)));
            if codex::offers_session(params@) {
                let i = offered.index_of(JsonView::Text("acceptForSession"@));
                assert(offered[i] == JsonView::Text("acceptForSession"@));
            }
        },
        _ => {},
    }
}

/// A request for the input of the user is answered with no answers, and the chat is told so; every
/// other request is declined.
pub proof fn law_other_requests_are_refused(
    method: &str,
    params: &Json,
    reaction: ServerReaction,
)
    requires
        call_ensures(handle_server_request, (method, params), reaction),
        method@ != "item/commandExecution/requestApproval"@,
        method@ != "item/fileChange/requestApproval"@,
    ensures
        if method@ == "item/tool/requestUserInput"@ {
            reaction matches ServerReaction::Answer { result, status } && {
                &&& wire::holds(result@, "answers"@, JsonView::Object(Map::empty()))
                &&& wire::holds_only(result@, seq!["answers"@])
                &&& status@ == "Codex requested extra user input; this MVP does not support it."@
            }
        } else {
            reaction matches ServerReaction::Decline { result, otherwise } && {
                &&& wire::holds(result@, "decision"@, JsonView::Text("decline"@))
                &&& wire::holds_only(result@, seq!["decision"@])
                &&& otherwise@ == JsonView::Object(Map::empty())
            }
        },
{
    wire::lemma_one_member("answers"@, JsonView::Object(Map::empty()));
    wire::lemma_one_member("decision"@, JsonView::Text("decline"@));
}

/// Each decision is told to the app-server by its own name.
pub proof fn law_decisions_are_told_by_name(decision: ApprovalDecision, result: Json)
    requires
        call_ensures(decision_answer, (decision,), result),
    ensures
        wire::holds_only(result@, seq!["decision"@]),
        decision == ApprovalDecision::Accept ==> wire::holds(
            result@,
            "decision"@,
            JsonView::Text("accept"@),
        ),
        decision == ApprovalDecision::AcceptForSession ==> wire::holds(
            result@,
            "decision"@,
            JsonView::Text("acceptForSession"@),
        ),
        decision == ApprovalDecision::Decline ==> wire::holds(
            result@,
            "decision"@,
            JsonView::Text("decline"@),
        ),
        decision == ApprovalDecision::Cancel ==> wire::holds(
            result@,
            "decision"@,
            JsonView::Text("cancel"@),
        ),
{
    wire::lemma_one_member("decision"@, JsonView::Text(codex::decision_name(decision)));
}

/// An asker that gets no answer is told `Cancel`, one that gets an answer is told it. The chat reads
/// a word on a refusal alone.
pub proof fn law_silence_is_a_cancellation(
    answer: Option<ApprovalDecision>,
    decision: ApprovalDecision,
    kind: ApprovalKind,
    status: Option<String>,
)
    requires
        call_ensures(decision_or_cancel, (answer,), decision),
        call_ensures(status_of_decision, (kind, decision), status),
    ensures
        answer matches Some(given) ==> decision == given,
        answer is None ==> decision == ApprovalDecision::Cancel,
        if decision == ApprovalDecision::Decline {
            status matches Some(words) && words@ == (if kind == ApprovalKind::CommandExecution {
                "Codex requested command approval and it was declined."@
            } else {
                "Codex requested file-change approval and it was declined."@
            })
        } else {
            status is None
        },
{
}

/// The lines that the app-server writes to its standard error are kept in their order.
pub proof fn law_error_lines_are_kept(log: &mut StderrLog, fresh: StderrLog, line: &str)
    requires
        call_ensures(StderrLog::new, (), fresh),
        call_ensures(StderrLog::push_line, (log, line), ()),
    ensures
        fresh@.len() == 0,
        old(log)@.len() == 0 ==> final(log)@ == line@,
        old(log)@.len() > 0 ==> final(log)@ == old(log)@ + seq!['\n'] + line@,
{
    reveal_strlit("\n");
    assert("\n"@ =~= seq!['\n']);
}

/// What was written to the standard error is reported without the white space around it; white space
/// alone is not reported.
pub proof fn law_error_lines_are_reported(
    log: &StderrLog,
    report: Option<String>,
    before: Seq<char>,
    written: Seq<char>,
    after: Seq<char>,
)
    requires
        call_ensures(StderrLog::report, (log,), report),
        log@ == before + written + after,
        is_blank(before),
        is_blank(after),
        written.len() > 0 ==> !text::is_white(written.first()) && !text::is_white(written.last()),
    ensures
        if written.len() > 0 {
            report matches Some(words) && words@ == "codex stderr:\n"@ + written
        } else {
            report is None
        },
{
    if written.len() > 0 {
        text::lemma_trimmed_of_parts(before, written, after);
    } else {
        assert forall|i: int| 0 <= i < log@.len() implies text::is_white(#[trigger] log@[i]) by {
            if i < before.len() {
                assert(log@[i] == before[i]);
            } else {
                assert(log@[i] == after[i - before.len()]);
            }
        }
        text::lemma_white_is_trimmed_away(log@);
    }
}

} // verus!
