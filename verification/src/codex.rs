//! Threads and turns of Codex: what is asked of the app-server, and what its messages mean for
//! the turn that runs.

use crate::json;
use crate::json::{named, optional_text_value, text_value, Json, JsonView};
use crate::rpc;
use crate::rpc::{
    format_rpc_error, AppServerProcess, Incoming, IncomingView, OutgoingRequest,
    RpcMessage, RpcMessageView,
};
use crate::session::{ApprovalDecision, ApprovalView, PendingApproval};
use crate::text;
use crate::text::{copy_text, same_text, trim};
use crate::workdir::{WorkDir, WorkDirView};
use vstd::prelude::*;
use vstd::string::*;

verus! {

/// How Codex is run: the program, and the settings of its threads and turns.
#[derive(Debug, Clone)]
pub struct CodexClient {
    binary: String,
    cwd: WorkDir,
    model: Option<String>,
    approval_policy: String,
    sandbox_mode: Option<String>,
}

/// A client as mathematics.
pub struct ClientView {
    pub binary: Seq<char>,
    pub cwd: WorkDirView,
    pub model: Option<Seq<char>>,
    pub approval_policy: Seq<char>,
    pub sandbox_mode: Option<Seq<char>>,
}

impl View for CodexClient {
    type V = ClientView;

    closed spec fn view(&self) -> ClientView {
        ClientView {
            binary: self.binary@,
            cwd: self.cwd@,
            model: text::text_view(self.model),
            approval_policy: self.approval_policy@,
            sandbox_mode: text::text_view(self.sandbox_mode),
        }
    }
}

/// The parameters of `thread/start`. The sandbox mode is given only where one is configured;
/// Codex has a default of its own.
pub open spec fn thread_start_params(client: ClientView) -> JsonView {
    let settings = seq![
        ("cwd"@, JsonView::Text(client.cwd.display)),
        ("model"@, json::optional_text(client.model)),
        ("approvalPolicy"@, JsonView::Text(client.approval_policy)),
        ("experimentalRawEvents"@, JsonView::Bool(false)),
        ("persistExtendedHistory"@, JsonView::Bool(false)),
    ];
    JsonView::Object(
        json::object_of(
            match client.sandbox_mode {
                Some(mode) => settings.push(("sandbox"@, JsonView::Text(mode))),
                None => settings,
            },
        ),
    )
}

/// The input of a turn: one piece of text.
pub open spec fn turn_input(prompt: Seq<char>) -> JsonView {
    JsonView::Object(
        json::object_of(
            seq![
                ("type"@, JsonView::Text("text"@)),
                ("text"@, JsonView::Text(prompt)),
                ("text_elements"@, JsonView::Array(Seq::empty())),
            ],
        ),
    )
}

/// The parameters of `turn/start`.
pub open spec fn turn_start_params(
    client: ClientView,
    thread_id: Seq<char>,
    prompt: Seq<char>,
) -> JsonView {
    JsonView::Object(
        json::object_of(
            seq![
                ("threadId"@, JsonView::Text(thread_id)),
                ("cwd"@, JsonView::Text(client.cwd.display)),
                ("approvalPolicy"@, JsonView::Text(client.approval_policy)),
                ("model"@, json::optional_text(client.model)),
                ("input"@, JsonView::Array(seq![turn_input(prompt)])),
            ],
        ),
    )
}

/// The parameters of `turn/interrupt`.
pub open spec fn turn_interrupt_params(thread_id: Seq<char>, turn_id: Seq<char>) -> JsonView {
    JsonView::Object(
        json::object_of(
            seq![("threadId"@, JsonView::Text(thread_id)), ("turnId"@, JsonView::Text(turn_id))],
        ),
    )
}

/// The id of the thread that was started, or what is wrong with the response.
pub open spec fn started_thread_of(response: JsonView) -> Result<Seq<char>, Seq<char>> {
    match json::text_at(response, "thread"@, "id"@) {
        Some(id) => Ok(id),
        None => Err("thread/start response missing thread id"@),
    }
}

impl CodexClient {
    pub fn new(
        binary: String,
        cwd: WorkDir,
        model: Option<String>,
        approval_policy: String,
        sandbox_mode: Option<String>,
    ) -> (client: CodexClient)
        ensures
            client@ == (ClientView {
                binary: binary@,
                cwd: cwd@,
                model: text::text_view(model),
                approval_policy: approval_policy@,
                sandbox_mode: text::text_view(sandbox_mode),
            }),
    {
        CodexClient { binary, cwd, model, approval_policy, sandbox_mode }
    }

    /// The program that is run.
    pub fn binary(&self) -> (binary: &str)
        ensures
            binary@ == self@.binary,
    {
        self.binary.as_str()
    }

    /// Makes `cwd` the working directory of the threads and turns to come.
    pub fn set_cwd(&mut self, cwd: WorkDir)
        ensures
            final(self)@ == (ClientView { cwd: cwd@, ..old(self)@ }),
    {
        self.cwd = cwd;
    }

    /// A copy of the client.
    pub fn duplicate(&self) -> (copy: CodexClient)
        ensures
            copy@ == self@,
    {
        CodexClient {
            binary: self.binary.clone(),
            cwd: self.cwd.duplicate(),
            model: copy_text(&self.model),
            approval_policy: self.approval_policy.clone(),
            sandbox_mode: copy_text(&self.sandbox_mode),
        }
    }

    /// The request that starts a thread; [`started_thread`] reads what it results in.
    pub fn start_thread(&self, process: &mut AppServerProcess) -> (request: OutgoingRequest)
        requires
            old(process)@ < u64::MAX,
        ensures
            final(process)@ == old(process)@ + 1,
            request.id == old(process)@,
            request.line@ == rpc::line_of(
                rpc::request_value(old(process)@, "thread/start"@, thread_start_params(self@)),
            ),
            rpc::is_one_line(request.line@),
            json::parsed_json(request.line@.drop_last()) == Some(
                rpc::request_value(old(process)@, "thread/start"@, thread_start_params(self@)),
            ),
    {
        let mut params = Vec::new();
        params.push(named("cwd", text_value(self.cwd.display())));
        params.push(named("model", optional_text_value(&self.model)));
        params.push(named("approvalPolicy", text_value(self.approval_policy.as_str())));
        params.push(named("experimentalRawEvents", Json::Bool(false)));
        params.push(named("persistExtendedHistory", Json::Bool(false)));
        let ghost settings = seq![
            ("cwd"@, JsonView::Text(self@.cwd.display)),
            ("model"@, json::optional_text(self@.model)),
            ("approvalPolicy"@, JsonView::Text(self@.approval_policy)),
            ("experimentalRawEvents"@, JsonView::Bool(false)),
            ("persistExtendedHistory"@, JsonView::Bool(false)),
        ];
        assert(json::member_views(params@) =~= settings);
        match &self.sandbox_mode {
            Some(mode) => {
                params.push(named("sandbox", text_value(mode.as_str())));
                assert(json::member_views(params@) =~= settings.push(
                    ("sandbox"@, JsonView::Text(mode@)),
                ));
            },
            None => {},
        }
        proof {
            json::lemma_plain_object(json::member_views(params@), 126);
        }
        process.send_request("thread/start", Json::Object(params))
    }

    /// The request that starts a turn with `prompt` in the thread `thread_id`, and the state of
    /// that turn.
    pub fn run_turn(
        &self,
        process: &mut AppServerProcess,
        thread_id: &str,
        prompt: &str,
    ) -> (started: (OutgoingRequest, TurnState))
        requires
            old(process)@ < u64::MAX,
        ensures
            final(process)@ == old(process)@ + 1,
            started.0.id == old(process)@,
            started.0.line@ == rpc::line_of(
                rpc::request_value(
                    old(process)@,
                    "turn/start"@,
                    turn_start_params(self@, thread_id@, prompt@),
                ),
            ),
            rpc::is_one_line(started.0.line@),
            json::parsed_json(started.0.line@.drop_last()) == Some(
                rpc::request_value(
                    old(process)@,
                    "turn/start"@,
                    turn_start_params(self@, thread_id@, prompt@),
                ),
            ),
            started.1@ == TurnView::fresh(thread_id@, old(process)@),
    {
        let mut input = Vec::new();
        input.push(named("type", text_value("text")));
        input.push(named("text", text_value(prompt)));
        input.push(named("text_elements", Json::Array(Vec::new())));
        proof {
            reveal_with_fuel(json::json_tree, 2);
            assert(json::item_views(Seq::empty()) =~= Seq::empty());
        }
        assert(json::member_views(input@) =~= seq![
            ("type"@, JsonView::Text("text"@)),
            ("text"@, JsonView::Text(prompt@)),
            ("text_elements"@, JsonView::Array(Seq::empty())),
        ]);
        let mut inputs = Vec::new();
        inputs.push(Json::Object(input));
        assert(json::item_views(inputs@) =~= seq![turn_input(prompt@)]);
        let mut params = Vec::new();
        params.push(named("threadId", text_value(thread_id)));
        params.push(named("cwd", text_value(self.cwd.display())));
        params.push(named("approvalPolicy", text_value(self.approval_policy.as_str())));
        params.push(named("model", optional_text_value(&self.model)));
        params.push(named("input", Json::Array(inputs)));
        assert(json::member_views(params@) =~= seq![
            ("threadId"@, JsonView::Text(thread_id@)),
            ("cwd"@, JsonView::Text(self@.cwd.display)),
            ("approvalPolicy"@, JsonView::Text(self@.approval_policy)),
            ("model"@, json::optional_text(self@.model)),
            ("input"@, JsonView::Array(seq![turn_input(prompt@)])),
        ]);
        proof {
            json::lemma_plain_object(json::member_views(input@), 124);
            assert(json::plain_within(JsonView::Array(seq![turn_input(prompt@)]), 125));
            json::lemma_plain_object(json::member_views(params@), 126);
        }
        let request = process.send_request("turn/start", Json::Object(params));
        let turn = TurnState {
            thread_id: thread_id.to_owned(),
            request_id: request.id,
            assistant_text: empty_text(),
            interrupted: false,
            turn_started: None,
            stop_requested: false,
            interrupt_sent: false,
            done: false,
            last_status: None,
        };
        (request, turn)
    }
}

fn empty_text() -> (text: String)
    ensures
        text@ == Seq::<char>::empty(),
{
    proof {
        reveal_strlit("");
    }
    let text = "".to_owned();
    assert(text@ =~= Seq::<char>::empty());
    text
}

/// The id of the thread that `thread/start` started.
pub fn started_thread(response: &Json) -> (thread_id: Result<String, String>)
    ensures
        match thread_id {
            Ok(id) => started_thread_of(response@) == Ok::<Seq<char>, Seq<char>>(id@),
            Err(reason) => started_thread_of(response@) == Err::<Seq<char>, Seq<char>>(reason@),
        },
{
    match response.text_in("thread", "id") {
        Some(id) => Ok(id.to_owned()),
        None => Err("thread/start response missing thread id".to_owned()),
    }
}

/// What happens in a turn that the chat is told of.
#[derive(Debug)]
pub enum TurnEvent<R> {
    ThreadReady(String),
    TurnStarted(String),
    /// The assistant text so far.
    AssistantDelta(String),
    Status(String),
    ApprovalRequested(PendingApproval<R>),
}

/// An event as mathematics.
pub enum TurnEventView<R> {
    ThreadReady(Seq<char>),
    TurnStarted(Seq<char>),
    AssistantDelta(Seq<char>),
    Status(Seq<char>),
    ApprovalRequested(ApprovalView<R>),
}

impl<R> View for TurnEvent<R> {
    type V = TurnEventView<R>;

    open spec fn view(&self) -> TurnEventView<R> {
        match self {
            TurnEvent::ThreadReady(id) => TurnEventView::ThreadReady(id@),
            TurnEvent::TurnStarted(id) => TurnEventView::TurnStarted(id@),
            TurnEvent::AssistantDelta(text) => TurnEventView::AssistantDelta(text@),
            TurnEvent::Status(text) => TurnEventView::Status(text@),
            TurnEvent::ApprovalRequested(approval) => TurnEventView::ApprovalRequested(approval@),
        }
    }
}

/// An optional event as mathematics.
pub open spec fn event_view<R>(event: Option<TurnEvent<R>>) -> Option<TurnEventView<R>> {
    match event {
        Some(e) => Some(e@),
        None => None,
    }
}

/// What a turn has come to.
#[derive(Debug, Clone)]
pub struct TurnRunResult {
    pub assistant_text: String,
    pub interrupted: bool,
    pub last_status: Option<String>,
}

/// What a turn has come to, as mathematics.
pub struct TurnResultView {
    pub assistant_text: Seq<char>,
    pub interrupted: bool,
    pub last_status: Option<Seq<char>>,
}

impl View for TurnRunResult {
    type V = TurnResultView;

    open spec fn view(&self) -> TurnResultView {
        TurnResultView {
            assistant_text: self.assistant_text@,
            interrupted: self.interrupted,
            last_status: text::text_view(self.last_status),
        }
    }
}

/// A turn that runs.
#[derive(Debug)]
pub struct TurnState {
    thread_id: String,
    request_id: u64,
    assistant_text: String,
    interrupted: bool,
    turn_started: Option<String>,
    stop_requested: bool,
    interrupt_sent: bool,
    done: bool,
    last_status: Option<String>,
}

/// A turn as mathematics.
pub struct TurnView {
    /// The thread in which the turn runs.
    pub thread_id: Seq<char>,
    /// The id of the request that started it.
    pub request_id: u64,
    pub assistant_text: Seq<char>,
    pub interrupted: bool,
    /// The id that Codex gave the turn, once it is known.
    pub turn_started: Option<Seq<char>>,
    /// Whether the user has asked for the turn to stop.
    pub stop_requested: bool,
    /// Whether Codex has been asked to interrupt it.
    pub interrupt_sent: bool,
    pub done: bool,
    pub last_status: Option<Seq<char>>,
}

impl View for TurnState {
    type V = TurnView;

    closed spec fn view(&self) -> TurnView {
        TurnView {
            thread_id: self.thread_id@,
            request_id: self.request_id,
            assistant_text: self.assistant_text@,
            interrupted: self.interrupted,
            turn_started: text::text_view(self.turn_started),
            stop_requested: self.stop_requested,
            interrupt_sent: self.interrupt_sent,
            done: self.done,
            last_status: text::text_view(self.last_status),
        }
    }
}

impl TurnView {
    /// A turn of which nothing has been heard.
    pub open spec fn fresh(thread_id: Seq<char>, request_id: u64) -> TurnView {
        TurnView {
            thread_id,
            request_id,
            assistant_text: Seq::empty(),
            interrupted: false,
            turn_started: None,
            stop_requested: false,
            interrupt_sent: false,
            done: false,
            last_status: None,
        }
    }

    /// The turn after the user has asked for it to stop.
    pub open spec fn stopped(self) -> TurnView {
        TurnView { stop_requested: true, interrupted: true, ..self }
    }

    /// Whether Codex is to be asked to interrupt the turn.
    pub open spec fn interrupt_due(self) -> bool {
        self.stop_requested && self.turn_started is Some && !self.interrupt_sent && !self.done
    }

    /// The turn after Codex has been asked to interrupt it, if that was due.
    pub open spec fn after_interrupt(self) -> TurnView {
        if self.interrupt_due() {
            TurnView { interrupt_sent: true, ..self }
        } else {
            self
        }
    }
}

/// The line of status for a command that has been executed.
pub open spec fn command_status(item: JsonView) -> Seq<char> {
    let command = match json::text_member(item, "command"@) {
        Some(text) => text,
        None => "command"@,
    };
    let status = match json::text_member(item, "status"@) {
        Some(text) => text,
        None => "completed"@,
    };
    command + ": "@ + status
}

/// The turn after a notification.
pub open spec fn notified(turn: TurnView, method: Seq<char>, params: JsonView) -> TurnView {
    let item = match json::member(params, "item"@) {
        Some(item) => item,
        None => JsonView::Null,
    };
    if method == "turn/started"@ {
        match json::text_at(params, "turn"@, "id"@) {
            Some(id) => TurnView { turn_started: Some(id), ..turn },
            None => turn,
        }
    } else if method == "item/agentMessage/delta"@ {
        match json::text_member(params, "delta"@) {
            Some(delta) => TurnView { assistant_text: turn.assistant_text + delta, ..turn },
            None => turn,
        }
    } else if method == "item/completed"@ {
        if json::text_member(item, "type"@) == Some("agentMessage"@) {
            match json::text_member(item, "text"@) {
                Some(text) => TurnView { assistant_text: text, ..turn },
                None => turn,
            }
        } else if json::text_member(item, "type"@) == Some("commandExecution"@) {
            TurnView { last_status: Some(command_status(item)), ..turn }
        } else {
            turn
        }
    } else if method == "turn/completed"@ {
        TurnView {
            interrupted: turn.interrupted || json::text_at(params, "turn"@, "status"@) == Some(
                "interrupted"@,
            ),
            done: true,
            ..turn
        }
    } else {
        turn
    }
}

/// What the chat is told of a notification.
pub open spec fn told<R>(turn: TurnView, method: Seq<char>, params: JsonView) -> Option<
    TurnEventView<R>,
> {
    let item = match json::member(params, "item"@) {
        Some(item) => item,
        None => JsonView::Null,
    };
    if method == "thread/started"@ {
        match json::text_at(params, "thread"@, "id"@) {
            Some(id) => Some(TurnEventView::ThreadReady(id)),
            None => None,
        }
    } else if method == "turn/started"@ {
        match json::text_at(params, "turn"@, "id"@) {
            Some(id) => Some(TurnEventView::TurnStarted(id)),
            None => None,
        }
    } else if method == "item/agentMessage/delta"@ {
        match json::text_member(params, "delta"@) {
            Some(delta) => Some(TurnEventView::AssistantDelta(turn.assistant_text + delta)),
            None => None,
        }
    } else if method == "item/completed"@ {
        if json::text_member(item, "type"@) == Some("agentMessage"@) {
            match json::text_member(item, "text"@) {
                Some(text) => Some(TurnEventView::AssistantDelta(text)),
                None => None,
            }
        } else if json::text_member(item, "type"@) == Some("commandExecution"@) {
            Some(TurnEventView::Status(command_status(item)))
        } else {
            None
        }
    } else {
        None
    }
}

/// What the app-server asks approval for.
#[derive(Debug, Clone, Copy, PartialEq, Eq, Structural)]
pub enum ApprovalKind {
    CommandExecution,
    FileChange,
}

/// What is done about a request of the app-server.
#[derive(Debug)]
pub enum ServerReaction {
    /// The chat is asked for approval.
    AskApproval { kind: ApprovalKind, message: String, allow_accept_for_session: bool },
    /// The request is answered with `result`, and the chat is told `status`.
    Answer { result: Json, status: String },
    /// The request is answered with `result`, or, where that cannot be sent, with `otherwise`.
    Decline { result: Json, otherwise: Json },
}

/// What is done about a request of the app-server, as mathematics.
pub enum ServerReactionView {
    AskApproval { kind: ApprovalKind, message: Seq<char>, allow_accept_for_session: bool },
    Answer { result: JsonView, status: Seq<char> },
    Decline { result: JsonView, otherwise: JsonView },
}

impl View for ServerReaction {
    type V = ServerReactionView;

    open spec fn view(&self) -> ServerReactionView {
        match self {
            ServerReaction::AskApproval {
                kind,
                message,
                allow_accept_for_session,
            } => ServerReactionView::AskApproval {
                kind: *kind,
                message: message@,
                allow_accept_for_session: *allow_accept_for_session,
            },
            ServerReaction::Answer { result, status } => ServerReactionView::Answer {
                result: result@,
                status: status@,
            },
            ServerReaction::Decline { result, otherwise } => ServerReactionView::Decline {
                result: result@,
                otherwise: otherwise@,
            },
        }
    }
}

/// Whether the app-server offers an approval that holds for the whole session.
pub open spec fn offers_session(params: JsonView) -> bool {
    match json::member(params, "availableDecisions"@) {
        Some(JsonView::Array(decisions)) => decisions.contains(
            JsonView::Text("acceptForSession"@),
        ),
        _ => false,
    }
}

/// The message that asks the chat for approval.
pub open spec fn approval_message(kind: ApprovalKind, params: JsonView) -> Seq<char> {
    match kind {
        ApprovalKind::CommandExecution => match json::text_member(params, "command"@) {
            Some(command) => "Codex approval required: command execution"@ + "\ncommand: "@
                + command,
            None => "Codex approval required: command execution"@,
        },
        ApprovalKind::FileChange => "Codex approval required: file change"@,
    }
}

/// The name of a decision.
pub open spec fn decision_name(decision: ApprovalDecision) -> Seq<char> {
    match decision {
        ApprovalDecision::Accept => "accept"@,
        ApprovalDecision::AcceptForSession => "acceptForSession"@,
        ApprovalDecision::Decline => "decline"@,
        ApprovalDecision::Cancel => "cancel"@,
    }
}

/// The result that tells the app-server `decision`.
pub open spec fn decision_result(decision: ApprovalDecision) -> JsonView {
    JsonView::Object(
        json::object_of(seq![("decision"@, JsonView::Text(decision_name(decision)))]),
    )
}

/// What is done about the request `method` of the app-server.
pub open spec fn reaction_to(method: Seq<char>, params: JsonView) -> ServerReactionView {
    if method == "item/commandExecution/requestApproval"@ {
        ServerReactionView::AskApproval {
            kind: ApprovalKind::CommandExecution,
            message: approval_message(ApprovalKind::CommandExecution, params),
            allow_accept_for_session: offers_session(params),
        }
    } else if method == "item/fileChange/requestApproval"@ {
        ServerReactionView::AskApproval {
            kind: ApprovalKind::FileChange,
            message: approval_message(ApprovalKind::FileChange, params),
            allow_accept_for_session: offers_session(params),
        }
    } else if method == "item/tool/requestUserInput"@ {
        ServerReactionView::Answer {
            result: JsonView::Object(
                json::object_of(seq![("answers"@, JsonView::Object(Map::empty()))]),
            ),
            status: "Codex requested extra user input; this MVP does not support it."@,
        }
    } else {
        ServerReactionView::Decline {
            result: decision_result(ApprovalDecision::Decline),
            otherwise: JsonView::Object(Map::empty()),
        }
    }
}

fn offers_session_wide(params: &Json) -> (offered: bool)
    ensures
        offered == offers_session(params@),
{
    let decisions = match params.get("availableDecisions") {
        Some(value) => match value.as_array() {
            Some(items) => items,
            None => {
                return false;
            },
        },
        None => {
            return false;
        },
    };
    let ghost views = json::item_views(decisions@);
    let mut i: usize = 0;
    while i < decisions.len()
        invariant
            json::member(params@, "availableDecisions"@) == Some(JsonView::Array(views)),
            views == json::item_views(decisions@),
            i <= decisions@.len(),
            forall|j: int|
                0 <= j < i ==> #[trigger] views[j] != JsonView::Text("acceptForSession"@),
        decreases decisions@.len() - i,
    {
        assert(views[i as int] == decisions@[i as int]@);
        match decisions[i].as_str() {
            Some(name) => {
                if same_text(name, "acceptForSession") {
                    assert(views[i as int] == JsonView::Text("acceptForSession"@));
                    return true;
                }
            },
            None => {},
        }
        i = i + 1;
    }
    false
}

fn approval_text(kind: ApprovalKind, params: &Json) -> (message: String)
    ensures
        message@ == approval_message(kind, params@),
{
    match kind {
        ApprovalKind::CommandExecution => {
            let mut message = "Codex approval required: command execution".to_owned();
            match params.text("command") {
                Some(command) => {
                    message.append("\ncommand: ");
                    message.append(command);
                },
                None => {},
            }
            message
        },
        ApprovalKind::FileChange => "Codex approval required: file change".to_owned(),
    }
}

/// The result that tells the app-server `decision`.
pub fn decision_answer(decision: ApprovalDecision) -> (result: Json)
    ensures
        result@ == decision_result(decision),
{
    let name = match decision {
        ApprovalDecision::Accept => "accept",
        ApprovalDecision::AcceptForSession => "acceptForSession",
        ApprovalDecision::Decline => "decline",
        ApprovalDecision::Cancel => "cancel",
    };
    let mut members = Vec::new();
    members.push(named("decision", text_value(name)));
    assert(json::member_views(members@) =~= seq![
        ("decision"@, JsonView::Text(decision_name(decision))),
    ]);
    Json::Object(members)
}

fn empty_object() -> (json: Json)
    ensures
        json@ == JsonView::Object(Map::empty()),
{
    let members = Vec::new();
    assert(json::member_views(members@) =~= Seq::empty());
    Json::Object(members)
}

/// What is done about the request `method` of the app-server.
pub fn handle_server_request(method: &str, params: &Json) -> (reaction: ServerReaction)
    ensures
        reaction@ == reaction_to(method@, params@),
{
    if same_text(method, "item/commandExecution/requestApproval") {
        ServerReaction::AskApproval {
            kind: ApprovalKind::CommandExecution,
            message: approval_text(ApprovalKind::CommandExecution, params),
            allow_accept_for_session: offers_session_wide(params),
        }
    } else if same_text(method, "item/fileChange/requestApproval") {
        ServerReaction::AskApproval {
            kind: ApprovalKind::FileChange,
            message: approval_text(ApprovalKind::FileChange, params),
            allow_accept_for_session: offers_session_wide(params),
        }
    } else if same_text(method, "item/tool/requestUserInput") {
        let mut members = Vec::new();
        members.push(named("answers", empty_object()));
        assert(json::member_views(members@) =~= seq![
            ("answers"@, JsonView::Object(Map::empty())),
        ]);
        ServerReaction::Answer {
            result: Json::Object(members),
            status: "Codex requested extra user input; this MVP does not support it.".to_owned(),
        }
    } else {
        ServerReaction::Decline {
            result: decision_answer(ApprovalDecision::Decline),
            otherwise: empty_object(),
        }
    }
}

/// The decision on an approval: an asker that is dropped without an answer is told `Cancel`.
pub fn decision_or_cancel(answer: Option<ApprovalDecision>) -> (decision: ApprovalDecision)
    ensures
        decision == match answer {
            Some(given) => given,
            None => ApprovalDecision::Cancel,
        },
{
    match answer {
        Some(given) => given,
        None => ApprovalDecision::Cancel,
    }
}

/// What the chat is told once an approval has been decided: only a refusal is worth a word.
pub open spec fn decision_status(kind: ApprovalKind, decision: ApprovalDecision) -> Option<
    Seq<char>,
> {
    if decision != ApprovalDecision::Decline {
        None
    } else {
        match kind {
            ApprovalKind::CommandExecution => Some(
                "Codex requested command approval and it was declined."@,
            ),
            ApprovalKind::FileChange => Some(
                "Codex requested file-change approval and it was declined."@,
            ),
        }
    }
}

/// What the chat is told once an approval has been decided.
pub fn status_of_decision(kind: ApprovalKind, decision: ApprovalDecision) -> (status: Option<
    String,
>)
    ensures
        text::text_view(status) == decision_status(kind, decision),
{
    if decision != ApprovalDecision::Decline {
        return None;
    }
    match kind {
        ApprovalKind::CommandExecution => Some(
            "Codex requested command approval and it was declined.".to_owned(),
        ),
        ApprovalKind::FileChange => Some(
            "Codex requested file-change approval and it was declined.".to_owned(),
        ),
    }
}

/// What is to be done after a message in a turn.
#[derive(Debug)]
pub enum TurnStep<R> {
    /// The chat is told of an event, if there is one, and the turn goes on unless it is done.
    Go(Option<TurnEvent<R>>),
    /// The request `id` of the app-server is to be dealt with.
    React { id: u64, reaction: ServerReaction },
    /// The app-server closed; the turn is over.
    Over,
    /// The turn failed for this reason.
    Failed(String),
    /// The turn failed because the error of a message could not be decoded; the reason is the
    /// decoder's.
    Malformed,
}

/// What is to be done after a message, as mathematics.
pub enum TurnStepView<R> {
    Go(Option<TurnEventView<R>>),
    React { id: u64, reaction: ServerReactionView },
    Over,
    Failed(Seq<char>),
    Malformed,
}

impl<R> View for TurnStep<R> {
    type V = TurnStepView<R>;

    open spec fn view(&self) -> TurnStepView<R> {
        match self {
            TurnStep::Go(event) => TurnStepView::Go(event_view(*event)),
            TurnStep::React { id, reaction } => TurnStepView::React {
                id: *id,
                reaction: reaction@,
            },
            TurnStep::Over => TurnStepView::Over,
            TurnStep::Failed(reason) => TurnStepView::Failed(reason@),
            TurnStep::Malformed => TurnStepView::Malformed,
        }
    }
}

/// The turn after `next` has come from the app-server.
pub open spec fn turn_after(turn: TurnView, next: IncomingView) -> TurnView {
    match next {
        IncomingView::Message(RpcMessageView::Notification { method, params }) => notified(
            turn,
            method,
            params,
        ),
        IncomingView::Message(
            RpcMessageView::Response { id, result: Some(result), error: None },
        ) => match json::text_at(result, "turn"@, "id"@) {
            Some(turn_id) if id == turn.request_id => TurnView {
                turn_started: Some(turn_id),
                ..turn
            },
            _ => turn,
        },
        _ => turn,
    }
}

/// What is to be done after `next` has come from the app-server.
pub open spec fn step_after<R>(turn: TurnView, next: IncomingView) -> TurnStepView<R> {
    match next {
        IncomingView::Closed => TurnStepView::Over,
        IncomingView::Noise => TurnStepView::Go(None),
        IncomingView::Malformed => TurnStepView::Malformed,
        IncomingView::Message(RpcMessageView::Notification { method, params }) => TurnStepView::Go(
            told(turn, method, params),
        ),
        IncomingView::Message(
            RpcMessageView::ServerRequest { id, method, params },
        ) => TurnStepView::React { id, reaction: reaction_to(method, params) },
        IncomingView::Message(RpcMessageView::Response { id, result, error }) => if id
            != turn.request_id {
            TurnStepView::Go(None)
        } else {
            match error {
                Some(e) => TurnStepView::Failed(rpc::rpc_error_words(e)),
                None => TurnStepView::Go(
                    match result {
                        Some(value) => match json::text_at(value, "turn"@, "id"@) {
                            Some(turn_id) => Some(TurnEventView::TurnStarted(turn_id)),
                            None => None,
                        },
                        None => None,
                    },
                ),
            }
        },
    }
}

impl TurnState {
    /// Whether the turn has been completed.
    pub fn is_done(&self) -> (done: bool)
        ensures
            done == self@.done,
    {
        self.done
    }

    /// Whether the user has asked for the turn to stop.
    pub fn stop_requested(&self) -> (requested: bool)
        ensures
            requested == self@.stop_requested,
    {
        self.stop_requested
    }

    /// The assistant text so far.
    pub fn assistant_text(&self) -> (text: &str)
        ensures
            text@ == self@.assistant_text,
    {
        self.assistant_text.as_str()
    }

    /// Takes in a notification and says what the chat is told of it.
    pub fn handle_notification<R>(&mut self, method: &str, params: &Json) -> (event: Option<
        TurnEvent<R>,
    >)
        ensures
            final(self)@ == notified(old(self)@, method@, params@),
            event_view(event) == told::<R>(old(self)@, method@, params@),
    {
        proof {
            lemma_method_names();
        }
        if same_text(method, "thread/started") {
            match params.text_in("thread", "id") {
                Some(id) => Some(TurnEvent::ThreadReady(id.to_owned())),
                None => None,
            }
        } else if same_text(method, "turn/started") {
            match params.text_in("turn", "id") {
                Some(id) => {
                    self.turn_started = Some(id.to_owned());
                    Some(TurnEvent::TurnStarted(id.to_owned()))
                },
                None => None,
            }
        } else if same_text(method, "item/agentMessage/delta") {
            match params.text("delta") {
                Some(delta) => {
                    self.assistant_text.append(delta);
                    Some(TurnEvent::AssistantDelta(self.assistant_text.clone()))
                },
                None => None,
            }
        } else if same_text(method, "item/completed") {
            match params.get("item") {
                Some(item) => self.complete_item(item),
                None => None,
            }
        } else if same_text(method, "turn/completed") {
            match params.text_in("turn", "status") {
                Some(status) => {
                    if same_text(status, "interrupted") {
                        self.interrupted = true;
                    }
                },
                None => {},
            }
            self.done = true;
            None
        } else {
            None
        }
    }

    fn complete_item<R>(&mut self, item: &Json) -> (event: Option<TurnEvent<R>>)
        ensures
            json::text_member(item@, "type"@) == Some("agentMessage"@) ==> match json::text_member(
                item@,
                "text"@,
            ) {
                Some(text) => final(self)@ == (TurnView { assistant_text: text, ..old(self)@ })
                    && event_view(event) == Some(TurnEventView::<R>::AssistantDelta(text)),
                None => final(self)@ == old(self)@ && event is None,
            },
            json::text_member(item@, "type"@) == Some("commandExecution"@) ==> final(self)@ == (
            TurnView { last_status: Some(command_status(item@)), ..old(self)@ }) && event_view(
                event,
            ) == Some(TurnEventView::<R>::Status(command_status(item@))),
            json::text_member(item@, "type"@) != Some("agentMessage"@) && json::text_member(
                item@,
                "type"@,
            ) != Some("commandExecution"@) ==> final(self)@ == old(self)@ && event is None,
    {
        proof {
            reveal_strlit("agentMessage");
            reveal_strlit("commandExecution");
            assert("agentMessage"@.len() != "commandExecution"@.len());
        }
        let kind = match item.text("type") {
            Some(kind) => kind,
            None => {
                return None;
            },
        };
        if same_text(kind, "agentMessage") {
            match item.text("text") {
                Some(text) => {
                    self.assistant_text = text.to_owned();
                    Some(TurnEvent::AssistantDelta(text.to_owned()))
                },
                None => None,
            }
        } else if same_text(kind, "commandExecution") {
            let mut status = match item.text("command") {
                Some(command) => command.to_owned(),
                None => "command".to_owned(),
            };
            status.append(": ");
            status.append(
                match item.text("status") {
                    Some(word) => word,
                    None => "completed",
                },
            );
            self.last_status = Some(status.clone());
            Some(TurnEvent::Status(status))
        } else {
            None
        }
    }

    /// Takes in what has come from the app-server and says what is to be done.
    pub fn advance<R>(&mut self, next: Incoming) -> (step: TurnStep<R>)
        ensures
            final(self)@ == turn_after(old(self)@, next@),
            step@ == step_after::<R>(old(self)@, next@),
    {
        match next {
            Incoming::Closed => TurnStep::Over,
            Incoming::Noise => TurnStep::Go(None),
            Incoming::Malformed => TurnStep::Malformed,
            Incoming::Message(RpcMessage::Notification { method, params }) => TurnStep::Go(
                self.handle_notification(method.as_str(), &params),
            ),
            Incoming::Message(
                RpcMessage::ServerRequest { id, method, params },
            ) => TurnStep::React { id, reaction: handle_server_request(method.as_str(), &params) },
            Incoming::Message(RpcMessage::Response { id, result, error }) => {
                if id != self.request_id {
                    return TurnStep::Go(None);
                }
                match error {
                    Some(error) => {
                        return TurnStep::Failed(format_rpc_error(&error));
                    },
                    None => {},
                }
                match result {
                    Some(value) => match value.text_in("turn", "id") {
                        Some(turn_id) => {
                            self.turn_started = Some(turn_id.to_owned());
                            TurnStep::Go(Some(TurnEvent::TurnStarted(turn_id.to_owned())))
                        },
                        None => TurnStep::Go(None),
                    },
                    None => TurnStep::Go(None),
                }
            },
        }
    }

    /// Records that the user asks for the turn to stop.
    pub fn request_stop(&mut self)
        ensures
            final(self)@ == old(self)@.stopped(),
    {
        self.stop_requested = true;
        self.interrupted = true;
    }

    /// The request that asks Codex to interrupt the turn, if it is due: once, when the user has
    /// asked for the turn to stop and Codex has told the id of the turn.
    pub fn interrupt(&mut self, process: &mut AppServerProcess) -> (request: Option<OutgoingRequest>)
        requires
            old(process)@ < u64::MAX,
        ensures
            request is Some <==> old(self)@.interrupt_due(),
            final(self)@ == old(self)@.after_interrupt(),
            match request {
                Some(request) => {
                    &&& final(process)@ == old(process)@ + 1
                    &&& request.id == old(process)@
                    &&& request.line@ == rpc::line_of(
                        rpc::request_value(
                            old(process)@,
                            "turn/interrupt"@,
                            turn_interrupt_params(
                                old(self)@.thread_id,
                                old(self)@.turn_started->0,
                            ),
                        ),
                    )
                    &&& rpc::is_one_line(request.line@)
                    &&& json::parsed_json(request.line@.drop_last()) == Some(
                        rpc::request_value(
                            old(process)@,
                            "turn/interrupt"@,
                            turn_interrupt_params(
                                old(self)@.thread_id,
                                old(self)@.turn_started->0,
                            ),
                        ),
                    )
                },
                None => final(process)@ == old(process)@,
            },
    {
        if !self.stop_requested || self.interrupt_sent || self.done {
            return None;
        }
        match &self.turn_started {
            Some(turn_id) => {
                let mut params = Vec::new();
                params.push(named("threadId", text_value(self.thread_id.as_str())));
                params.push(named("turnId", text_value(turn_id.as_str())));
                assert(json::member_views(params@) =~= seq![
                    ("threadId"@, JsonView::Text(self@.thread_id)),
                    ("turnId"@, JsonView::Text(turn_id@)),
                ]);
                proof {
                    json::lemma_plain_object(json::member_views(params@), 126);
                }
                let request = process.send_request("turn/interrupt", Json::Object(params));
                self.interrupt_sent = true;
                Some(request)
            },
            None => None,
        }
    }

    /// What the turn has come to.
    pub fn finish(self) -> (result: TurnRunResult)
        ensures
            result@ == (TurnResultView {
                assistant_text: self@.assistant_text,
                interrupted: self@.interrupted,
                last_status: self@.last_status,
            }),
    {
        TurnRunResult {
            assistant_text: self.assistant_text,
            interrupted: self.interrupted,
            last_status: self.last_status,
        }
    }
}

proof fn lemma_method_names()
    ensures
        "thread/started"@ != "turn/started"@,
        "thread/started"@ != "item/agentMessage/delta"@,
        "thread/started"@ != "item/completed"@,
        "thread/started"@ != "turn/completed"@,
        "turn/completed"@ != "turn/started"@,
        "turn/completed"@ != "item/agentMessage/delta"@,
        "turn/completed"@ != "item/completed"@,
{
    reveal_strlit("thread/started");
    reveal_strlit("turn/started");
    reveal_strlit("item/agentMessage/delta");
    reveal_strlit("item/completed");
    reveal_strlit("turn/completed");
    assert("thread/started"@.len() == 14 && "turn/started"@.len() == 12);
    assert("item/completed"@.len() == 14 && "turn/completed"@.len() == 14);
    assert("thread/started"@[1] == 'h');
    assert("item/completed"@[0] == 'i');
    assert("turn/completed"@[1] == 'u');
    assert("turn/completed"@[0] == 't');
    assert("thread/started"@[0] == 't');
    assert("item/agentMessage/delta"@.len() == 23);
}

/// Only the notification `turn/completed` completes a turn, and a completed turn stays so.
pub proof fn law_only_completion_ends_a_turn(turn: TurnView, next: IncomingView)
    ensures
        turn_after(turn, next).done <==> turn.done || (next matches IncomingView::Message(
            RpcMessageView::Notification { method, .. },
        ) && method == "turn/completed"@),
{
    lemma_method_names();
}

/// No message takes back that a turn was interrupted, changes which turn it is, or asks it to
/// stop.
pub proof fn law_messages_keep_the_turn(turn: TurnView, next: IncomingView)
    ensures
        turn.interrupted ==> turn_after(turn, next).interrupted,
        turn.turn_started is Some ==> turn_after(turn, next).turn_started is Some,
        turn_after(turn, next).thread_id == turn.thread_id,
        turn_after(turn, next).request_id == turn.request_id,
        turn_after(turn, next).stop_requested == turn.stop_requested,
        turn_after(turn, next).interrupt_sent == turn.interrupt_sent,
{
}

/// The chat is told of the assistant text whenever it changes, and is told the text as it then
/// is.
pub proof fn law_the_chat_sees_the_text<R>(turn: TurnView, next: IncomingView)
    ensures
        match step_after::<R>(turn, next) {
            TurnStepView::Go(Some(TurnEventView::AssistantDelta(shown))) => turn_after(
                turn,
                next,
            ).assistant_text == shown,
            _ => turn_after(turn, next).assistant_text == turn.assistant_text,
        },
{
    lemma_method_names();
}

/// The last status of a turn, once there is one, is not empty.
pub proof fn law_status_is_never_empty(turn: TurnView, next: IncomingView)
    requires
        turn.last_status matches Some(status) ==> status.len() > 0,
    ensures
        turn_after(turn, next).last_status matches Some(status) ==> status.len() > 0,
{
    reveal_strlit(": ");
    assert(": "@.len() == 2);
}

/// The parameters of `item/agentMessage/delta`.
pub open spec fn delta_params(delta: Seq<char>) -> JsonView {
    JsonView::Object(json::object_of(seq![("delta"@, JsonView::Text(delta))]))
}

/// The turn after these pieces of assistant text have come.
pub open spec fn after_deltas(turn: TurnView, deltas: Seq<Seq<char>>) -> TurnView
    decreases deltas.len(),
{
    if deltas.len() == 0 {
        turn
    } else {
        notified(
            after_deltas(turn, deltas.drop_last()),
            "item/agentMessage/delta"@,
            delta_params(deltas.last()),
        )
    }
}

/// Pieces of assistant text are put together in the order in which they come, and change nothing
/// else.
pub proof fn law_deltas_add_up(turn: TurnView, deltas: Seq<Seq<char>>)
    ensures
        after_deltas(turn, deltas) == (TurnView {
            assistant_text: turn.assistant_text + deltas.flatten(),
            ..turn
        }),
    decreases deltas.len(),
{
    reveal_strlit("item/agentMessage/delta");
    reveal_strlit("turn/started");
    assert("item/agentMessage/delta"@.len() != "turn/started"@.len());
    if deltas.len() == 0 {
        assert(deltas.flatten() =~= Seq::empty());
        assert(turn.assistant_text + deltas.flatten() =~= turn.assistant_text);
    } else {
        let front = deltas.drop_last();
        let last = deltas.last();
        law_deltas_add_up(turn, front);
        json::lemma_member_found(seq![("delta"@, JsonView::Text(last))], 0);
        assert(json::text_member(delta_params(last), "delta"@) == Some(last));
        assert(deltas =~= front.push(last));
        lemma_flatten_push(front, last);
        assert(turn.assistant_text + front.flatten() + last =~= turn.assistant_text
            + deltas.flatten());
    }
}

proof fn lemma_flatten_push(front: Seq<Seq<char>>, last: Seq<char>)
    ensures
        front.push(last).flatten() == front.flatten() + last,
    decreases front.len(),
{
    if front.len() == 0 {
        assert(front.push(last).drop_first() =~= Seq::empty());
        assert(front.push(last).first() == last);
        assert(front.push(last).drop_first().flatten() =~= Seq::empty());
        assert(front.flatten() =~= Seq::empty());
        assert(front.push(last).flatten() =~= last);
        assert(front.flatten() + last =~= last);
    } else {
        assert(front.push(last).drop_first() =~= front.drop_first().push(last));
        assert(front.push(last).first() == front.first());
        lemma_flatten_push(front.drop_first(), last);
        assert(front.push(last).flatten() =~= front.flatten() + last);
    }
}

/// A turn that Codex reports as interrupted counts as interrupted, also where the chat did not
/// ask for it.
pub proof fn law_interruption_is_reported(turn: TurnView, params: JsonView)
    requires
        json::text_at(params, "turn"@, "status"@) == Some("interrupted"@),
    ensures
        notified(turn, "turn/completed"@, params).interrupted,
        notified(turn, "turn/completed"@, params).done,
{
    lemma_method_names();
}

/// What happens to a turn: the user asks for it to stop, or something comes from the app-server.
pub enum TurnInput {
    Stop,
    Heard(IncomingView),
}

/// The turn after `input`, and after Codex has been asked to interrupt it where that was due.
pub open spec fn turn_after_input(turn: TurnView, input: TurnInput) -> TurnView {
    heard(turn, input).after_interrupt()
}

/// The turn after `input`.
pub open spec fn heard(turn: TurnView, input: TurnInput) -> TurnView {
    match input {
        TurnInput::Stop => turn.stopped(),
        TurnInput::Heard(next) => turn_after(turn, next),
    }
}

/// The turn after all of `inputs`.
pub open spec fn turn_after_inputs(turn: TurnView, inputs: Seq<TurnInput>) -> TurnView
    decreases inputs.len(),
{
    if inputs.len() == 0 {
        turn
    } else {
        turn_after_input(turn_after_inputs(turn, inputs.drop_last()), inputs.last())
    }
}

/// The ids of the turns that Codex is asked to interrupt in the course of `inputs`, one for each
/// request.
pub open spec fn interrupts_given(turn: TurnView, inputs: Seq<TurnInput>) -> Seq<Seq<char>>
    decreases inputs.len(),
{
    if inputs.len() == 0 {
        Seq::empty()
    } else {
        let front = inputs.drop_last();
        let now = heard(turn_after_inputs(turn, front), inputs.last());
        let given = interrupts_given(turn, front);
        if now.interrupt_due() {
            given.push(now.turn_started->0)
        } else {
            given
        }
    }
}

/// The turn id that `input` names to the turn that the request `request_id` started.
pub open spec fn id_named(request_id: u64, input: TurnInput) -> Option<Seq<char>> {
    match input {
        TurnInput::Heard(
            IncomingView::Message(RpcMessageView::Notification { method, params }),
        ) => if method == "turn/started"@ {
            json::text_at(params, "turn"@, "id"@)
        } else {
            None
        },
        TurnInput::Heard(
            IncomingView::Message(
                RpcMessageView::Response { id, result: Some(result), error: None },
            ),
        ) => if id == request_id {
            json::text_at(result, "turn"@, "id"@)
        } else {
            None
        },
        _ => None,
    }
}

/// Whether `input` says that the turn is completed.
pub open spec fn completes(input: TurnInput) -> bool {
    input matches TurnInput::Heard(
        IncomingView::Message(RpcMessageView::Notification { method, .. }),
    ) && method == "turn/completed"@
}

proof fn lemma_input(turn: TurnView, input: TurnInput)
    ensures
        heard(turn, input).turn_started == match id_named(turn.request_id, input) {
            Some(id) => Some(id),
            None => turn.turn_started,
        },
        heard(turn, input).done == (turn.done || completes(input)),
        heard(turn, input).stop_requested == (turn.stop_requested || input is Stop),
        heard(turn, input).interrupt_sent == turn.interrupt_sent,
        heard(turn, input).request_id == turn.request_id,
        turn.interrupted || input is Stop ==> heard(turn, input).interrupted,
{
    lemma_method_names();
}

proof fn lemma_interrupts(turn: TurnView, inputs: Seq<TurnInput>)
    requires
        !turn.interrupt_sent,
    ensures
        ({
            let after = turn_after_inputs(turn, inputs);
            &&& after.request_id == turn.request_id
            &&& !after.interrupt_sent ==> interrupts_given(turn, inputs).len() == 0
            &&& after.interrupt_sent ==> interrupts_given(turn, inputs).len() == 1
        }),
    decreases inputs.len(),
{
    if inputs.len() > 0 {
        let front = inputs.drop_last();
        lemma_interrupts(turn, front);
        lemma_input(turn_after_inputs(turn, front), inputs.last());
    }
}

/// Codex is asked to interrupt a turn at most once.
pub proof fn law_at_most_one_interrupt(turn: TurnView, inputs: Seq<TurnInput>)
    requires
        !turn.interrupt_sent,
    ensures
        interrupts_given(turn, inputs).len() <= 1,
{
    lemma_interrupts(turn, inputs);
}

/// Codex is not asked to interrupt a turn that the user has not asked to stop.
pub proof fn law_no_interrupt_without_a_stop(turn: TurnView, inputs: Seq<TurnInput>)
    requires
        !turn.stop_requested,
        forall|i: int| 0 <= i < inputs.len() ==> !(#[trigger] inputs[i] is Stop),
    ensures
        interrupts_given(turn, inputs).len() == 0,
        !turn_after_inputs(turn, inputs).stop_requested,
    decreases inputs.len(),
{
    if inputs.len() > 0 {
        let front = inputs.drop_last();
        assert forall|i: int| 0 <= i < front.len() implies !(#[trigger] front[i] is Stop) by {
            assert(front[i] == inputs[i]);
        }
        law_no_interrupt_without_a_stop(turn, front);
        lemma_input(turn_after_inputs(turn, front), inputs.last());
        assert(inputs.last() == inputs[inputs.len() - 1]);
    }
}

/// What holds while a turn is not completed and all ids that it is named are `turn_id`.
proof fn lemma_interrupt_before_completion(
    thread_id: Seq<char>,
    request_id: u64,
    inputs: Seq<TurnInput>,
    turn_id: Seq<char>,
)
    requires
        forall|i: int| 0 <= i < inputs.len() ==> !completes(#[trigger] inputs[i]),
        forall|i: int|
            0 <= i < inputs.len() ==> (id_named(request_id, #[trigger] inputs[i]) matches Some(id)
                ==> id == turn_id),
    ensures
        ({
            let turn = TurnView::fresh(thread_id, request_id);
            let after = turn_after_inputs(turn, inputs);
            &&& after.request_id == request_id
            &&& !after.done
            &&& after.turn_started matches Some(id) ==> id == turn_id
            &&& after.turn_started is Some <==> exists|i: int|
                0 <= i < inputs.len() && id_named(request_id, #[trigger] inputs[i]) is Some
            &&& after.stop_requested <==> exists|i: int|
                0 <= i < inputs.len() && #[trigger] inputs[i] is Stop
            &&& after.stop_requested ==> after.interrupted
            &&& after.interrupt_sent <==> after.stop_requested && after.turn_started is Some
            &&& interrupts_given(turn, inputs) == if after.interrupt_sent {
                seq![turn_id]
            } else {
                Seq::empty()
            }
        }),
    decreases inputs.len(),
{
    let turn = TurnView::fresh(thread_id, request_id);
    if inputs.len() > 0 {
        let front = inputs.drop_last();
        let last = inputs.last();
        assert(last == inputs[inputs.len() - 1]);
        assert forall|i: int| 0 <= i < front.len() implies !completes(#[trigger] front[i]) && (
        id_named(request_id, front[i]) matches Some(id) ==> id == turn_id) by {
            assert(front[i] == inputs[i]);
        }
        lemma_interrupt_before_completion(thread_id, request_id, front, turn_id);
        let before = turn_after_inputs(turn, front);
        lemma_input(before, last);
        if exists|i: int| 0 <= i < front.len() && id_named(request_id, #[trigger] front[i]) is Some {
            let i = choose|i: int|
                0 <= i < front.len() && id_named(request_id, #[trigger] front[i]) is Some;
            assert(id_named(request_id, inputs[i]) is Some);
        }
        if exists|i: int| 0 <= i < front.len() && #[trigger] front[i] is Stop {
            let i = choose|i: int| 0 <= i < front.len() && #[trigger] front[i] is Stop;
            assert(inputs[i] is Stop);
        }
        if exists|i: int| 0 <= i < inputs.len() && id_named(request_id, #[trigger] inputs[i]) is Some {
            let i = choose|i: int|
                0 <= i < inputs.len() && id_named(request_id, #[trigger] inputs[i]) is Some;
            if i < front.len() {
                assert(id_named(request_id, front[i]) is Some);
            }
        }
        if exists|i: int| 0 <= i < inputs.len() && #[trigger] inputs[i] is Stop {
            let i = choose|i: int| 0 <= i < inputs.len() && #[trigger] inputs[i] is Stop;
            if i < front.len() {
                assert(front[i] is Stop);
            }
        }
        assert(Seq::<Seq<char>>::empty().push(turn_id) =~= seq![turn_id]);
    }
}

proof fn lemma_interrupt_stays(turn: TurnView, inputs: Seq<TurnInput>, k: int)
    requires
        0 <= k <= inputs.len(),
        turn_after_inputs(turn, inputs.take(k)).interrupt_sent,
        turn_after_inputs(turn, inputs.take(k)).interrupted,
    ensures
        turn_after_inputs(turn, inputs).interrupt_sent,
        turn_after_inputs(turn, inputs).interrupted,
        interrupts_given(turn, inputs) == interrupts_given(turn, inputs.take(k)),
    decreases inputs.len() - k,
{
    if k == inputs.len() {
        assert(inputs.take(k) =~= inputs);
    } else {
        let front = inputs.drop_last();
        assert(front.take(k) =~= inputs.take(k));
        lemma_interrupt_stays(turn, front, k);
        lemma_input(turn_after_inputs(turn, front), inputs.last());
    }
}

/// A turn that the user asks to stop is interrupted: where the stop is asked for and the id of the
/// turn is named among the first `k` inputs, in either order and before the turn is completed,
/// Codex is asked exactly once to interrupt the turn, by this id, and the turn counts as
/// interrupted.
pub proof fn law_a_stop_interrupts_the_turn(
    thread_id: Seq<char>,
    request_id: u64,
    inputs: Seq<TurnInput>,
    k: int,
    stop: int,
    naming: int,
    turn_id: Seq<char>,
)
    requires
        0 <= stop < k <= inputs.len(),
        0 <= naming < k,
        inputs[stop] is Stop,
        id_named(request_id, inputs[naming]) == Some(turn_id),
        forall|i: int| 0 <= i < k ==> !completes(#[trigger] inputs[i]),
        forall|i: int|
            0 <= i < k ==> (id_named(request_id, #[trigger] inputs[i]) matches Some(id) ==> id
                == turn_id),
    ensures
        interrupts_given(TurnView::fresh(thread_id, request_id), inputs) == seq![turn_id],
        turn_after_inputs(TurnView::fresh(thread_id, request_id), inputs).interrupted,
{
    let before = inputs.take(k);
    assert forall|i: int| 0 <= i < before.len() implies !completes(#[trigger] before[i]) && (
    id_named(request_id, before[i]) matches Some(id) ==> id == turn_id) by {
        assert(before[i] == inputs[i]);
    }
    lemma_interrupt_before_completion(thread_id, request_id, before, turn_id);
    assert(before[stop] is Stop);
    assert(id_named(request_id, before[naming]) is Some);
    lemma_interrupt_stays(TurnView::fresh(thread_id, request_id), inputs, k);
}

/// What the app-server has written to its standard error.
#[derive(Debug)]
pub struct StderrLog {
    text: String,
}

impl View for StderrLog {
    type V = Seq<char>;

    closed spec fn view(&self) -> Seq<char> {
        self.text@
    }
}

impl StderrLog {
    /// A log in which nothing is written.
    pub fn new() -> (log: StderrLog)
        ensures
            log@ == Seq::<char>::empty(),
    {
        StderrLog { text: empty_text() }
    }

    /// Adds a line.
    pub fn push_line(&mut self, line: &str)
        ensures
            final(self)@ == if old(self)@.len() == 0 {
                line@
            } else {
                old(self)@ + "\n"@ + line@
            },
    {
        if !self.text.as_str().is_empty() {
            self.text.append("\n");
            self.text.append(line);
        } else {
            self.text.append(line);
            assert(self@ =~= line@);
        }
    }

    /// What is reported of the log when the app-server is shut down: nothing of a blank one.
    pub fn report(&self) -> (report: Option<String>)
        ensures
            text::text_view(report) == if text::trimmed(self@).len() == 0 {
                None
            } else {
                Some("codex stderr:\n"@ + text::trimmed(self@))
            },
    {
        let written = trim(self.text.as_str());
        if written.is_empty() {
            return None;
        }
        let mut report = "codex stderr:\n".to_owned();
        report.append(written);
        Some(report)
    }
}

} // verus!
