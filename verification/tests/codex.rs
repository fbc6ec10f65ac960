use telegram_codex_bridge::codex::{
    decision_answer, decision_or_cancel, handle_server_request, started_thread, status_of_decision, ApprovalKind,
    CodexClient, ServerReaction, StderrLog, TurnEvent, TurnState, TurnStep,
};
use telegram_codex_bridge::json::Json;
use telegram_codex_bridge::rpc::{
    format_rpc_error, join_error_words, parse_rpc_message, AppServerProcess, Awaited, Incoming,
    RpcError, RpcMessage,
};
use telegram_codex_bridge::session::ApprovalDecision;
use telegram_codex_bridge::workdir::WorkDir;

fn client() -> CodexClient {
    CodexClient::new(
        "codex".to_string(),
        WorkDir::new("/work".to_string()),
        Some("gpt-5.4".to_string()),
        "never".to_string(),
        None,
    )
}

fn json(text: &str) -> Json {
    Json::parse(text).expect("json")
}

fn turn() -> (AppServerProcess, TurnState) {
    let mut process = AppServerProcess::new();
    let (_, turn) = client().run_turn(&mut process, "thread-1", "hello");
    (process, turn)
}

fn feed(turn: &mut TurnState, line: &str) -> TurnStep<u32> {
    turn.advance(AppServerProcess::next_message(Some(line)))
}

#[test]
fn parses_response_message() {
    let message = parse_rpc_message(r#"{"id":1,"result":{"ok":true}}"#)
        .expect("parse")
        .expect("message");
    match message {
        RpcMessage::Response { id, .. } => assert_eq!(id, 1),
        _ => panic!("expected response"),
    }
}

#[test]
fn parses_notification_message() {
    let message = parse_rpc_message(r#"{"method":"turn/started","params":{"turn":{"id":"t1"}}}"#)
        .expect("parse")
        .expect("message");
    match message {
        RpcMessage::Notification { method, .. } => assert_eq!(method, "turn/started"),
        _ => panic!("expected notification"),
    }
}

#[test]
fn agent_delta_appends_text() {
    let (_, mut turn) = turn();
    let event: Option<TurnEvent<u32>> =
        turn.handle_notification("item/agentMessage/delta", &json(r#"{"delta":"hello"}"#));
    assert!(matches!(event, Some(TurnEvent::AssistantDelta(text)) if text == "hello"));
    assert_eq!(turn.assistant_text(), "hello");
}

#[test]
fn parses_server_request() {
    let message = parse_rpc_message(r#"{"id":7,"method":"item/x","params":[1]}"#)
        .expect("parse")
        .expect("message");
    match message {
        RpcMessage::ServerRequest { id, method, params } => {
            assert_eq!(id, 7);
            assert_eq!(method, "item/x");
            assert_eq!(params.to_text(), "[1]");
        }
        _ => panic!("expected request"),
    }
}

#[test]
fn lines_that_are_no_messages_are_skipped() {
    assert!(matches!(parse_rpc_message("not json"), Ok(None)));
    assert!(matches!(parse_rpc_message("{}"), Ok(None)));
    assert!(matches!(parse_rpc_message("[1,2]"), Ok(None)));
    assert!(matches!(parse_rpc_message(r#"{"id":-1}"#), Ok(None)));
    assert!(matches!(parse_rpc_message(r#"{"id":1.5}"#), Ok(None)));
}

#[test]
fn an_id_that_is_no_number_makes_a_notification() {
    match parse_rpc_message(r#"{"id":"x","method":"m"}"#) {
        Ok(Some(RpcMessage::Notification { method, params })) => {
            assert_eq!(method, "m");
            assert!(params.is_null());
        }
        _ => panic!("expected notification"),
    }
}

#[test]
fn malformed_errors_are_reported() {
    assert!(parse_rpc_message(r#"{"id":1,"error":null}"#).is_err());
    assert!(parse_rpc_message(r#"{"id":1,"error":{}}"#).is_err());
    assert!(parse_rpc_message(r#"{"id":1,"error":{"message":1}}"#).is_err());
    assert!(parse_rpc_message(r#"{"id":1,"error":{"message":"m","code":1.5}}"#).is_err());
    assert!(parse_rpc_message(r#"{"id":1,"error":{"message":"m","code":"1"}}"#).is_err());
    assert!(parse_rpc_message(r#"{"id":1,"error":[]}"#).is_err());
    assert!(parse_rpc_message(r#"{"id":1,"error":["m",1,2,3]}"#).is_err());
    assert!(parse_rpc_message(r#"{"id":1,"method":"m","error":7}"#).is_err());
}

#[test]
fn errors_may_be_objects_or_arrays() {
    for line in [
        r#"{"id":1,"error":{"message":"m","code":-3,"data":{"a":1}}}"#,
        r#"{"id":1,"error":["m",-3,{"a":1}]}"#,
    ] {
        match parse_rpc_message(line) {
            Ok(Some(RpcMessage::Response { error: Some(error), .. })) => {
                assert_eq!(format_rpc_error(&error), r#"m | code -3 | {"a":1}"#);
            }
            _ => panic!("expected an error"),
        }
    }
}

#[test]
fn error_words_leave_out_what_is_missing() {
    let bare = RpcError { message: "boom".to_string(), code: None, data: None };
    assert_eq!(format_rpc_error(&bare), "boom");
    let coded = RpcError { message: "boom".to_string(), code: Some(12), data: None };
    assert_eq!(format_rpc_error(&coded), "boom | code 12");
    assert_eq!(
        join_error_words("boom", None, Some("[1]".to_string())),
        "boom | [1]"
    );
    match parse_rpc_message(r#"{"id":1,"error":{"message":"m","code":null,"data":null}}"#) {
        Ok(Some(RpcMessage::Response { error: Some(error), .. })) => {
            assert_eq!(format_rpc_error(&error), "m");
        }
        _ => panic!("expected an error"),
    }
}

#[test]
fn requests_are_numbered_lines() {
    let mut process = AppServerProcess::new();
    let first = process.send_request("a", Json::Null);
    let second = process.send_request("b", json(r#"{"x":"y\nz"}"#));
    assert_eq!(first.id, 1);
    assert_eq!(first.line, "{\"id\":1,\"method\":\"a\",\"params\":null}\n");
    assert_eq!(second.id, 2);
    assert_eq!(
        second.line,
        "{\"id\":2,\"method\":\"b\",\"params\":{\"x\":\"y\\nz\"}}\n"
    );
    assert_eq!(process.next_id(), 3);
}

#[test]
fn what_is_sent_reads_back() {
    let mut process = AppServerProcess::new();
    let request = process.send_request("m", json(r#"{"a":[1,-2,null,true,"\n"]}"#));
    match AppServerProcess::next_message(Some(request.line.trim_end())) {
        Incoming::Message(RpcMessage::ServerRequest { id, method, params }) => {
            assert_eq!(id, 1);
            assert_eq!(method, "m");
            assert_eq!(params.to_text(), r#"{"a":[1,-2,null,true,"\n"]}"#);
        }
        _ => panic!("expected request"),
    }
    let line = process.send_result(5, Json::Bool(true));
    match AppServerProcess::next_message(Some(line.trim_end())) {
        Incoming::Message(RpcMessage::Response { id, result, error }) => {
            assert_eq!(id, 5);
            assert_eq!(result.expect("result").to_text(), "true");
            assert!(error.is_none());
        }
        _ => panic!("expected response"),
    }
    let line = process.send_notification("initialized");
    assert_eq!(line, "{\"method\":\"initialized\"}\n");
}

#[test]
fn the_first_request_introduces_the_bridge() {
    let mut process = AppServerProcess::new();
    let request = process.initialize("0.1.1");
    assert_eq!(
        request.line,
        "{\"id\":1,\"method\":\"initialize\",\"params\":{\"capabilities\":{\"experimentalApi\":false},\"clientInfo\":{\"name\":\"telegram-codex-bridge\",\"version\":\"0.1.1\"}}}\n"
    );
}

#[test]
fn a_response_is_waited_for() {
    let other = AppServerProcess::next_message(Some(r#"{"id":1,"result":1}"#));
    assert!(matches!(AppServerProcess::await_response(2, other), Awaited::NotYet));
    let noise = AppServerProcess::next_message(Some("noise"));
    assert!(matches!(AppServerProcess::await_response(2, noise), Awaited::NotYet));
    let news = AppServerProcess::next_message(Some(r#"{"method":"m"}"#));
    assert!(matches!(AppServerProcess::await_response(2, news), Awaited::NotYet));
    let empty = AppServerProcess::next_message(Some(r#"{"id":2}"#));
    assert!(matches!(AppServerProcess::await_response(2, empty), Awaited::Result(Json::Null)));
    let failed = AppServerProcess::next_message(Some(
        r#"{"id":2,"result":1,"error":{"message":"no"}}"#,
    ));
    match AppServerProcess::await_response(2, failed) {
        Awaited::Failed(reason) => assert_eq!(reason, "no"),
        _ => panic!("expected failure"),
    }
    match AppServerProcess::await_response(2, AppServerProcess::next_message(None)) {
        Awaited::Failed(reason) => assert_eq!(reason, "app-server closed before response 2"),
        _ => panic!("expected failure"),
    }
    let malformed = AppServerProcess::next_message(Some(r#"{"id":2,"error":1}"#));
    assert!(matches!(AppServerProcess::await_response(2, malformed), Awaited::Malformed));
}

#[test]
fn a_thread_is_started_with_the_settings() {
    let mut process = AppServerProcess::new();
    let request = client().start_thread(&mut process);
    assert_eq!(
        request.line,
        "{\"id\":1,\"method\":\"thread/start\",\"params\":{\"approvalPolicy\":\"never\",\"cwd\":\"/work\",\"experimentalRawEvents\":false,\"model\":\"gpt-5.4\",\"persistExtendedHistory\":false}}\n"
    );
    let confined = CodexClient::new(
        "codex".to_string(),
        WorkDir::new("/work".to_string()),
        None,
        "on-request".to_string(),
        Some("workspace-write".to_string()),
    );
    assert_eq!(
        confined.start_thread(&mut process).line,
        "{\"id\":2,\"method\":\"thread/start\",\"params\":{\"approvalPolicy\":\"on-request\",\"cwd\":\"/work\",\"experimentalRawEvents\":false,\"model\":null,\"persistExtendedHistory\":false,\"sandbox\":\"workspace-write\"}}\n"
    );
    assert_eq!(
        started_thread(&json(r#"{"thread":{"id":"t-9"}}"#)),
        Ok("t-9".to_string())
    );
    assert_eq!(
        started_thread(&json(r#"{"thread":{"id":9}}"#)),
        Err("thread/start response missing thread id".to_string())
    );
}

#[test]
fn a_turn_is_started_in_the_current_directory() {
    let mut client = CodexClient::new(
        "codex".to_string(),
        WorkDir::new("/work".to_string()),
        None,
        "on-request".to_string(),
        Some("read-only".to_string()),
    );
    client.set_cwd(WorkDir::new("/other".to_string()));
    let mut process = AppServerProcess::new();
    let (request, turn) = client.duplicate().run_turn(&mut process, "thread-1", "say \"hi\"");
    assert_eq!(
        request.line,
        "{\"id\":1,\"method\":\"turn/start\",\"params\":{\"approvalPolicy\":\"on-request\",\"cwd\":\"/other\",\"input\":[{\"text\":\"say \\\"hi\\\"\",\"text_elements\":[],\"type\":\"text\"}],\"model\":null,\"threadId\":\"thread-1\"}}\n"
    );
    assert_eq!(client.binary(), "codex");
    assert!(!turn.is_done());
    assert_eq!(turn.assistant_text(), "");
}

#[test]
fn a_turn_runs_from_its_response_to_its_completion() {
    let (_, mut turn) = turn();
    assert!(matches!(
        feed(&mut turn, r#"{"id":1,"result":{"turn":{"id":"turn-1"}}}"#),
        TurnStep::Go(Some(TurnEvent::TurnStarted(id))) if id == "turn-1"
    ));
    assert!(matches!(
        feed(&mut turn, r#"{"method":"thread/started","params":{"thread":{"id":"thread-2"}}}"#),
        TurnStep::Go(Some(TurnEvent::ThreadReady(id))) if id == "thread-2"
    ));
    assert!(matches!(
        feed(&mut turn, r#"{"method":"item/agentMessage/delta","params":{"delta":"Hel"}}"#),
        TurnStep::Go(Some(TurnEvent::AssistantDelta(text))) if text == "Hel"
    ));
    assert!(matches!(
        feed(&mut turn, r#"{"method":"item/agentMessage/delta","params":{"delta":"lo"}}"#),
        TurnStep::Go(Some(TurnEvent::AssistantDelta(text))) if text == "Hello"
    ));
    assert!(matches!(
        feed(
            &mut turn,
            r#"{"method":"item/completed","params":{"item":{"type":"agentMessage","text":"Hello!"}}}"#
        ),
        TurnStep::Go(Some(TurnEvent::AssistantDelta(text))) if text == "Hello!"
    ));
    assert!(!turn.is_done());
    assert!(matches!(
        feed(&mut turn, r#"{"method":"turn/completed","params":{"turn":{"status":"completed"}}}"#),
        TurnStep::Go(None)
    ));
    assert!(turn.is_done());
    let result = turn.finish();
    assert_eq!(result.assistant_text, "Hello!");
    assert!(!result.interrupted);
    assert_eq!(result.last_status, None);
}

#[test]
fn executed_commands_are_the_status() {
    let (_, mut turn) = turn();
    assert!(matches!(
        feed(
            &mut turn,
            r#"{"method":"item/completed","params":{"item":{"type":"commandExecution","command":"ls","status":"failed"}}}"#
        ),
        TurnStep::Go(Some(TurnEvent::Status(text))) if text == "ls: failed"
    ));
    assert!(matches!(
        feed(
            &mut turn,
            r#"{"method":"item/completed","params":{"item":{"type":"commandExecution"}}}"#
        ),
        TurnStep::Go(Some(TurnEvent::Status(text))) if text == "command: completed"
    ));
    assert!(matches!(
        feed(&mut turn, r#"{"method":"item/completed","params":{"item":{"type":"other"}}}"#),
        TurnStep::Go(None)
    ));
    assert_eq!(turn.finish().last_status.as_deref(), Some("command: completed"));
}

#[test]
fn codex_may_interrupt_a_turn() {
    let (_, mut turn) = turn();
    feed(&mut turn, r#"{"method":"turn/completed","params":{"turn":{"status":"interrupted"}}}"#);
    assert!(turn.is_done());
    assert!(turn.finish().interrupted);
}

#[test]
fn a_failed_request_fails_the_turn() {
    let (_, mut turn) = turn();
    assert!(matches!(
        feed(&mut turn, r#"{"id":9,"error":{"message":"other"}}"#),
        TurnStep::Go(None)
    ));
    assert!(matches!(
        feed(&mut turn, r#"{"id":1,"error":{"message":"bad","code":5}}"#),
        TurnStep::Failed(reason) if reason == "bad | code 5"
    ));
    assert!(matches!(
        feed(&mut turn, r#"{"id":1,"error":5}"#),
        TurnStep::Malformed
    ));
    let step: TurnStep<u32> = turn.advance(AppServerProcess::next_message(None));
    assert!(matches!(step, TurnStep::Over));
}

#[test]
fn a_stopped_turn_is_interrupted_by_its_id() {
    let (mut process, mut turn) = turn();
    feed(&mut turn, r#"{"method":"turn/started","params":{"turn":{"id":"turn-7"}}}"#);
    assert!(turn.interrupt(&mut process).is_none());
    assert!(!turn.stop_requested());
    turn.request_stop();
    let request = turn.interrupt(&mut process).expect("request");
    assert_eq!(
        request.line,
        "{\"id\":2,\"method\":\"turn/interrupt\",\"params\":{\"threadId\":\"thread-1\",\"turnId\":\"turn-7\"}}\n"
    );
    assert!(turn.stop_requested());
    assert!(turn.interrupt(&mut process).is_none());
    feed(&mut turn, r#"{"method":"item/agentMessage/delta","params":{"delta":"x"}}"#);
    feed(&mut turn, r#"{"method":"turn/completed","params":{"turn":{"status":"completed"}}}"#);
    assert!(turn.finish().interrupted);
}

#[test]
fn a_turn_stopped_before_its_id_is_known_is_interrupted_once_it_is() {
    for line in [
        r#"{"method":"turn/started","params":{"turn":{"id":"turn-8"}}}"#,
        r#"{"id":1,"result":{"turn":{"id":"turn-8"}}}"#,
    ] {
        let (mut process, mut turn) = turn();
        turn.request_stop();
        assert!(turn.interrupt(&mut process).is_none());
        assert_eq!(process.next_id(), 2);
        feed(&mut turn, line);
        let request = turn.interrupt(&mut process).expect("request");
        assert_eq!(
            request.line,
            "{\"id\":2,\"method\":\"turn/interrupt\",\"params\":{\"threadId\":\"thread-1\",\"turnId\":\"turn-8\"}}\n"
        );
        feed(&mut turn, line);
        assert!(turn.interrupt(&mut process).is_none());
        assert_eq!(process.next_id(), 3);
        assert!(turn.finish().interrupted);
    }
}

#[test]
fn a_completed_turn_is_not_interrupted() {
    let (mut process, mut turn) = turn();
    turn.request_stop();
    feed(&mut turn, r#"{"method":"turn/completed"}"#);
    feed(&mut turn, r#"{"method":"turn/started","params":{"turn":{"id":"turn-9"}}}"#);
    assert!(turn.interrupt(&mut process).is_none());
    assert!(turn.finish().interrupted);
}

#[test]
fn a_dropped_asker_is_told_to_cancel() {
    assert_eq!(decision_or_cancel(None), ApprovalDecision::Cancel);
    assert_eq!(decision_or_cancel(Some(ApprovalDecision::Accept)), ApprovalDecision::Accept);
}

#[test]
fn approvals_are_asked_for() {
    match handle_server_request(
        "item/commandExecution/requestApproval",
        &json(r#"{"command":"dir","availableDecisions":["accept","acceptForSession"]}"#),
    ) {
        ServerReaction::AskApproval { kind, message, allow_accept_for_session } => {
            assert_eq!(kind, ApprovalKind::CommandExecution);
            assert_eq!(message, "Codex approval required: command execution\ncommand: dir");
            assert!(allow_accept_for_session);
        }
        _ => panic!("expected approval"),
    }
    match handle_server_request("item/fileChange/requestApproval", &json("{}")) {
        ServerReaction::AskApproval { kind, message, allow_accept_for_session } => {
            assert_eq!(kind, ApprovalKind::FileChange);
            assert_eq!(message, "Codex approval required: file change");
            assert!(!allow_accept_for_session);
        }
        _ => panic!("expected approval"),
    }
}

#[test]
fn other_requests_are_answered_at_once() {
    match handle_server_request("item/tool/requestUserInput", &json("{}")) {
        ServerReaction::Answer { result, status } => {
            assert_eq!(result.to_text(), r#"{"answers":{}}"#);
            assert_eq!(
                status,
                "Codex requested extra user input; this MVP does not support it."
            );
        }
        _ => panic!("expected answer"),
    }
    match handle_server_request("item/unknown", &json("{}")) {
        ServerReaction::Decline { result, otherwise } => {
            assert_eq!(result.to_text(), r#"{"decision":"decline"}"#);
            assert_eq!(otherwise.to_text(), "{}");
        }
        _ => panic!("expected refusal"),
    }
    let (_, mut turn) = turn();
    assert!(matches!(
        feed(&mut turn, r#"{"id":3,"method":"item/unknown"}"#),
        TurnStep::React { id: 3, reaction: ServerReaction::Decline { .. } }
    ));
}

#[test]
fn decisions_have_names() {
    assert_eq!(decision_answer(ApprovalDecision::Accept).to_text(), r#"{"decision":"accept"}"#);
    assert_eq!(
        decision_answer(ApprovalDecision::AcceptForSession).to_text(),
        r#"{"decision":"acceptForSession"}"#
    );
    assert_eq!(decision_answer(ApprovalDecision::Decline).to_text(), r#"{"decision":"decline"}"#);
    assert_eq!(decision_answer(ApprovalDecision::Cancel).to_text(), r#"{"decision":"cancel"}"#);
}

#[test]
fn a_refusal_is_reported() {
    assert_eq!(
        status_of_decision(ApprovalKind::CommandExecution, ApprovalDecision::Decline).as_deref(),
        Some("Codex requested command approval and it was declined.")
    );
    assert_eq!(
        status_of_decision(ApprovalKind::FileChange, ApprovalDecision::Decline).as_deref(),
        Some("Codex requested file-change approval and it was declined.")
    );
    assert_eq!(status_of_decision(ApprovalKind::FileChange, ApprovalDecision::Accept), None);
}

#[test]
fn standard_error_is_reported_unless_blank() {
    let mut log = StderrLog::new();
    assert_eq!(log.report(), None);
    log.push_line("");
    log.push_line("  ");
    assert_eq!(log.report(), None);
    log.push_line("one");
    log.push_line("two");
    assert_eq!(log.report().as_deref(), Some("codex stderr:\none\ntwo"));
}
