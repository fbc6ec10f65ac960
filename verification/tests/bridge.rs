use telegram_codex_bridge::app::{answer_text, conclude_turn, Action, App};
use telegram_codex_bridge::codex::{TurnEvent, TurnRunResult};
use telegram_codex_bridge::config::Config;
use telegram_codex_bridge::polling::{
    should_exit_after_poll_conflicts, PollReaction, PollState,
};
use telegram_codex_bridge::progress::{ProgressRenderer, RenderStep};
use telegram_codex_bridge::render::{
    approval_acknowledgement, finalize_text, render_cwd_history, render_help, render_status,
    summarize_pending_approval,
};
use telegram_codex_bridge::session::{
    ApprovalDecision, PendingApproval, SessionSnapshot, SharedSessionState,
};
use telegram_codex_bridge::telegram::{
    TelegramChat, TelegramMessage, TelegramUpdate, TelegramUser,
};
use telegram_codex_bridge::workdir::WorkDir;

fn dir(path: &str) -> WorkDir {
    WorkDir::new(path.to_string())
}

fn sample_config() -> Config {
    Config {
        telegram_bot_token: "token".to_string(),
        telegram_allowed_user_id: Some(1),
        codex_binary: "codex".to_string(),
        codex_cwd: dir("C:/work"),
        log_path: "bridge.log".to_string(),
        lock_path: "bridge.lock".to_string(),
        codex_model: Some("gpt-5.4".to_string()),
        codex_approval_policy: "never".to_string(),
        codex_sandbox_mode: None,
        poll_timeout_seconds: 30,
        update_limit: 50,
    }
}

type Bridge = App<u32, u32, u32>;

fn bridge() -> Bridge {
    App::new(sample_config(), vec![dir("C:/late"), dir("C:/early")]).expect("app")
}

fn message(kind: &str, from: Option<i64>, text: Option<&str>) -> TelegramMessage {
    TelegramMessage {
        message_id: 5,
        chat: TelegramChat { id: 77, kind: kind.to_string() },
        from: from.map(|id| TelegramUser { id }),
        text: text.map(|t| t.to_string()),
    }
}

fn say(app: &mut Bridge, text: &str) -> Action<u32, u32> {
    app.handle_message(message("private", Some(1), Some(text)))
}

fn sent(action: Action<u32, u32>) -> String {
    match action {
        Action::Send { chat_id, text } => {
            assert_eq!(chat_id, 77);
            text
        }
        other => panic!("expected a text, got {other:?}"),
    }
}

fn failed(action: Action<u32, u32>) -> String {
    match action {
        Action::Fail(reason) => reason,
        other => panic!("expected a failure, got {other:?}"),
    }
}

#[test]
fn finalize_prefers_assistant_text() {
    let result = TurnRunResult {
        assistant_text: "hello".to_string(),
        interrupted: false,
        last_status: Some("status".to_string()),
    };
    assert_eq!(finalize_text(&result, ""), "hello");
}

#[test]
fn finalize_falls_back_to_interrupt() {
    let result = TurnRunResult {
        assistant_text: String::new(),
        interrupted: true,
        last_status: Some("status".to_string()),
    };
    assert_eq!(finalize_text(&result, ""), "Turn interrupted.");
}

#[test]
fn finalize_falls_back_further() {
    let silent = |interrupted: bool, status: Option<&str>| TurnRunResult {
        assistant_text: String::new(),
        interrupted,
        last_status: status.map(|s| s.to_string()),
    };
    assert_eq!(finalize_text(&silent(true, None), "shown"), "shown");
    assert_eq!(finalize_text(&silent(false, Some("ls: completed")), ""), "ls: completed");
    assert_eq!(
        finalize_text(&silent(false, None), ""),
        "Turn completed with no assistant text."
    );
}

#[test]
fn render_status_shows_thread() {
    let mut session: SharedSessionState<u32, u32, u32> = SharedSessionState::default();
    session.set_active_thread("thread-123".to_string());
    session.set_active_cwd(dir("C:/work"));
    let snapshot = session.snapshot();
    let text = render_status(&snapshot, &sample_config());
    assert!(text.contains("thread-123"));
}

#[test]
fn render_cwd_history_lists_indexes() {
    let mut session: SharedSessionState<u32, u32, u32> = SharedSessionState::default();
    session.set_active_cwd(dir("C:/one"));
    session.set_active_cwd(dir("C:/two"));
    let snapshot = session.snapshot();
    let text = render_cwd_history(&snapshot);
    assert!(text.contains("0: C:/two"));
    assert!(text.contains("1: C:/one"));
    assert_eq!(
        text,
        "Current working directory\nC:/two\n\nHistory\n0: C:/two\n1: C:/one"
    );
}

#[test]
fn exits_after_three_poll_conflicts() {
    assert!(!should_exit_after_poll_conflicts(2));
    assert!(should_exit_after_poll_conflicts(3));
}

#[test]
fn summarize_pending_approval_uses_first_line() {
    assert_eq!(
        summarize_pending_approval("Codex approval required: command execution\ncommand: dir"),
        "Codex approval required: command execution"
    );
}

#[test]
fn long_summaries_are_cut() {
    let exact = "x".repeat(80);
    assert_eq!(summarize_pending_approval(&exact), exact);
    let long = "é".repeat(81);
    assert_eq!(summarize_pending_approval(&long), format!("{}...", "é".repeat(80)));
    assert_eq!(summarize_pending_approval(""), "");
    assert_eq!(summarize_pending_approval("  a \r\nb"), "a");
}

fn empty_snapshot() -> SessionSnapshot {
    SessionSnapshot::default()
}

#[test]
fn the_status_of_an_idle_bridge() {
    assert_eq!(
        render_status(&empty_snapshot(), &sample_config()),
        "Current status\ncwd: C:/work\nmodel: gpt-5.4\napproval_policy: never\nsandbox_mode: (default)\nthread: (none)\nturn_running: no\napproval_pending: no"
    );
    assert_eq!(
        render_cwd_history(&empty_snapshot()),
        "Current working directory\n(none)"
    );
}

#[test]
fn the_status_of_a_busy_bridge() {
    let mut config = sample_config();
    config.codex_model = None;
    config.codex_sandbox_mode = Some("read-only".to_string());
    let mut session: SharedSessionState<u32, u32, u32> = SharedSessionState::default();
    session.set_active_cwd(dir("/w"));
    session.set_active_thread("t".to_string());
    session.set_active_turn(1, 2);
    session.set_active_turn_id("u".to_string());
    session.set_pending_approval(PendingApproval::new("first\nsecond".to_string(), true, 3));
    assert_eq!(
        render_status(&session.snapshot(), &config),
        "Current status\ncwd: /w\nmodel: (default)\napproval_policy: never\nsandbox_mode: read-only\nthread: t\nturn_running: yes\nturn_id: u\napproval_pending: yes\napproval: first\ncwd_history:\n  0: /w"
    );
}

#[test]
fn the_help_ends_with_the_status() {
    let help = render_help(&empty_snapshot(), &sample_config());
    assert!(help.starts_with("Telegram Codex Bridge\n\n/new - start a new Codex thread\n"));
    assert!(help.contains("/deny - decline pending action\n\nCurrent status\n"));
    assert!(help.ends_with("approval_pending: no"));
}

#[test]
fn decisions_are_acknowledged() {
    assert_eq!(approval_acknowledgement(ApprovalDecision::Accept), "Approval accepted.");
    assert_eq!(
        approval_acknowledgement(ApprovalDecision::AcceptForSession),
        "Approval accepted for this session."
    );
    assert_eq!(approval_acknowledgement(ApprovalDecision::Decline), "Approval declined.");
    assert_eq!(approval_acknowledgement(ApprovalDecision::Cancel), "Approval cancelled.");
}

#[test]
fn a_new_bridge_knows_its_history() {
    let app = bridge();
    let snapshot = app.session.snapshot();
    assert_eq!(snapshot.active_cwd, Some(dir("C:/work")));
    assert_eq!(
        snapshot.cwd_history,
        vec![dir("C:/work"), dir("C:/late"), dir("C:/early")]
    );
}

#[test]
fn a_blank_token_makes_no_bridge() {
    let mut config = sample_config();
    config.telegram_bot_token = " \n".to_string();
    let app: Result<Bridge, _> = App::new(config, Vec::new());
    assert_eq!(app.err().expect("error").message(), "empty Telegram bot token");
}

#[test]
fn only_private_chats_are_served() {
    let mut app = bridge();
    assert!(matches!(
        app.handle_message(message("group", Some(1), Some("/new"))),
        Action::Ignore
    ));
    assert!(matches!(
        app.handle_message(message("channel", None, None)),
        Action::Ignore
    ));
}

#[test]
fn messages_name_their_author() {
    let mut app = bridge();
    assert_eq!(
        failed(app.handle_message(message("private", None, Some("/new")))),
        "telegram message missing from field"
    );
}

#[test]
fn strangers_are_turned_away() {
    let mut app = bridge();
    match app.handle_message(message("private", Some(2), Some("/use t"))) {
        Action::Dismiss { chat_id, text } => {
            assert_eq!(chat_id, 77);
            assert_eq!(text, "Unauthorized user.");
        }
        other => panic!("expected dismissal, got {other:?}"),
    }
    assert_eq!(app.session.active_thread_id(), None);
}

#[test]
fn anybody_is_served_where_no_user_is_named() {
    let mut config = sample_config();
    config.telegram_allowed_user_id = None;
    let mut app: Bridge = App::new(config, Vec::new()).expect("app");
    let action = app.handle_message(message("private", Some(42), Some("/use t")));
    assert_eq!(sent(action), "Switched to Codex thread:\nt");
}

#[test]
fn messages_need_text() {
    let mut app = bridge();
    for text in [None, Some(""), Some(" \n ")] {
        assert_eq!(
            sent(app.handle_message(message("private", Some(1), text))),
            "Only text messages are supported in this MVP."
        );
    }
}

#[test]
fn start_and_status_describe_the_bridge() {
    let mut app = bridge();
    assert!(sent(say(&mut app, "/start")).starts_with("Telegram Codex Bridge"));
    assert!(sent(say(&mut app, "/status")).starts_with("Current status\ncwd: C:/work\n"));
    assert_eq!(
        sent(say(&mut app, "/foo")),
        "Invalid command.\n/new\n/use <thread_id>\n/status\n/stop"
    );
}

#[test]
fn a_new_thread_gets_the_prompts() {
    let mut app = bridge();
    assert_eq!(sent(say(&mut app, "hello")), "No active thread. Run /new first.");
    match say(&mut app, "/new") {
        Action::StartThread { chat_id, text } => {
            assert_eq!(chat_id, 77);
            assert_eq!(text, "Creating new Codex thread...");
        }
        other => panic!("expected a thread, got {other:?}"),
    }
    assert_eq!(
        app.thread_started(Err("no codex".to_string())),
        "Failed to start Codex thread:\nno codex"
    );
    assert_eq!(app.session.active_thread_id(), None);
    assert_eq!(
        app.thread_started(Ok("thread-1".to_string())),
        "Started new Codex thread:\nthread-1"
    );
    match say(&mut app, "  hello\nworld ") {
        Action::StartTurn { chat_id, text, thread_id, prompt } => {
            assert_eq!(chat_id, 77);
            assert_eq!(text, "Thinking...");
            assert_eq!(thread_id, "thread-1");
            assert_eq!(prompt, "hello\nworld");
        }
        other => panic!("expected a turn, got {other:?}"),
    }
}

#[test]
fn a_running_turn_has_to_be_stopped_first() {
    let mut app = bridge();
    sent(say(&mut app, "/use t"));
    app.session.set_active_turn(11, 12);
    for text in ["/new", "/use other", "/cwd", "/cwd 1", "/cwd /tmp"] {
        assert_eq!(sent(say(&mut app, text)), "A turn is running. Use /stop first.");
    }
    assert_eq!(
        sent(say(&mut app, "more")),
        "A turn is already running. Use /stop first."
    );
    assert_eq!(app.session.active_thread_id().as_deref(), Some("t"));
    match say(&mut app, "/stop") {
        Action::Stop { cancellation, chat_id, text } => {
            assert_eq!(cancellation.cancel, Some(11));
            assert!(cancellation.resolution.is_none());
            assert_eq!(chat_id, 77);
            assert_eq!(text, "Stop requested.");
        }
        other => panic!("expected a stop, got {other:?}"),
    }
    match say(&mut app, "/stop") {
        Action::Stop { cancellation, text, .. } => {
            assert!(cancellation.cancel.is_none());
            assert_eq!(text, "No active turn.");
        }
        other => panic!("expected a stop, got {other:?}"),
    }
}

#[test]
fn the_working_directory_is_chosen_by_index() {
    let mut app = bridge();
    assert_eq!(
        sent(say(&mut app, "/cwd")),
        "Current working directory\nC:/work\n\nHistory\n0: C:/work\n1: C:/late\n2: C:/early"
    );
    assert_eq!(
        sent(say(&mut app, "/cwd 2")),
        "Switched working directory to:\nC:/early\n\nCurrent working directory\nC:/early\n\nHistory\n0: C:/early\n1: C:/work\n2: C:/late"
    );
    assert_eq!(
        failed(say(&mut app, "/cwd 3")),
        "No working directory found at history index 3."
    );
    assert_eq!(
        failed(say(&mut app, "/cwd +007")),
        "No working directory found at history index 7."
    );
}

#[test]
fn the_working_directory_is_chosen_by_path() {
    let mut app = bridge();
    let (base, input) = match say(&mut app, "/cwd sub dir") {
        Action::ProbeCwd { chat_id, base, input } => {
            assert_eq!(chat_id, 77);
            (base, input)
        }
        other => panic!("expected a path, got {other:?}"),
    };
    assert_eq!(base, dir("C:/work"));
    assert_eq!(input, "sub dir");
    let path = base.join(&input);
    assert_eq!(path.display(), "C:/work/sub dir");
    assert_eq!(path, dir("C:/work/sub dir"));
    assert_eq!(
        failed(app.cwd_probed(77, base.join("missing"), false)),
        "Working directory does not exist or is not a directory:\nC:/work/missing"
    );
    assert_eq!(app.session.active_cwd(), Some(dir("C:/work")));
    assert!(sent(app.cwd_probed(77, path, true))
        .starts_with("Switched working directory to:\nC:/work/sub dir\n\nCurrent"));
    assert_eq!(app.session.active_cwd(), Some(dir("C:/work/sub dir")));
}

#[test]
fn an_absolute_path_stands_for_itself() {
    assert_eq!(dir("/base").join("/other").display(), "/other");
    assert_eq!(dir("/base").join("other").display(), "/base/other");
    assert_eq!(dir("base").join("/other").display(), "/other");
    assert_eq!(dir("").join("other").display(), "other");
    assert_eq!(dir("/base/").join("a/b").display(), "/base/a/b");
    assert_eq!(WorkDir::resolved("/a", true, "/b/a".to_string()).display(), "/a");
    assert_eq!(WorkDir::resolved("a", false, "/b/a".to_string()).display(), "/b/a");
}

#[test]
fn an_index_too_large_is_read_as_a_path() {
    let mut app = bridge();
    assert!(matches!(
        say(&mut app, "/cwd 99999999999999999999999"),
        Action::ProbeCwd { .. }
    ));
    assert!(matches!(say(&mut app, "/cwd -1"), Action::ProbeCwd { .. }));
}

#[test]
fn approvals_are_answered_from_the_chat() {
    let mut app = bridge();
    assert_eq!(sent(say(&mut app, "/approve")), "No pending approval.");
    assert_eq!(sent(say(&mut app, "/deny")), "No pending approval.");
    app.session.set_pending_approval(PendingApproval::new("m".to_string(), false, 31));
    assert_eq!(
        sent(say(&mut app, "/approve session")),
        "This approval does not support session-wide approval. Use /approve or /deny."
    );
    match say(&mut app, "/approve") {
        Action::Answer { resolution, chat_id, delivered, expired } => {
            assert_eq!(resolution.responder, 31);
            assert_eq!(resolution.decision, ApprovalDecision::Accept);
            assert_eq!(chat_id, 77);
            assert_eq!(delivered, "Approval accepted.");
            assert_eq!(expired, "Pending approval already expired.");
        }
        other => panic!("expected an answer, got {other:?}"),
    }
    assert_eq!(sent(say(&mut app, "/approve")), "No pending approval.");
    app.session.set_pending_approval(PendingApproval::new("m".to_string(), true, 32));
    match say(&mut app, "/approve session") {
        Action::Answer { resolution, delivered, .. } => {
            assert_eq!(resolution.decision, ApprovalDecision::AcceptForSession);
            assert_eq!(delivered, "Approval accepted for this session.");
        }
        other => panic!("expected an answer, got {other:?}"),
    }
    app.session.set_pending_approval(PendingApproval::new("m".to_string(), true, 33));
    match say(&mut app, "/deny") {
        Action::Answer { resolution, delivered, expired, .. } => {
            assert_eq!(resolution.responder, 33);
            assert_eq!(resolution.decision, ApprovalDecision::Decline);
            assert_eq!(delivered, "Approval declined.");
            assert_eq!(expired, "No pending approval.");
        }
        other => panic!("expected an answer, got {other:?}"),
    }
}

#[test]
fn an_answer_may_come_too_late() {
    let texts = || ("delivered".to_string(), "expired".to_string());
    let (delivered, expired) = texts();
    assert_eq!(answer_text(true, delivered, expired), "delivered");
    let (delivered, expired) = texts();
    assert_eq!(answer_text(false, delivered, expired), "expired");
}

#[test]
fn stopping_answers_the_approval() {
    let mut app = bridge();
    app.session.set_active_turn(1, 2);
    app.session.set_pending_approval(PendingApproval::new("m".to_string(), false, 40));
    match say(&mut app, "/stop") {
        Action::Stop { cancellation, .. } => {
            let resolution = cancellation.resolution.expect("resolution");
            assert_eq!(resolution.responder, 40);
            assert_eq!(resolution.decision, ApprovalDecision::Cancel);
        }
        other => panic!("expected a stop, got {other:?}"),
    }
}

#[test]
fn events_of_a_turn_reach_the_chat() {
    let mut app = bridge();
    let mut progress = ProgressRenderer::new(77, 8);
    let reply = app.handle_turn_event(&mut progress, TurnEvent::ThreadReady("t2".to_string()));
    assert!(!reply.redraw && reply.message.is_none() && reply.resolution.is_none());
    assert_eq!(app.session.active_thread_id().as_deref(), Some("t2"));
    app.handle_turn_event(&mut progress, TurnEvent::TurnStarted("u2".to_string()));
    assert_eq!(app.session.snapshot().active_turn_id.as_deref(), Some("u2"));
    let reply = app.handle_turn_event(&mut progress, TurnEvent::Status("ls: completed".to_string()));
    assert!(reply.redraw);
    assert_eq!(progress.current_text(), "ls: completed");
    let reply = app.handle_turn_event(&mut progress, TurnEvent::Status("cat: failed".to_string()));
    assert!(!reply.redraw);
    assert_eq!(progress.current_text(), "ls: completed");
    let reply = app.handle_turn_event(&mut progress, TurnEvent::AssistantDelta("Hi".to_string()));
    assert!(reply.redraw);
    let reply = app.handle_turn_event(&mut progress, TurnEvent::AssistantDelta("Hi".to_string()));
    assert!(!reply.redraw);
    assert_eq!(progress.current_text(), "Hi");
}

#[test]
fn an_approval_request_replaces_the_previous_one() {
    let mut app = bridge();
    let mut progress = ProgressRenderer::new(77, 8);
    let reply = app.handle_turn_event(
        &mut progress,
        TurnEvent::ApprovalRequested(PendingApproval::new("first".to_string(), false, 1)),
    );
    assert!(reply.redraw);
    assert_eq!(reply.message.as_deref(), Some("first"));
    assert!(reply.resolution.is_none());
    assert_eq!(progress.current_text(), "Waiting for approval...");
    let reply = app.handle_turn_event(
        &mut progress,
        TurnEvent::ApprovalRequested(PendingApproval::new("second".to_string(), true, 2)),
    );
    assert!(!reply.redraw);
    let resolution = reply.resolution.expect("resolution");
    assert_eq!(resolution.responder, 1);
    assert_eq!(resolution.decision, ApprovalDecision::Cancel);
}

#[test]
fn a_turn_is_concluded_with_its_last_words() {
    let mut progress = ProgressRenderer::new(77, 8);
    progress.update("partial");
    conclude_turn(
        &mut progress,
        Ok(TurnRunResult {
            assistant_text: String::new(),
            interrupted: true,
            last_status: None,
        }),
    );
    assert_eq!(progress.current_text(), "partial");
    let mut progress = ProgressRenderer::new(77, 8);
    conclude_turn(&mut progress, Err("boom".to_string()));
    assert_eq!(progress.current_text(), "Turn failed:\nboom");
    assert!(!progress.update("late"));
}

#[test]
fn progress_is_rendered_in_time() {
    let mut progress = ProgressRenderer::new(3, 4);
    assert!(matches!(progress.run(true), RenderStep::WaitForChange));
    assert!(progress.update("one"));
    match progress.run(false) {
        RenderStep::Edit { chat_id, message_id, text } => {
            assert_eq!((chat_id, message_id), (3, 4));
            assert_eq!(text, "one");
            assert!(!progress.record_edit(text));
        }
        other => panic!("expected an edit, got {other:?}"),
    }
    assert!(matches!(progress.run(true), RenderStep::WaitForChange));
    assert!(progress.update("two"));
    assert!(!progress.update("two"));
    assert!(matches!(progress.run(false), RenderStep::WaitForTime));
    assert!(matches!(progress.run(true), RenderStep::Edit { text, .. } if text == "two"));
    progress.finish("last");
    match progress.run(false) {
        RenderStep::Edit { text, .. } => {
            assert_eq!(text, "last");
            assert!(progress.record_edit(text));
        }
        other => panic!("expected an edit, got {other:?}"),
    }
    assert!(matches!(progress.run(false), RenderStep::Finished));
}

#[test]
fn an_edit_overtaken_by_new_text_is_not_the_last() {
    let mut progress = ProgressRenderer::new(3, 4);
    progress.update("one");
    progress.finish("two");
    assert!(!progress.record_edit("one".to_string()));
    assert!(matches!(progress.run(false), RenderStep::Edit { text, .. } if text == "two"));
}

#[test]
fn a_final_text_that_is_shown_already_is_not_sent_again() {
    let mut progress = ProgressRenderer::new(3, 4);
    progress.update("same");
    progress.record_edit("same".to_string());
    progress.finish("same");
    assert!(matches!(progress.run(true), RenderStep::Finished));
}

const CONFLICT: &str = "telegram getUpdates failed: Conflict: terminated by other getUpdates request; make sure that only one bot instance is running";

#[test]
fn poll_conflicts_are_waited_out_and_given_up() {
    let mut state = PollState::new();
    for _ in 0..2 {
        match state.poll_failed(CONFLICT, 30) {
            PollReaction::Retry { delay_seconds, notice } => {
                assert_eq!(delay_seconds, 32);
                assert_eq!(
                    notice,
                    "telegram polling conflict: another poller is using the same bot token"
                );
            }
            other => panic!("expected a retry, got {other:?}"),
        }
    }
    assert_eq!(state.conflicts(), 2);
    match state.poll_failed(CONFLICT, u64::MAX) {
        PollReaction::GiveUp(reason) => {
            assert!(reason.starts_with("telegram polling conflict persisted after 3 attempts; "));
            assert!(reason.ends_with("rotate TELEGRAM_BOT_TOKEN."));
        }
        other => panic!("expected to give up, got {other:?}"),
    }
}

#[test]
fn success_forgets_poll_conflicts() {
    let mut state = PollState::new();
    state.poll_failed(CONFLICT, 1);
    state.poll_failed(CONFLICT, 1);
    state.poll_succeeded();
    assert!(matches!(state.poll_failed(CONFLICT, 1), PollReaction::Retry { .. }));
}

#[test]
fn other_poll_errors_are_retried_soon() {
    let mut state = PollState::new();
    for _ in 0..5 {
        match state.poll_failed("timeout", u64::MAX) {
            PollReaction::Retry { delay_seconds, notice } => {
                assert_eq!(delay_seconds, 2);
                assert_eq!(notice, "telegram polling failed: timeout");
            }
            other => panic!("expected a retry, got {other:?}"),
        }
    }
}

#[test]
fn updates_are_asked_for_once() {
    let mut state = PollState::new();
    assert_eq!(state.offset(), None);
    state.take_update(&TelegramUpdate { update_id: 41, message: None });
    assert_eq!(state.offset(), Some(42));
}
