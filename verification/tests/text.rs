use telegram_codex_bridge::dto::{get_config, get_status, mask_token};
use telegram_codex_bridge::config::{Config, Environment, FileConfig};
use telegram_codex_bridge::session::{PendingApproval, SharedSessionState};
use telegram_codex_bridge::text::{
    contains, decimal_text, ends_with, is_whitespace, leading_line, parse_signed, parse_unsigned,
    same_text, signed_decimal_text, split_first_word, starts_with, trim, trim_end,
};
use telegram_codex_bridge::workdir::WorkDir;

#[test]
fn white_space_is_that_of_unicode() {
    for code in 0..=0x3100u32 {
        if let Some(c) = char::from_u32(code) {
            assert_eq!(is_whitespace(c), c.is_whitespace(), "{code:x}");
        }
    }
}

#[test]
fn text_is_trimmed() {
    for s in ["", " ", "a", " a b ", "\u{a0}é\u{2003}", "\n\n"] {
        assert_eq!(trim(s), s.trim());
        assert_eq!(trim_end(s), s.trim_end());
    }
}

#[test]
fn words_and_lines_are_split() {
    assert_eq!(split_first_word("/use a b"), ("/use", "a b"));
    assert_eq!(split_first_word("/use"), ("/use", ""));
    assert_eq!(split_first_word("/use  x"), ("/use", " x"));
    assert_eq!(leading_line("a\nb"), "a");
    assert_eq!(leading_line("a"), "a");
    assert_eq!(leading_line(""), "");
}

#[test]
fn parts_are_found() {
    assert!(contains("abcabd", "abd"));
    assert!(!contains("abcab", "abd"));
    assert!(contains("", ""));
    assert!(starts_with("rollout-x", "rollout-"));
    assert!(!starts_with("roll", "rollout-"));
    assert!(ends_with("x.jsonl", ".jsonl"));
    assert!(!ends_with("jsonl", ".jsonl"));
    assert!(same_text("é", "é"));
    assert!(!same_text("é", "e"));
}

#[test]
fn numerals_are_written_and_read() {
    for n in [0, 9, 10, 12345, u64::MAX] {
        assert_eq!(decimal_text(n), n.to_string());
        assert_eq!(parse_unsigned(&n.to_string(), u64::MAX), Some(n));
    }
    for n in [i64::MIN, -10, -1, 0, 7, i64::MAX] {
        assert_eq!(signed_decimal_text(n), n.to_string());
        assert_eq!(parse_signed(&n.to_string()), Some(n));
    }
    assert_eq!(parse_unsigned("007", 10), Some(7));
    assert_eq!(parse_unsigned("11", 10), None);
    for s in ["", "+", "-", "-1", "1 ", "1a", "١"] {
        assert_eq!(parse_unsigned(s, u64::MAX), s.parse::<u64>().ok());
    }
    for s in ["", "+", "-", "+5", "-0", "--1", "-9223372036854775809"] {
        assert_eq!(parse_signed(s), s.parse::<i64>().ok());
    }
}

#[test]
fn tokens_are_masked() {
    assert_eq!(mask_token("123456:abcdef"), "1234…cdef");
    assert_eq!(mask_token("123456789"), "1234…6789");
    assert_eq!(mask_token("12345678"), "****");
    assert_eq!(mask_token(""), "****");
    assert_eq!(mask_token("éé…éé"), "éé…éé");
}

#[test]
fn the_session_is_shown_in_the_window() {
    let mut session: SharedSessionState<u32, u32, u32> = SharedSessionState::default();
    session.set_active_cwd(WorkDir::new("/a".to_string()));
    session.set_active_cwd(WorkDir::new("/b".to_string()));
    session.set_active_thread("t".to_string());
    session.set_active_turn(1, 2);
    session.set_pending_approval(PendingApproval::new("m".to_string(), true, 3));
    let status = get_status(session.snapshot());
    assert_eq!(status.active_thread_id.as_deref(), Some("t"));
    assert_eq!(status.active_turn_id, None);
    assert!(status.active_turn_running);
    assert_eq!(status.active_cwd.as_deref(), Some("/b"));
    assert_eq!(status.cwd_history, vec!["/b", "/a"]);
    assert_eq!(status.pending_approval_message.as_deref(), Some("m"));
    assert!(status.pending_approval_supports_session);
}

#[test]
fn the_configuration_is_shown_without_its_token() {
    let mut file = FileConfig::default();
    file.telegram_bot_token = Some("123456:abcdef".to_string());
    file.codex_cwd = Some("/work".to_string());
    file.telegram_allowed_user_id = Some(5);
    let env = Environment {
        telegram_bot_token: None,
        telegram_allowed_user_id: None,
        codex_binary: None,
        codex_cwd: None,
        codex_model: Some("m".to_string()),
        codex_approval_policy: None,
        codex_sandbox_mode: None,
        log_path: None,
        lock_path: None,
        poll_timeout_seconds: None,
        update_limit: None,
    };
    let shown = get_config(&Config::load(env, file, true).expect("config"));
    assert_eq!(shown.telegram_bot_token_masked, "1234…cdef");
    assert_eq!(shown.telegram_allowed_user_id, Some(5));
    assert_eq!(shown.codex_binary, "codex");
    assert_eq!(shown.codex_cwd, "/work");
    assert_eq!(shown.codex_model.as_deref(), Some("m"));
    assert_eq!(shown.codex_approval_policy, "never");
    assert_eq!(shown.codex_sandbox_mode, None);
}
