use telegram_codex_bridge::commands::BotCommand;

#[test]
fn parses_new_command() {
    assert_eq!(BotCommand::parse("/new"), BotCommand::New);
}

#[test]
fn parses_use_command() {
    assert_eq!(
        BotCommand::parse("/use thread-123"),
        BotCommand::Use("thread-123".to_string())
    );
}

#[test]
fn parses_prompt() {
    assert_eq!(
        BotCommand::parse("hello"),
        BotCommand::Prompt("hello".to_string())
    );
}

#[test]
fn invalid_use_without_arg() {
    match BotCommand::parse("/use") {
        BotCommand::Invalid(_) => {}
        other => panic!("expected invalid, got {other:?}"),
    }
}

#[test]
fn parses_the_other_commands() {
    assert_eq!(BotCommand::parse("/start"), BotCommand::Start);
    assert_eq!(BotCommand::parse("/status"), BotCommand::Status);
    assert_eq!(BotCommand::parse("/stop now"), BotCommand::Stop);
    assert_eq!(BotCommand::parse("/deny"), BotCommand::Deny);
    assert_eq!(BotCommand::parse("/cwd"), BotCommand::Cwd(None));
    assert_eq!(
        BotCommand::parse("/cwd  a b "),
        BotCommand::Cwd(Some("a b".to_string()))
    );
    assert_eq!(BotCommand::parse("/approve"), BotCommand::Approve { for_session: false });
    assert_eq!(
        BotCommand::parse("/approve session"),
        BotCommand::Approve { for_session: true }
    );
}

#[test]
fn unknown_commands_are_answered_with_help() {
    let help = "/new\n/use <thread_id>\n/status\n/stop".to_string();
    assert_eq!(BotCommand::help(), help);
    for text in ["/", "/nothing", "/approve all", "/news", "/New"] {
        assert_eq!(BotCommand::parse(text), BotCommand::Invalid(help.clone()));
    }
}

#[test]
fn white_space_around_a_message_is_dropped() {
    assert_eq!(BotCommand::parse(" \n/new\u{3000}"), BotCommand::New);
    assert_eq!(
        BotCommand::parse("\t two words \n"),
        BotCommand::Prompt("two words".to_string())
    );
    assert_eq!(
        BotCommand::parse("/use\n thread-1"),
        BotCommand::Use("thread-1".to_string())
    );
    assert_eq!(BotCommand::parse(""), BotCommand::Prompt(String::new()));
}
