use telegram_codex_bridge::config::{Config, ConfigError, Environment, FileConfig};

fn environment() -> Environment {
    Environment {
        telegram_bot_token: None,
        telegram_allowed_user_id: None,
        codex_binary: None,
        codex_cwd: None,
        codex_model: None,
        codex_approval_policy: None,
        codex_sandbox_mode: None,
        log_path: None,
        lock_path: None,
        poll_timeout_seconds: None,
        update_limit: None,
    }
}

fn text(s: &str) -> Option<String> {
    Some(s.to_string())
}

#[test]
fn defaults_fill_what_is_left_out() {
    let mut env = environment();
    env.telegram_bot_token = text("123:abc");
    env.codex_cwd = text("/work");
    let config = Config::load(env, FileConfig::default(), true).expect("config");
    assert_eq!(config.telegram_bot_token, "123:abc");
    assert_eq!(config.telegram_allowed_user_id, None);
    assert_eq!(config.codex_binary, "codex");
    assert_eq!(config.codex_cwd.display(), "/work");
    assert_eq!(config.codex_model, None);
    assert_eq!(config.codex_approval_policy, "never");
    assert_eq!(config.codex_sandbox_mode, None);
    assert_eq!(config.log_path, "bridge.log");
    assert_eq!(config.lock_path, "bridge.lock");
    assert_eq!(config.poll_timeout_seconds, 30);
    assert_eq!(config.update_limit, 50);
}

#[test]
fn the_environment_counts_before_the_file() {
    let mut env = environment();
    env.telegram_bot_token = text("env");
    env.telegram_allowed_user_id = text("-5");
    env.codex_cwd = text("/env");
    env.codex_model = text("env-model");
    env.poll_timeout_seconds = text("+7");
    let mut file = FileConfig::default();
    file.telegram_bot_token = text("file");
    file.telegram_allowed_user_id = Some(9);
    file.codex_cwd = text("/file");
    file.codex_binary = text("file-codex");
    file.codex_model = text("file-model");
    file.codex_approval_policy = text("on-request");
    file.codex_sandbox_mode = text("workspace-write");
    file.log_path = text("file.log");
    file.poll_timeout_seconds = Some(3);
    file.update_limit = Some(4);
    assert_eq!(Config::requested_cwd(&env, &file).as_deref(), Some("/env"));
    let config = Config::load(env, file, true).expect("config");
    assert_eq!(config.telegram_bot_token, "env");
    assert_eq!(config.telegram_allowed_user_id, Some(-5));
    assert_eq!(config.codex_cwd.display(), "/env");
    assert_eq!(config.codex_binary, "file-codex");
    assert_eq!(config.codex_model.as_deref(), Some("env-model"));
    assert_eq!(config.codex_approval_policy, "on-request");
    assert_eq!(config.codex_sandbox_mode.as_deref(), Some("workspace-write"));
    assert_eq!(config.log_path, "file.log");
    assert_eq!(config.poll_timeout_seconds, 7);
    assert_eq!(config.update_limit, 4);
}

#[test]
fn numbers_that_do_not_fit_are_passed_over() {
    for (timeout, limit) in [("x", "-1"), ("", "4294967296"), ("18446744073709551616", "1.5")] {
        let mut env = environment();
        env.telegram_bot_token = text("t");
        env.codex_cwd = text("/w");
        env.poll_timeout_seconds = text(timeout);
        env.update_limit = text(limit);
        let mut file = FileConfig::default();
        file.update_limit = Some(8);
        let config = Config::load(env, file, true).expect("config");
        assert_eq!(config.poll_timeout_seconds, 30);
        assert_eq!(config.update_limit, 8);
    }
}

#[test]
fn a_token_is_required() {
    let error = Config::load(environment(), FileConfig::default(), true).err().expect("error");
    assert_eq!(error, ConfigError::Missing("TELEGRAM_BOT_TOKEN".to_string()));
    assert_eq!(error.message(), "TELEGRAM_BOT_TOKEN is required");
    assert_eq!(error.cause(), None);
    let mut env = environment();
    env.telegram_bot_token = text("  ");
    let mut file = FileConfig::default();
    file.telegram_bot_token = text("file");
    let error = Config::load(env, file, true).err().expect("error");
    assert_eq!(error.message(), "TELEGRAM_BOT_TOKEN is required");
}

#[test]
fn a_user_id_is_an_integer() {
    for wrong in ["", "abc", "1.5", "9223372036854775808", " 1"] {
        let mut env = environment();
        env.telegram_bot_token = text("t");
        env.telegram_allowed_user_id = text(wrong);
        let error = Config::load(env, FileConfig::default(), true).err().expect("error");
        assert_eq!(error.message(), "TELEGRAM_ALLOWED_USER_ID must be an integer");
        assert_eq!(error.cause(), wrong.parse::<i64>().err().map(|e| e.to_string()));
    }
}

#[test]
fn a_working_directory_is_required() {
    let mut env = environment();
    env.telegram_bot_token = text("t");
    assert_eq!(Config::requested_cwd(&env, &FileConfig::default()), None);
    let error = Config::load(env, FileConfig::default(), false).err().expect("error");
    assert_eq!(error.message(), "CODEX_CWD is required");
}

#[test]
fn the_working_directory_must_exist() {
    let mut env = environment();
    env.telegram_bot_token = text("t");
    env.codex_cwd = text("/nowhere");
    let error = Config::load(env, FileConfig::default(), false).err().expect("error");
    assert_eq!(
        error.message(),
        "CODEX_CWD must point to an existing directory: /nowhere"
    );
}
