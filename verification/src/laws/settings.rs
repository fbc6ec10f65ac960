//! Laws of the configuration.

use crate::config;
use crate::config::{
    either_of, read_optional_i64, read_path, read_string, Config, ConfigError, Environment, FileConfig,
};
use crate::laws::words::is_blank;
use crate::text;
use crate::text::{parse_signed, parse_unsigned};
use vstd::prelude::*;
use vstd::string::*;

verus! {

/// A setting whose variable is set has the value of the variable, whatever the file says.
pub proof fn law_the_environment_comes_first(
    env: Environment,
    file: FileConfig,
    cwd_is_dir: bool,
    config: Config,
)
    requires
        call_ensures(
            Config::load,
            (env, file, cwd_is_dir),
            Ok::<Config, ConfigError>(config),
        ),
    ensures
        env.telegram_bot_token matches Some(value) ==> config.telegram_bot_token@ == value@,
        env.codex_binary matches Some(value) ==> config.codex_binary@ == value@,
        env.codex_cwd matches Some(value) ==> config.codex_cwd@.display == value@,
        env.codex_model matches Some(value) ==> (config.codex_model matches Some(model) && model@
            == value@),
        env.codex_approval_policy matches Some(value) ==> config.codex_approval_policy@ == value@,
        env.codex_sandbox_mode matches Some(value) ==> (config.codex_sandbox_mode matches Some(mode)
            && mode@ == value@),
        env.log_path matches Some(value) ==> config.log_path@ == value@,
        env.lock_path matches Some(value) ==> config.lock_path@ == value@,
{
}

/// A setting whose variable is not set has the value that the file gives.
pub proof fn law_the_file_comes_second(
    env: Environment,
    file: FileConfig,
    cwd_is_dir: bool,
    config: Config,
)
    requires
        call_ensures(
            Config::load,
            (env, file, cwd_is_dir),
            Ok::<Config, ConfigError>(config),
        ),
    ensures
        env.telegram_bot_token is None ==> (file.telegram_bot_token matches Some(value)
            && config.telegram_bot_token@ == value@),
        env.telegram_allowed_user_id is None ==> config.telegram_allowed_user_id
            == file.telegram_allowed_user_id,
        env.codex_cwd is None ==> (file.codex_cwd matches Some(value) && config.codex_cwd@.display
            == value@),
        env.codex_binary is None ==> (file.codex_binary matches Some(value)
            ==> config.codex_binary@ == value@),
        env.codex_model is None ==> match file.codex_model {
            Some(value) => config.codex_model matches Some(model) && model@ == value@,
            None => config.codex_model is None,
        },
        env.codex_approval_policy is None ==> (file.codex_approval_policy matches Some(value)
            ==> config.codex_approval_policy@ == value@),
        env.codex_sandbox_mode is None ==> match file.codex_sandbox_mode {
            Some(value) => config.codex_sandbox_mode matches Some(mode) && mode@ == value@,
            None => config.codex_sandbox_mode is None,
        },
        env.log_path is None ==> (file.log_path matches Some(value) ==> config.log_path@ == value@),
        env.lock_path is None ==> (file.lock_path matches Some(value) ==> config.lock_path@
            == value@),
        env.poll_timeout_seconds is None ==> (file.poll_timeout_seconds matches Some(value)
            ==> config.poll_timeout_seconds == value),
        env.update_limit is None ==> (file.update_limit matches Some(value) ==> config.update_limit
            == value),
{
}

/// A setting that neither the environment nor the file gives has its default.
pub proof fn law_defaults_come_last(
    env: Environment,
    file: FileConfig,
    cwd_is_dir: bool,
    config: Config,
)
    requires
        call_ensures(
            Config::load,
            (env, file, cwd_is_dir),
            Ok::<Config, ConfigError>(config),
        ),
    ensures
        env.telegram_allowed_user_id is None && file.telegram_allowed_user_id is None
            ==> config.telegram_allowed_user_id is None,
        env.codex_binary is None && file.codex_binary is None ==> config.codex_binary@ == "codex"@,
        env.codex_model is None && file.codex_model is None ==> config.codex_model is None,
        env.codex_approval_policy is None && file.codex_approval_policy is None
            ==> config.codex_approval_policy@ == "never"@,
        env.codex_sandbox_mode is None && file.codex_sandbox_mode is None
            ==> config.codex_sandbox_mode is None,
        env.log_path is None && file.log_path is None ==> config.log_path@ == "bridge.log"@,
        env.lock_path is None && file.lock_path is None ==> config.lock_path@ == "bridge.lock"@,
        env.poll_timeout_seconds is None && file.poll_timeout_seconds is None
            ==> config.poll_timeout_seconds == 30,
        env.update_limit is None && file.update_limit is None ==> config.update_limit == 50,
{
}

/// The timeout is what its variable says, where that is a numeral that fits, whatever the file says;
/// where it is anything else, it is passed over.
pub proof fn law_the_timeout_is_read_from_the_environment(
    env: Environment,
    file: FileConfig,
    cwd_is_dir: bool,
    config: Config,
    words: &str,
    number: Option<u64>,
)
    requires
        call_ensures(
            Config::load,
            (env, file, cwd_is_dir),
            Ok::<Config, ConfigError>(config),
        ),
        env.poll_timeout_seconds matches Some(value) && value@ == words@,
        call_ensures(parse_unsigned, (words, u64::MAX), number),
    ensures
        match number {
            Some(n) => config.poll_timeout_seconds == n,
            None => match file.poll_timeout_seconds {
                Some(n) => config.poll_timeout_seconds == n,
                None => config.poll_timeout_seconds == 30,
            },
        },
{
}

/// The limit is what its variable says, where that is a numeral that fits, whatever the file says;
/// where it is anything else, it is passed over.
pub proof fn law_the_limit_is_read_from_the_environment(
    env: Environment,
    file: FileConfig,
    cwd_is_dir: bool,
    config: Config,
    words: &str,
    number: Option<u64>,
)
    requires
        call_ensures(
            Config::load,
            (env, file, cwd_is_dir),
            Ok::<Config, ConfigError>(config),
        ),
        env.update_limit matches Some(value) && value@ == words@,
        call_ensures(parse_unsigned, (words, u32::MAX as u64), number),
    ensures
        match number {
            Some(n) => config.update_limit == n,
            None => match file.update_limit {
                Some(n) => config.update_limit == n,
                None => config.update_limit == 50,
            },
        },
{
}

/// The allowed user is the one that the environment names, where it names one.
pub proof fn law_the_user_is_read_from_the_environment(
    env: Environment,
    file: FileConfig,
    cwd_is_dir: bool,
    config: Config,
    words: &str,
    user: Option<i64>,
)
    requires
        call_ensures(
            Config::load,
            (env, file, cwd_is_dir),
            Ok::<Config, ConfigError>(config),
        ),
        env.telegram_allowed_user_id matches Some(value) && value@ == words@,
        call_ensures(parse_signed, (words,), user),
    ensures
        user is Some,
        config.telegram_allowed_user_id == user,
{
}

/// The text that a setting is read from: the variable, or, where it is not set, the file.
pub open spec fn given(variable: Option<String>, in_file: Option<String>) -> Option<Seq<char>> {
    if variable is Some {
        Some(variable->0@)
    } else if in_file is Some {
        Some(in_file->0@)
    } else {
        None
    }
}

/// Whether a text is there and holds more than white space.
pub open spec fn says_something(words: Option<Seq<char>>) -> bool {
    words is Some && exists|i: int|
        0 <= i < words->0.len() && !text::is_white(#[trigger] words->0[i])
}

/// Of two values the first counts where it is there, and the second where it is not.
pub proof fn law_the_first_value_counts<T>(first: Option<T>, second: Option<T>, value: Option<T>)
    requires
        call_ensures(either_of::<T>, (first, second), value),
    ensures
        first is Some ==> value == first,
        first is None ==> value == second,
{
}

/// A required text is what is given, whole as it is, and is missing where nothing is given or
/// nothing but white space; a required path is missing only where none is given.
pub proof fn law_required_texts_are_read(
    name: &str,
    variable: Option<String>,
    fallback: Option<String>,
    value: Result<String, ConfigError>,
    path: Result<String, ConfigError>,
)
    requires
        call_ensures(read_string, (name, variable, fallback), value),
        call_ensures(read_path, (name, variable, fallback), path),
    ensures
        if says_something(given(variable, fallback)) {
            value matches Ok(words) && words@ == given(variable, fallback)->0
        } else {
            value matches Err(ConfigError::Missing(missing)) && missing@ == name@
        },
        match given(variable, fallback) {
            Some(words) => path matches Ok(read) && read@ == words,
            None => path matches Err(ConfigError::Missing(missing)) && missing@ == name@,
        },
{
    let words = given(variable, fallback);
    if says_something(words) {
        let i = choose|i: int| 0 <= i < words->0.len() && !text::is_white(#[trigger] words->0[i]);
        text::lemma_words_are_not_trimmed_away(words->0, i);
    } else if words is Some {
        assert(is_blank(words->0));
        text::lemma_white_is_trimmed_away(words->0);
    }
}

/// An optional integer is what its variable says, which must be an integer; where it is not set, what
/// the file says.
pub proof fn law_optional_integers_are_read(
    name: &str,
    variable: Option<String>,
    fallback: Option<i64>,
    value: Result<Option<i64>, ConfigError>,
    words: &str,
    number: Option<i64>,
)
    requires
        call_ensures(read_optional_i64, (name, variable, fallback), value),
        call_ensures(parse_signed, (words,), number),
        variable matches Some(set) ==> set@ == words@,
    ensures
        variable is None ==> (value matches Ok(read) && read == fallback),
        variable is Some && number is Some ==> (value matches Ok(read) && read == number),
        variable is Some && number is None ==> (value matches Err(
            ConfigError::NotAnInteger { name: wrong, cause },
        ) && wrong@ == name@ && cause@ == config::integer_fault(words@)),
{
}

/// There is no configuration where the token is missing or blank, where the user is named by
/// something that is no integer, where no working directory is named or where it is none; each is
/// told by its own error, the first of these that holds. Else there is one.
pub proof fn law_each_fault_has_its_error(
    env: Environment,
    file: FileConfig,
    cwd_is_dir: bool,
    result: Result<Config, ConfigError>,
    words: &str,
    user: Option<i64>,
)
    requires
        call_ensures(Config::load, (env, file, cwd_is_dir), result),
        env.telegram_allowed_user_id matches Some(value) ==> value@ == words@,
        call_ensures(parse_signed, (words,), user),
    ensures
        if !says_something(given(env.telegram_bot_token, file.telegram_bot_token)) {
            result matches Err(ConfigError::Missing(name)) && name@ == "TELEGRAM_BOT_TOKEN"@
        } else if env.telegram_allowed_user_id is Some && user is None {
            result matches Err(ConfigError::NotAnInteger { name, cause }) && name@
                == "TELEGRAM_ALLOWED_USER_ID"@ && cause@ == config::integer_fault(words@)
        } else if given(env.codex_cwd, file.codex_cwd) is None {
            result matches Err(ConfigError::Missing(name)) && name@ == "CODEX_CWD"@
        } else if !cwd_is_dir {
            result matches Err(ConfigError::NotADirectory(path)) && path@ == given(
                env.codex_cwd,
                file.codex_cwd,
            )->0
        } else {
            result is Ok
        },
{
    let token = given(env.telegram_bot_token, file.telegram_bot_token);
    if says_something(token) {
        let i = choose|i: int|
            0 <= i < token->0.len() && !text::is_white(#[trigger] token->0[i]);
        text::lemma_words_are_not_trimmed_away(token->0, i);
    } else if token is Some {
        assert(is_blank(token->0));
        text::lemma_white_is_trimmed_away(token->0);
    }
}

/// Without a file nothing is given by it.
pub proof fn law_no_file_gives_nothing(file: FileConfig)
    requires
        call_ensures(FileConfig::default, (), file),
    ensures
        file.telegram_bot_token is None,
        file.telegram_allowed_user_id is None,
        file.codex_binary is None,
        file.codex_cwd is None,
        file.codex_model is None,
        file.codex_approval_policy is None,
        file.codex_sandbox_mode is None,
        file.log_path is None,
        file.lock_path is None,
        file.poll_timeout_seconds is None,
        file.update_limit is None,
{
}

/// A configuration as mathematics holds what it holds.
pub proof fn law_a_configuration_is_what_it_holds(config: Config)
    ensures
        config@.telegram_bot_token == config.telegram_bot_token@,
        config@.telegram_allowed_user_id == config.telegram_allowed_user_id,
        config@.codex_binary == config.codex_binary@,
        config@.codex_cwd == config.codex_cwd@,
        match config.codex_model {
            Some(model) => config@.codex_model == Some(model@),
            None => config@.codex_model is None,
        },
        config@.codex_approval_policy == config.codex_approval_policy@,
        match config.codex_sandbox_mode {
            Some(mode) => config@.codex_sandbox_mode == Some(mode@),
            None => config@.codex_sandbox_mode is None,
        },
        config@.log_path == config.log_path@,
        config@.lock_path == config.lock_path@,
        config@.poll_timeout_seconds == config.poll_timeout_seconds,
        config@.update_limit == config.update_limit,
{
}

/// Each error reads as it is named.
pub proof fn law_errors_say_what_is_wrong(error: &ConfigError, message: String, cause: Option<String>)
    requires
        call_ensures(ConfigError::message, (error,), message),
        call_ensures(ConfigError::cause, (error,), cause),
    ensures
        match *error {
            ConfigError::Missing(name) => message@ == name@ + " is required"@ && cause is None,
            ConfigError::NotAnInteger { name, cause: words } => message@ == name@
                + " must be an integer"@ && (cause matches Some(given) && given@ == words@),
            ConfigError::NotADirectory(path) => message@
                == "CODEX_CWD must point to an existing directory: "@ + path@ && cause is None,
        },
{
}

/// The directory that the host is asked to look at is the one that the configuration will hold.
pub proof fn law_the_directory_looked_at_is_the_one_used(
    env: Environment,
    file: FileConfig,
    cwd_is_dir: bool,
    config: Config,
    path: Option<String>,
)
    requires
        call_ensures(
            Config::load,
            (env, file, cwd_is_dir),
            Ok::<Config, ConfigError>(config),
        ),
        call_ensures(Config::requested_cwd, (&env, &file), path),
    ensures
        cwd_is_dir,
        path matches Some(path) && config.codex_cwd@.display == path@,
{
}

} // verus!
