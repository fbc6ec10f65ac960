//! The configuration of the bridge, from the environment and from `bridge.toml`.

use crate::text;
use crate::text::{parse_signed, parse_unsigned, trim};
use crate::workdir;
use crate::workdir::{WorkDir, WorkDirView};
use vstd::prelude::*;
use vstd::string::*;

verus! {

/// The configuration that the bridge runs with.
#[derive(Debug, Clone)]
pub struct Config {
    pub telegram_bot_token: String,
    pub telegram_allowed_user_id: Option<i64>,
    pub codex_binary: String,
    pub codex_cwd: WorkDir,
    pub codex_model: Option<String>,
    pub codex_approval_policy: String,
    pub codex_sandbox_mode: Option<String>,
    pub log_path: String,
    pub lock_path: String,
    pub poll_timeout_seconds: u64,
    pub update_limit: u32,
}

/// What `bridge.toml` says; a field that it leaves out is `None`.
#[derive(Debug)]
pub struct FileConfig {
    pub telegram_bot_token: Option<String>,
    pub telegram_allowed_user_id: Option<i64>,
    pub codex_binary: Option<String>,
    pub codex_cwd: Option<String>,
    pub codex_model: Option<String>,
    pub codex_approval_policy: Option<String>,
    pub codex_sandbox_mode: Option<String>,
    pub log_path: Option<String>,
    pub lock_path: Option<String>,
    pub poll_timeout_seconds: Option<u64>,
    pub update_limit: Option<u32>,
}

impl Default for FileConfig {
    /// What is known without a `bridge.toml`: nothing.
    fn default() -> (file: Self)
        ensures
            file == (FileConfig {
                telegram_bot_token: None,
                telegram_allowed_user_id: None,
                codex_binary: None,
                codex_cwd: None,
                codex_model: None,
                codex_approval_policy: None,
                codex_sandbox_mode: None,
                log_path: None,
                lock_path: None,
                poll_timeout_seconds: None,
                update_limit: None,
            }),
    {
        FileConfig {
            telegram_bot_token: None,
            telegram_allowed_user_id: None,
            codex_binary: None,
            codex_cwd: None,
            codex_model: None,
            codex_approval_policy: None,
            codex_sandbox_mode: None,
            log_path: None,
            lock_path: None,
            poll_timeout_seconds: None,
            update_limit: None,
        }
    }
}

/// What the environment says, variable by variable; one that is not set is `None`.
#[derive(Debug)]
pub struct Environment {
    /// `TELEGRAM_BOT_TOKEN`
    pub telegram_bot_token: Option<String>,
    /// `TELEGRAM_ALLOWED_USER_ID`
    pub telegram_allowed_user_id: Option<String>,
    /// `CODEX_BINARY`
    pub codex_binary: Option<String>,
    /// `CODEX_CWD`
    pub codex_cwd: Option<String>,
    /// `CODEX_MODEL`
    pub codex_model: Option<String>,
    /// `CODEX_APPROVAL_POLICY`
    pub codex_approval_policy: Option<String>,
    /// `CODEX_SANDBOX_MODE`
    pub codex_sandbox_mode: Option<String>,
    /// `LOG_PATH`
    pub log_path: Option<String>,
    /// `LOCK_PATH`
    pub lock_path: Option<String>,
    /// `POLL_TIMEOUT_SECONDS`
    pub poll_timeout_seconds: Option<String>,
    /// `UPDATE_LIMIT`
    pub update_limit: Option<String>,
}

/// Why there is no configuration.
#[derive(Debug, PartialEq, Eq)]
pub enum ConfigError {
    /// A variable is required and neither set nor in the file.
    Missing(String),
    /// The variable `name` must be an integer and is none; `cause` says what is wrong with it.
    NotAnInteger { name: String, cause: String },
    /// The path of the working directory leads to no directory.
    NotADirectory(String),
}

/// A configuration error as mathematics.
pub enum ConfigErrorView {
    Missing(Seq<char>),
    NotAnInteger { name: Seq<char>, cause: Seq<char> },
    NotADirectory(Seq<char>),
}

impl View for ConfigError {
    type V = ConfigErrorView;

    open spec fn view(&self) -> ConfigErrorView {
        match self {
            ConfigError::Missing(name) => ConfigErrorView::Missing(name@),
            ConfigError::NotAnInteger { name, cause } => ConfigErrorView::NotAnInteger {
                name: name@,
                cause: cause@,
            },
            ConfigError::NotADirectory(path) => ConfigErrorView::NotADirectory(path@),
        }
    }
}

impl ConfigErrorView {
    /// The words for the error.
    pub open spec fn message(self) -> Seq<char> {
        match self {
            ConfigErrorView::Missing(name) => name + " is required"@,
            ConfigErrorView::NotAnInteger { name, .. } => name + " must be an integer"@,
            ConfigErrorView::NotADirectory(path) => "CODEX_CWD must point to an existing directory: "@
                + path,
        }
    }

    /// What lies behind the error, where something does.
    pub open spec fn cause(self) -> Option<Seq<char>> {
        match self {
            ConfigErrorView::NotAnInteger { cause, .. } => Some(cause),
            _ => None,
        }
    }
}

impl ConfigError {
    /// The words for the error.
    pub fn message(&self) -> (text: String)
        ensures
            text@ == self@.message(),
    {
        match self {
            ConfigError::Missing(name) => {
                let mut text = name.clone();
                text.append(" is required");
                text
            },
            ConfigError::NotAnInteger { name, .. } => {
                let mut text = name.clone();
                text.append(" must be an integer");
                text
            },
            ConfigError::NotADirectory(path) => {
                let mut text = "CODEX_CWD must point to an existing directory: ".to_owned();
                text.append(path.as_str());
                text
            },
        }
    }
}

impl ConfigError {
    /// What lies behind the error, where something does.
    pub fn cause(&self) -> (cause: Option<String>)
        ensures
            text::text_view(cause) == self@.cause(),
    {
        match self {
            ConfigError::NotAnInteger { cause, .. } => Some(cause.clone()),
            _ => None,
        }
    }
}

/// What `str::parse` finds wrong with a text that is no `i64`, in words.
pub uninterp spec fn integer_fault(text: Seq<char>) -> Seq<char>;

/// `str::parse` to an `i64`, of a text that is none: the words of its error.
#[verifier::external_body]
fn fault_of_integer(text: &str) -> (words: String)
    requires
        text::signed_number(text@) is None,
    ensures
        words@ == integer_fault(text@),
{
    match text.parse::<i64>() {
        Ok(_) => String::new(),
        Err(error) => error.to_string(),
    }
}

/// The first of two optional values that is there.
pub open spec fn either<T>(first: Option<T>, second: Option<T>) -> Option<T> {
    match first {
        Some(value) => Some(value),
        None => second,
    }
}

/// The first of two optional values that is there.
pub fn either_of<T>(first: Option<T>, second: Option<T>) -> (value: Option<T>)
    ensures
        value == either(first, second),
{
    match first {
        Some(value) => Some(value),
        None => second,
    }
}

/// The first of two optional texts that is there, or a default.
fn text_or(first: Option<String>, second: Option<String>, default: &str) -> (value: String)
    ensures
        value@ == match either(first, second) {
            Some(s) => s@,
            None => default@,
        },
{
    match either_of(first, second) {
        Some(value) => value,
        None => default.to_owned(),
    }
}

/// The required text `name`: what the environment says, else what the file says, and not blank.
pub open spec fn required_text(
    name: Seq<char>,
    variable: Option<String>,
    fallback: Option<String>,
) -> Result<Seq<char>, ConfigErrorView> {
    match either(variable, fallback) {
        Some(value) => if text::trimmed(value@).len() > 0 {
            Ok(value@)
        } else {
            Err(ConfigErrorView::Missing(name))
        },
        None => Err(ConfigErrorView::Missing(name)),
    }
}

/// The required text `name`.
pub fn read_string(name: &str, variable: Option<String>, fallback: Option<String>) -> (value:
    Result<String, ConfigError>)
    ensures
        match value {
            Ok(s) => required_text(name@, variable, fallback) == Ok::<
                Seq<char>,
                ConfigErrorView,
            >(s@),
            Err(e) => required_text(name@, variable, fallback) == Err::<
                Seq<char>,
                ConfigErrorView,
            >(e@),
        },
{
    match either_of(variable, fallback) {
        Some(value) => if trim(value.as_str()).is_empty() {
            Err(ConfigError::Missing(name.to_owned()))
        } else {
            Ok(value)
        },
        None => Err(ConfigError::Missing(name.to_owned())),
    }
}

/// The optional integer `name`: what the environment says must be an integer; where it says
/// nothing the file counts.
pub open spec fn optional_integer(
    name: Seq<char>,
    variable: Option<String>,
    fallback: Option<i64>,
) -> Result<Option<i64>, ConfigErrorView> {
    match variable {
        Some(value) => match text::signed_number(value@) {
            Some(n) => Ok(Some(n as i64)),
            None => Err(ConfigErrorView::NotAnInteger { name, cause: integer_fault(value@) }),
        },
        None => Ok(fallback),
    }
}

/// The optional integer `name`.
pub fn read_optional_i64(name: &str, variable: Option<String>, fallback: Option<i64>) -> (value:
    Result<Option<i64>, ConfigError>)
    ensures
        match value {
            Ok(n) => optional_integer(name@, variable, fallback) == Ok::<
                Option<i64>,
                ConfigErrorView,
            >(n),
            Err(e) => optional_integer(name@, variable, fallback) == Err::<
                Option<i64>,
                ConfigErrorView,
            >(e@),
        },
{
    match variable {
        Some(value) => match parse_signed(value.as_str()) {
            Some(n) => Ok(Some(n)),
            None => Err(
                ConfigError::NotAnInteger {
                    name: name.to_owned(),
                    cause: fault_of_integer(value.as_str()),
                },
            ),
        },
        None => Ok(fallback),
    }
}

/// The required path `name`: what the environment says, else what the file says.
pub open spec fn required_path(
    name: Seq<char>,
    variable: Option<String>,
    fallback: Option<String>,
) -> Result<Seq<char>, ConfigErrorView> {
    match either(variable, fallback) {
        Some(value) => Ok(value@),
        None => Err(ConfigErrorView::Missing(name)),
    }
}

/// The required path `name`.
pub fn read_path(name: &str, variable: Option<String>, fallback: Option<String>) -> (value: Result<
    String,
    ConfigError,
>)
    ensures
        match value {
            Ok(s) => required_path(name@, variable, fallback) == Ok::<
                Seq<char>,
                ConfigErrorView,
            >(s@),
            Err(e) => required_path(name@, variable, fallback) == Err::<
                Seq<char>,
                ConfigErrorView,
            >(e@),
        },
{
    match either_of(variable, fallback) {
        Some(value) => Ok(value),
        None => Err(ConfigError::Missing(name.to_owned())),
    }
}

/// A number of the configuration: a numeral in the environment that fits, else what the file
/// says, else a default.
pub open spec fn number_or(
    variable: Option<String>,
    fallback: Option<nat>,
    max: nat,
    default: nat,
) -> nat {
    let named = match variable {
        Some(value) => text::unsigned_number(value@, max),
        None => None,
    };
    match either(named, fallback) {
        Some(n) => n,
        None => default,
    }
}

fn read_number(variable: Option<String>, fallback: Option<u64>, max: u64, default: u64) -> (value:
    u64)
    requires
        default <= max,
        fallback matches Some(n) ==> n <= max,
    ensures
        value == number_or(
            variable,
            match fallback {
                Some(n) => Some(n as nat),
                None => None,
            },
            max as nat,
            default as nat,
        ),
        value <= max,
{
    let named = match variable {
        Some(value) => parse_unsigned(value.as_str(), max),
        None => None,
    };
    match either_of(named, fallback) {
        Some(n) => n,
        None => default,
    }
}

/// A configuration as mathematics.
pub struct ConfigView {
    pub telegram_bot_token: Seq<char>,
    pub telegram_allowed_user_id: Option<i64>,
    pub codex_binary: Seq<char>,
    pub codex_cwd: WorkDirView,
    pub codex_model: Option<Seq<char>>,
    pub codex_approval_policy: Seq<char>,
    pub codex_sandbox_mode: Option<Seq<char>>,
    pub log_path: Seq<char>,
    pub lock_path: Seq<char>,
    pub poll_timeout_seconds: u64,
    pub update_limit: u32,
}

impl View for Config {
    type V = ConfigView;

    open spec fn view(&self) -> ConfigView {
        ConfigView {
            telegram_bot_token: self.telegram_bot_token@,
            telegram_allowed_user_id: self.telegram_allowed_user_id,
            codex_binary: self.codex_binary@,
            codex_cwd: self.codex_cwd@,
            codex_model: text::text_view(self.codex_model),
            codex_approval_policy: self.codex_approval_policy@,
            codex_sandbox_mode: text::text_view(self.codex_sandbox_mode),
            log_path: self.log_path@,
            lock_path: self.lock_path@,
            poll_timeout_seconds: self.poll_timeout_seconds,
            update_limit: self.update_limit,
        }
    }
}

/// An optional text, or a default.
pub open spec fn text_or_default(
    variable: Option<String>,
    fallback: Option<String>,
    default: Seq<char>,
) -> Seq<char> {
    match either(variable, fallback) {
        Some(value) => value@,
        None => default,
    }
}

/// Why `env` and `file` give no configuration, if they do not: the token is looked at first, then
/// the user id, then the working directory.
pub open spec fn config_error(env: Environment, file: FileConfig, cwd_is_dir: bool) -> Option<
    ConfigErrorView,
> {
    let token = required_text(
        "TELEGRAM_BOT_TOKEN"@,
        env.telegram_bot_token,
        file.telegram_bot_token,
    );
    let user = optional_integer(
        "TELEGRAM_ALLOWED_USER_ID"@,
        env.telegram_allowed_user_id,
        file.telegram_allowed_user_id,
    );
    let cwd = required_path("CODEX_CWD"@, env.codex_cwd, file.codex_cwd);
    if token is Err {
        Some(token->Err_0)
    } else if user is Err {
        Some(user->Err_0)
    } else if cwd is Err {
        Some(cwd->Err_0)
    } else if !cwd_is_dir {
        Some(ConfigErrorView::NotADirectory(cwd->Ok_0))
    } else {
        None
    }
}

/// Whether `config` is the configuration that `env` and `file` give. The environment counts
/// before the file, and the file before the default.
pub open spec fn configured(config: ConfigView, env: Environment, file: FileConfig) -> bool {
    &&& required_text("TELEGRAM_BOT_TOKEN"@, env.telegram_bot_token, file.telegram_bot_token) == Ok::<
        Seq<char>,
        ConfigErrorView,
    >(config.telegram_bot_token)
    &&& optional_integer(
        "TELEGRAM_ALLOWED_USER_ID"@,
        env.telegram_allowed_user_id,
        file.telegram_allowed_user_id,
    ) == Ok::<Option<i64>, ConfigErrorView>(config.telegram_allowed_user_id)
    &&& required_path("CODEX_CWD"@, env.codex_cwd, file.codex_cwd) == Ok::<
        Seq<char>,
        ConfigErrorView,
    >(config.codex_cwd.display)
    &&& workdir::components_of(config.codex_cwd.display, config.codex_cwd.components)
    &&& config.codex_binary == text_or_default(env.codex_binary, file.codex_binary, "codex"@)
    &&& config.codex_model == text::text_view(either(env.codex_model, file.codex_model))
    &&& config.codex_approval_policy == text_or_default(
        env.codex_approval_policy,
        file.codex_approval_policy,
        "never"@,
    )
    &&& config.codex_sandbox_mode == text::text_view(
        either(env.codex_sandbox_mode, file.codex_sandbox_mode),
    )
    &&& config.log_path == text_or_default(env.log_path, file.log_path, "bridge.log"@)
    &&& config.lock_path == text_or_default(env.lock_path, file.lock_path, "bridge.lock"@)
    &&& config.poll_timeout_seconds == number_or(
        env.poll_timeout_seconds,
        match file.poll_timeout_seconds {
            Some(n) => Some(n as nat),
            None => None,
        },
        u64::MAX as nat,
        30,
    )
    &&& config.update_limit == number_or(
        env.update_limit,
        match file.update_limit {
            Some(n) => Some(n as nat),
            None => None,
        },
        u32::MAX as nat,
        50,
    )
}

impl Config {
    /// The path of the working directory that is asked for, which the host is to look at before
    /// it calls [`Config::load`].
    pub fn requested_cwd(env: &Environment, file: &FileConfig) -> (path: Option<String>)
        ensures
            path == either(env.codex_cwd, file.codex_cwd),
    {
        match &env.codex_cwd {
            Some(path) => Some(path.clone()),
            None => text::copy_text(&file.codex_cwd),
        }
    }

    /// The configuration that the environment and `bridge.toml` give. `cwd_is_dir` says whether
    /// the requested working directory is a directory.
    pub fn load(env: Environment, file: FileConfig, cwd_is_dir: bool) -> (config: Result<
        Config,
        ConfigError,
    >)
        ensures
            match config {
                Ok(c) => config_error(env, file, cwd_is_dir) is None && configured(c@, env, file),
                Err(e) => config_error(env, file, cwd_is_dir) == Some(e@),
            },
    {
        let telegram_bot_token = match read_string(
            "TELEGRAM_BOT_TOKEN",
            env.telegram_bot_token,
            file.telegram_bot_token,
        ) {
            Ok(token) => token,
            Err(error) => {
                return Err(error);
            },
        };
        let telegram_allowed_user_id = match read_optional_i64(
            "TELEGRAM_ALLOWED_USER_ID",
            env.telegram_allowed_user_id,
            file.telegram_allowed_user_id,
        ) {
            Ok(id) => id,
            Err(error) => {
                return Err(error);
            },
        };
        let codex_cwd = match read_path("CODEX_CWD", env.codex_cwd, file.codex_cwd) {
            Ok(path) => path,
            Err(error) => {
                return Err(error);
            },
        };
        if !cwd_is_dir {
            return Err(ConfigError::NotADirectory(codex_cwd));
        }
        let file_limit = match file.update_limit {
            Some(n) => Some(n as u64),
            None => None,
        };
        Ok(
            Config {
                telegram_bot_token,
                telegram_allowed_user_id,
                codex_binary: text_or(env.codex_binary, file.codex_binary, "codex"),
                codex_cwd: WorkDir::new(codex_cwd),
                codex_model: either_of(env.codex_model, file.codex_model),
                codex_approval_policy: text_or(
                    env.codex_approval_policy,
                    file.codex_approval_policy,
                    "never",
                ),
                codex_sandbox_mode: either_of(env.codex_sandbox_mode, file.codex_sandbox_mode),
                log_path: text_or(env.log_path, file.log_path, "bridge.log"),
                lock_path: text_or(env.lock_path, file.lock_path, "bridge.lock"),
                poll_timeout_seconds: read_number(
                    env.poll_timeout_seconds,
                    file.poll_timeout_seconds,
                    u64::MAX,
                    30,
                ),
                update_limit: read_number(
                    env.update_limit,
                    file_limit,
                    u32::MAX as u64,
                    50,
                ) as u32,
            },
        )
    }
}

} // verus!
