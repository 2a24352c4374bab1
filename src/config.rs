//! Settings of the service and the environment it runs in.
use vstd::prelude::*;

use crate::text::str_eq;

verus! {

/// Where the service keeps its records.
pub struct Database {
    pub uri: String,
    /// Log every SQL statement.
    pub enable_logging: bool,
    /// Fewest connections kept in the pool.
    pub min_connections: u32,
    /// Most connections kept in the pool.
    pub max_connections: u32,
    /// Seconds to wait for a connection.
    pub connect_timeout: u64,
    /// Seconds before an idle connection is closed.
    pub idle_timeout: u64,
}

/// The recurring trigger of passes.
pub struct Task {
    /// A cron expression.
    pub cron_config: String,
}

/// Verbosity of the log.
#[derive(Clone, Copy, Debug, PartialEq, Eq, Structural)]
pub enum LogLevel {
    Off,
    Trace,
    Debug,
    Info,
    Warn,
    Error,
}

/// Layout of log lines.
#[derive(Clone, Copy, Debug, PartialEq, Eq, Structural)]
pub enum Format {
    Compact,
    Pretty,
    Json,
}

/// How the service logs.
pub struct Logger {
    pub enable: bool,
    /// Show backtraces in a readable layout.
    pub pretty_backtrace: bool,
    pub level: LogLevel,
    pub format: Format,
    /// A filter that replaces the default one.
    pub override_filter: Option<String>,
}

/// The Telegram channel; an empty token leaves it off.
pub struct TgBot {
    pub chat_id: i64,
    pub token: String,
}

/// All settings of the service.
pub struct Config {
    pub database: Database,
    pub task: Task,
    pub logger: Logger,
    pub tg_bot: TgBot,
}

pub open spec fn log_level_name(l: LogLevel) -> Seq<char> {
    match l {
        LogLevel::Off => "off"@,
        LogLevel::Trace => "trace"@,
        LogLevel::Debug => "debug"@,
        LogLevel::Info => "info"@,
        LogLevel::Warn => "warn"@,
        LogLevel::Error => "error"@,
    }
}

impl LogLevel {
    /// The name used in settings files and log filters.
    pub fn name(&self) -> (r: &'static str)
        ensures
            r@ == log_level_name(*self),
    {
        match self {
            LogLevel::Off => "off",
            LogLevel::Trace => "trace",
            LogLevel::Debug => "debug",
            LogLevel::Info => "info",
            LogLevel::Warn => "warn",
            LogLevel::Error => "error",
        }
    }
}

impl Default for LogLevel {
    fn default() -> (r: LogLevel)
        ensures
            r == LogLevel::Info,
    {
        LogLevel::Info
    }
}

pub open spec fn format_name(f: Format) -> Seq<char> {
    match f {
        Format::Compact => "compact"@,
        Format::Pretty => "pretty"@,
        Format::Json => "json"@,
    }
}

impl Format {
    /// The name used in settings files.
    pub fn name(&self) -> (r: &'static str)
        ensures
            r@ == format_name(*self),
    {
        match self {
            Format::Compact => "compact",
            Format::Pretty => "pretty",
            Format::Json => "json",
        }
    }
}

impl Default for Format {
    fn default() -> (r: Format)
        ensures
            r == Format::Compact,
    {
        Format::Compact
    }
}

/// The environment the service runs in; it picks the settings file.
#[derive(Debug)]
pub enum Environment {
    Production,
    Development,
    Test,
    Any(String),
}

/// The environment used when none is given.
pub const DEFAULT_ENVIRONMENT: &'static str = "development";

/// The name of an environment.
pub open spec fn environment_name(e: Environment) -> Seq<char> {
    match e {
        Environment::Production => "production"@,
        Environment::Development => "development"@,
        Environment::Test => "test"@,
        Environment::Any(s) => s@,
    }
}

impl Environment {
    /// Reads an environment name: "production", "development" and "test" are
    /// the known ones, any other name is kept as it is.
    pub fn from_name(s: &str) -> (r: Environment)
        ensures
            environment_name(r) == s@,
            s@ == "production"@ ==> r is Production,
            s@ == "development"@ ==> r is Development,
            s@ == "test"@ ==> r is Test,
            s@ != "production"@ && s@ != "development"@ && s@ != "test"@ ==> r is Any
                && r->Any_0@ == s@,
    {
        proof {
            reveal_strlit("production");
            reveal_strlit("development");
            reveal_strlit("test");
            assert("production"@.len() == 10);
            assert("development"@.len() == 11);
            assert("test"@.len() == 4);
        }
        if str_eq(s, "production") {
            Environment::Production
        } else if str_eq(s, "development") {
            Environment::Development
        } else if str_eq(s, "test") {
            Environment::Test
        } else {
            Environment::Any(String::from_str(s))
        }
    }

    /// The name of this environment, as `from_name` reads it.
    pub fn name(&self) -> (r: String)
        ensures
            r@ == environment_name(*self),
    {
        match self {
            Environment::Production => String::from_str("production"),
            Environment::Development => String::from_str("development"),
            Environment::Test => String::from_str("test"),
            Environment::Any(s) => s.clone(),
        }
    }
}

} // verus!
