//! The service's settings, read from the environment's variables.

use crate::consts::env::{
    BIND_ADDRESS_ENV_VAR, DEFAULT_BIND_ADDRESS, DEFAULT_REDIS_URL, DEFAULT_SENSOR_DATUM_PREFIX,
    ENV_SENSOR_DATUM_PREFIX, LOG_LEVEL_ENV_VAR, REDIS_URL_ENV_VAR,
};
use vstd::prelude::*;
use vstd::string::StringExecFns;

verus! {

/// How much the service logs.
#[derive(Clone, Copy, Debug, PartialEq, Eq, Structural)]
pub enum LogLevel {
    Trace,
    Debug,
    Info,
    Warn,
    Error,
}

/// The level that holds where none is set.
pub open spec fn default_log_level() -> LogLevel {
    LogLevel::Info
}

/// What the service runs with.
#[derive(Debug, PartialEq, Eq)]
pub struct Settings {
    /// Address and port to listen on.
    pub bind_address: String,
    pub log_level: LogLevel,
    /// Where the store is.
    pub redis_url: String,
    /// Namespace prefix of the series keys.
    pub sensor_datum_prefix: String,
}

/// What a [`Settings`] holds.
pub struct SettingsModel {
    pub bind_address: Seq<char>,
    pub log_level: LogLevel,
    pub redis_url: Seq<char>,
    pub sensor_datum_prefix: Seq<char>,
}

impl View for Settings {
    type V = SettingsModel;

    open spec fn view(&self) -> SettingsModel {
        SettingsModel {
            bind_address: self.bind_address@,
            log_level: self.log_level,
            redis_url: self.redis_url@,
            sensor_datum_prefix: self.sensor_datum_prefix@,
        }
    }
}

/// Why the environment gives no settings.
#[derive(Debug, PartialEq, Eq)]
pub enum ConfigError {
    /// The log level variable is set to a text that names no level.
    InvalidLogLevel { value: String },
}

/// The level that `tracing::Level`'s `FromStr` reads from a text, if it
/// reads one.
pub uninterp spec fn parsed_log_level(text: Seq<char>) -> Option<LogLevel>;

/// Reads a log level.
///
/// Trusted: the body parses the text as a `tracing::Level` and names the
/// constant that came out. What text gives which level is the outside
/// crate's matter: the contract only names the result.
#[verifier::external_body]
fn parse_log_level(text: &str) -> (level: Option<LogLevel>)
    ensures
        level == parsed_log_level(text@),
{
    match text.parse::<tracing::Level>() {
        Ok(tracing::Level::ERROR) => Some(LogLevel::Error),
        Ok(tracing::Level::WARN) => Some(LogLevel::Warn),
        Ok(tracing::Level::INFO) => Some(LogLevel::Info),
        Ok(tracing::Level::DEBUG) => Some(LogLevel::Debug),
        Ok(_) => Some(LogLevel::Trace),
        Err(_) => None,
    }
}

/// The variables as name and value texts, in their order.
pub open spec fn spec_vars(vars: Seq<(String, String)>) -> Seq<(Seq<char>, Seq<char>)> {
    Seq::new(vars.len(), |i: int| (vars[i].0@, vars[i].1@))
}

/// The value of the variable `name`: that of its last occurrence, where it
/// occurs more than once.
pub open spec fn spec_lookup(vars: Seq<(Seq<char>, Seq<char>)>, name: Seq<char>) -> Option<
    Seq<char>,
>
    decreases vars.len(),
{
    if vars.len() == 0 {
        None
    } else if vars.last().0 == name {
        Some(vars.last().1)
    } else {
        spec_lookup(vars.drop_last(), name)
    }
}

/// The value of the variable `name`, or `default` where it is not set.
pub open spec fn spec_lookup_or(
    vars: Seq<(Seq<char>, Seq<char>)>,
    name: Seq<char>,
    default: Seq<char>,
) -> Seq<char> {
    match spec_lookup(vars, name) {
        Some(value) => value,
        None => default,
    }
}

/// The settings that the variables and the reading of the log level give.
/// `level` is the level read from the log level variable's value, `None`
/// where the value names no level; it is not looked at where the variable
/// is not set.
pub open spec fn spec_settings(vars: Seq<(Seq<char>, Seq<char>)>, level: Option<LogLevel>)
    -> Option<SettingsModel> {
    let log_level = match spec_lookup(vars, LOG_LEVEL_ENV_VAR@) {
        None => Some(default_log_level()),
        Some(_) => level,
    };
    match log_level {
        None => None,
        Some(log_level) => Some(
            SettingsModel {
                bind_address: spec_lookup_or(vars, BIND_ADDRESS_ENV_VAR@, DEFAULT_BIND_ADDRESS@),
                log_level,
                redis_url: spec_lookup_or(vars, REDIS_URL_ENV_VAR@, DEFAULT_REDIS_URL@),
                sensor_datum_prefix: spec_lookup_or(
                    vars,
                    ENV_SENSOR_DATUM_PREFIX@,
                    DEFAULT_SENSOR_DATUM_PREFIX@,
                ),
            },
        ),
    }
}

/// The level that the variables ask for, as the outside reading of its text
/// gives it.
pub open spec fn spec_requested_level(vars: Seq<(Seq<char>, Seq<char>)>) -> Option<LogLevel> {
    match spec_lookup(vars, LOG_LEVEL_ENV_VAR@) {
        None => None,
        Some(text) => parsed_log_level(text),
    }
}

/// Looks a variable up.
pub fn lookup(vars: &Vec<(String, String)>, name: &str) -> (value: Option<String>)
    ensures
        match spec_lookup(spec_vars(vars@), name@) {
            Some(text) => value matches Some(found) && found@ == text,
            None => value is None,
        },
{
    let wanted = String::from_str(name);
    let mut i: usize = vars.len();
    assert(spec_vars(vars@).take(i as int) =~= spec_vars(vars@));
    while i > 0
        invariant
            i <= vars.len(),
            wanted@ == name@,
            spec_lookup(spec_vars(vars@), name@) == spec_lookup(
                spec_vars(vars@).take(i as int),
                name@,
            ),
        decreases i,
    {
        i = i - 1;
        proof {
            let upto = spec_vars(vars@).take(i + 1);
            assert(upto.last() == (vars@[i as int].0@, vars@[i as int].1@));
            assert(upto.drop_last() =~= spec_vars(vars@).take(i as int));
        }
        if vars[i].0 == wanted {
            return Some(vars[i].1.clone());
        }
    }
    None
}

/// Looks a variable up, and gives `default` where it is not set.
pub fn lookup_or(vars: &Vec<(String, String)>, name: &str, default: &str) -> (value: String)
    ensures
        value@ == spec_lookup_or(spec_vars(vars@), name@, default@),
{
    match lookup(vars, name) {
        Some(value) => value,
        None => String::from_str(default),
    }
}

impl Settings {
    /// The settings that the variables give, with `level` as what the log
    /// level variable's value was read as.
    pub fn with_level(vars: &Vec<(String, String)>, level: Option<LogLevel>) -> (settings: Option<
        Settings,
    >)
        ensures
            match spec_settings(spec_vars(vars@), level) {
                Some(model) => settings matches Some(made) && made@ == model,
                None => settings is None,
            },
    {
        let log_level = match lookup(vars, LOG_LEVEL_ENV_VAR) {
            None => LogLevel::Info,
            Some(_) => match level {
                Some(level) => level,
                None => { return None; },
            },
        };
        Some(
            Settings {
                bind_address: lookup_or(vars, BIND_ADDRESS_ENV_VAR, DEFAULT_BIND_ADDRESS),
                log_level,
                redis_url: lookup_or(vars, REDIS_URL_ENV_VAR, DEFAULT_REDIS_URL),
                sensor_datum_prefix: lookup_or(
                    vars,
                    ENV_SENSOR_DATUM_PREFIX,
                    DEFAULT_SENSOR_DATUM_PREFIX,
                ),
            },
        )
    }

    /// The settings that the environment's variables give. A variable that
    /// is not set has its default. Fails only where the log level variable
    /// is set to a text that names no level.
    pub fn from_env_vars(vars: &Vec<(String, String)>) -> (r: Result<Settings, ConfigError>)
        ensures
            match spec_settings(spec_vars(vars@), spec_requested_level(spec_vars(vars@))) {
                Some(model) => r matches Ok(made) && made@ == model,
                None => r matches Err(ConfigError::InvalidLogLevel { value }) && Some(value@)
                    == spec_lookup(spec_vars(vars@), LOG_LEVEL_ENV_VAR@),
            },
    {
        match lookup(vars, LOG_LEVEL_ENV_VAR) {
            None => match Settings::with_level(vars, None) {
                Some(settings) => Ok(settings),
                None => Err(ConfigError::InvalidLogLevel { value: String::new() }),
            },
            Some(text) => match Settings::with_level(vars, parse_log_level(text.as_str())) {
                Some(settings) => Ok(settings),
                None => Err(ConfigError::InvalidLogLevel { value: text }),
            },
        }
    }
}

} // verus!
