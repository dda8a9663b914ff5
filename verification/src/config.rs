use vstd::prelude::*;
use crate::numbers::{law_i64_decimal_round_trip, parse_i32, parse_i64, parsed_i32, parsed_i64, signed_decimal};

verus! {

/// The bot's settings.
pub struct Config {
    pub api_id: i32,
    pub api_hash: String,
    pub session_string: String,
    pub mongo_uri: String,
    pub log_channel_id: i64,
    pub owner_id: i64,
    pub support_group: String,
    pub support_channel: String,
}

/// The characters of each text field of a [`Config`].
pub struct ConfigView {
    pub api_id: i32,
    pub api_hash: Seq<char>,
    pub session_string: Seq<char>,
    pub mongo_uri: Seq<char>,
    pub log_channel_id: i64,
    pub owner_id: i64,
    pub support_group: Seq<char>,
    pub support_channel: Seq<char>,
}

impl View for Config {
    type V = ConfigView;

    open spec fn view(&self) -> ConfigView {
        ConfigView {
            api_id: self.api_id,
            api_hash: self.api_hash@,
            session_string: self.session_string@,
            mongo_uri: self.mongo_uri@,
            log_channel_id: self.log_channel_id,
            owner_id: self.owner_id,
            support_group: self.support_group@,
            support_channel: self.support_channel@,
        }
    }
}

/// The values of the environment variables that the settings come from; `None`
/// for a variable that is not set.
pub struct EnvVars {
    /// `API_ID`
    pub api_id: Option<String>,
    /// `API_HASH`
    pub api_hash: Option<String>,
    /// `SESSION_STRING`
    pub session_string: Option<String>,
    /// `MONGO_URI`
    pub mongo_uri: Option<String>,
    /// `LOG_CHANNEL_ID`
    pub log_channel_id: Option<String>,
    /// `OWNER_ID`
    pub owner_id: Option<String>,
    /// `SUPPORT_GROUP`
    pub support_group: Option<String>,
    /// `SUPPORT_CHANNEL`
    pub support_channel: Option<String>,
}

/// Why the settings could not be read.
#[derive(Debug, Clone, Copy, PartialEq, Eq, Structural)]
pub enum ConfigError {
    /// `API_ID` is not set.
    ApiIdMissing,
    /// `API_ID` is not an `i32`.
    ApiIdInvalid,
    /// `API_HASH` is not set.
    ApiHashMissing,
    /// `SESSION_STRING` is not set.
    SessionStringMissing,
}

/// The characters of an optional string, or `fallback`.
pub open spec fn text_or(v: Option<String>, fallback: Seq<char>) -> Seq<char> {
    match v {
        Some(s) => s@,
        None => fallback,
    }
}

/// The `i64` written in an optional string, or 0.
pub open spec fn id_or_zero(v: Option<String>) -> i64 {
    match v {
        Some(s) => match parsed_i64(s@) {
            Some(n) => n,
            None => 0,
        },
        None => 0,
    }
}

/// The settings that the environment gives, or why there are none.
pub open spec fn config_result(vars: EnvVars) -> Result<ConfigView, ConfigError> {
    match vars.api_id {
        None => Err(ConfigError::ApiIdMissing),
        Some(api_id_text) => match parsed_i32(api_id_text@) {
            None => Err(ConfigError::ApiIdInvalid),
            Some(api_id) => match (vars.api_hash, vars.session_string) {
                (None, _) => Err(ConfigError::ApiHashMissing),
                (Some(_), None) => Err(ConfigError::SessionStringMissing),
                (Some(api_hash), Some(session_string)) => Ok(ConfigView {
                    api_id: api_id,
                    api_hash: api_hash@,
                    session_string: session_string@,
                    mongo_uri: text_or(vars.mongo_uri, "mongodb://localhost:27017"@),
                    log_channel_id: id_or_zero(vars.log_channel_id),
                    owner_id: id_or_zero(vars.owner_id),
                    support_group: text_or(vars.support_group, "https://t.me/OliviaSupportChat"@),
                    support_channel: text_or(vars.support_channel, "https://t.me/OliviaBots"@),
                }),
            },
        },
    }
}

/// The view of a settings result.
pub open spec fn config_result_view(r: Result<Config, ConfigError>) -> Result<ConfigView, ConfigError> {
    match r {
        Ok(c) => Ok(c@),
        Err(e) => Err(e),
    }
}

fn or_default(v: Option<String>, fallback: &str) -> (r: String)
    ensures
        r@ == text_or(v, fallback@),
{
    match v {
        Some(s) => s,
        None => fallback.to_owned(),
    }
}

fn id_of(v: &Option<String>) -> (r: i64)
    ensures
        r == id_or_zero(*v),
{
    match v {
        Some(s) => match parse_i64(s.as_str()) {
            Some(n) => n,
            None => 0,
        },
        None => 0,
    }
}

impl ConfigError {
    /// The message that explains the error.
    pub fn message(&self) -> (r: &'static str)
        ensures
            r@ == config_error_text(*self),
    {
        match self {
            ConfigError::ApiIdMissing => "API_ID not set",
            ConfigError::ApiIdInvalid => "Invalid API_ID",
            ConfigError::ApiHashMissing => "API_HASH not set",
            ConfigError::SessionStringMissing => "SESSION_STRING not set",
        }
    }
}

/// The message of each settings error.
pub open spec fn config_error_text(e: ConfigError) -> Seq<char> {
    match e {
        ConfigError::ApiIdMissing => "API_ID not set"@,
        ConfigError::ApiIdInvalid => "Invalid API_ID"@,
        ConfigError::ApiHashMissing => "API_HASH not set"@,
        ConfigError::SessionStringMissing => "SESSION_STRING not set"@,
    }
}

impl Config {
    /// Reads the settings from the values of the environment variables.
    pub fn from_env(vars: EnvVars) -> (r: Result<Config, ConfigError>)
        ensures
            config_result_view(r) == config_result(vars),
    {
        let api_id_text = match vars.api_id {
            Some(s) => s,
            None => return Err(ConfigError::ApiIdMissing),
        };
        let api_id = match parse_i32(api_id_text.as_str()) {
            Some(n) => n,
            None => return Err(ConfigError::ApiIdInvalid),
        };
        let api_hash = match vars.api_hash {
            Some(s) => s,
            None => return Err(ConfigError::ApiHashMissing),
        };
        let session_string = match vars.session_string {
            Some(s) => s,
            None => return Err(ConfigError::SessionStringMissing),
        };
        let log_channel_id = id_of(&vars.log_channel_id);
        let owner_id = id_of(&vars.owner_id);
        let mongo_uri = or_default(vars.mongo_uri, "mongodb://localhost:27017");
        let support_group = or_default(vars.support_group, "https://t.me/OliviaSupportChat");
        let support_channel = or_default(vars.support_channel, "https://t.me/OliviaBots");
        Ok(Config {
            api_id,
            api_hash,
            session_string,
            mongo_uri,
            log_channel_id,
            owner_id,
            support_group,
            support_channel,
        })
    }
}

/// Whenever settings are read, the owner and log channel ids are the `i64`s
/// written in `OWNER_ID` and `LOG_CHANNEL_ID`, whatever their size; an unset or
/// unreadable one is 0. In particular the decimal text of any `i64` gives that
/// number back.
pub proof fn law_ids_are_any_i64(vars: EnvVars, n: i64)
    ensures
        config_result(vars) is Ok ==> ({
            let c = config_result(vars)->Ok_0;
            &&& (vars.owner_id matches Some(t) ==> (parsed_i64(t@) is Some ==> Some(c.owner_id) == parsed_i64(t@)))
            &&& (vars.log_channel_id matches Some(t) ==> (parsed_i64(t@) is Some
                ==> Some(c.log_channel_id) == parsed_i64(t@)))
            &&& (vars.owner_id matches Some(t) ==> (t@ == signed_decimal(n as int) ==> c.owner_id == n))
            &&& (vars.owner_id matches Some(t) ==> (parsed_i64(t@) is None ==> c.owner_id == 0))
            &&& (vars.owner_id is None ==> c.owner_id == 0)
        }),
{
    law_i64_decimal_round_trip(n);
}

} // verus!
