//! Application configuration, taken from environment variables.

use vstd::prelude::*;

use crate::number::{decimal, decimal_within, parse_i64, parse_u16};

verus! {

/// Application configuration.
#[derive(Clone)]
pub struct Config {
    pub database_url: String,
    pub redis_url: String,
    pub jwt_secret: String,
    pub jwt_access_token_ttl_minutes: i64,
    pub jwt_refresh_token_ttl_days: i64,
    pub rust_api_port: u16,
    pub ai_service_internal_url: String,
}

/// Why the configuration could not be loaded; each names the variable.
#[derive(Debug, Clone)]
pub enum ConfigError {
    MissingVar(String),
    InvalidVar(String),
}

/// The values of the environment variables the configuration reads; `None`
/// where a variable is unset or not valid Unicode.
pub struct EnvVars {
    pub database_url: Option<String>,
    pub redis_url: Option<String>,
    pub jwt_secret: Option<String>,
    pub jwt_access_token_ttl_minutes: Option<String>,
    pub jwt_refresh_token_ttl_days: Option<String>,
    pub rust_api_port: Option<String>,
    pub ai_service_internal_url: Option<String>,
}

/// The content of a `Config`.
pub struct ConfigView {
    pub database_url: Seq<char>,
    pub redis_url: Seq<char>,
    pub jwt_secret: Seq<char>,
    pub jwt_access_token_ttl_minutes: int,
    pub jwt_refresh_token_ttl_days: int,
    pub rust_api_port: int,
    pub ai_service_internal_url: Seq<char>,
}

/// The content of a `ConfigError`.
pub enum ConfigErrorView {
    MissingVar(Seq<char>),
    InvalidVar(Seq<char>),
}

impl View for Config {
    type V = ConfigView;

    open spec fn view(&self) -> ConfigView {
        ConfigView {
            database_url: self.database_url@,
            redis_url: self.redis_url@,
            jwt_secret: self.jwt_secret@,
            jwt_access_token_ttl_minutes: self.jwt_access_token_ttl_minutes as int,
            jwt_refresh_token_ttl_days: self.jwt_refresh_token_ttl_days as int,
            rust_api_port: self.rust_api_port as int,
            ai_service_internal_url: self.ai_service_internal_url@,
        }
    }
}

impl View for ConfigError {
    type V = ConfigErrorView;

    open spec fn view(&self) -> ConfigErrorView {
        match self {
            ConfigError::MissingVar(k) => ConfigErrorView::MissingVar(k@),
            ConfigError::InvalidVar(k) => ConfigErrorView::InvalidVar(k@),
        }
    }
}

pub open spec fn text_of(v: Option<String>) -> Option<Seq<char>> {
    match v {
        Some(s) => Some(s@),
        None => None,
    }
}

/// A variable that must be set.
pub open spec fn required(value: Option<Seq<char>>, key: Seq<char>) -> Result<Seq<char>, ConfigErrorView> {
    match value {
        Some(v) => Ok(v),
        None => Err(ConfigErrorView::MissingVar(key)),
    }
}

/// A numeric variable: its default when unset, its value when it reads as
/// a number in range, an invalid-variable error otherwise.
pub open spec fn numeric(
    value: Option<Seq<char>>,
    key: Seq<char>,
    default: int,
    signed: bool,
    lo: int,
    hi: int,
) -> Result<int, ConfigErrorView> {
    match value {
        None => Ok(default),
        Some(v) => match decimal_within(v, signed, lo, hi) {
            Some(n) => Ok(n),
            None => Err(ConfigErrorView::InvalidVar(key)),
        },
    }
}

/// The configuration the variables give, or the first variable (in the
/// order below) that is missing or invalid.
pub open spec fn config_outcome(vars: EnvVars) -> Result<ConfigView, ConfigErrorView> {
    match required(text_of(vars.database_url), "DATABASE_URL"@) {
        Err(e) => Err(e),
        Ok(database_url) => match required(text_of(vars.redis_url), "REDIS_URL"@) {
            Err(e) => Err(e),
            Ok(redis_url) => match required(text_of(vars.jwt_secret), "JWT_SECRET"@) {
                Err(e) => Err(e),
                Ok(jwt_secret) => match numeric(
                    text_of(vars.jwt_access_token_ttl_minutes),
                    "JWT_ACCESS_TOKEN_TTL_MINUTES"@,
                    15,
                    true,
                    i64::MIN as int,
                    i64::MAX as int,
                ) {
                    Err(e) => Err(e),
                    Ok(access) => match numeric(
                        text_of(vars.jwt_refresh_token_ttl_days),
                        "JWT_REFRESH_TOKEN_TTL_DAYS"@,
                        30,
                        true,
                        i64::MIN as int,
                        i64::MAX as int,
                    ) {
                        Err(e) => Err(e),
                        Ok(refresh) => match numeric(
                            text_of(vars.rust_api_port),
                            "RUST_API_PORT"@,
                            8080,
                            false,
                            0,
                            u16::MAX as int,
                        ) {
                            Err(e) => Err(e),
                            Ok(port) => Ok(
                                ConfigView {
                                    database_url,
                                    redis_url,
                                    jwt_secret,
                                    jwt_access_token_ttl_minutes: access,
                                    jwt_refresh_token_ttl_days: refresh,
                                    rust_api_port: port,
                                    ai_service_internal_url: match text_of(
                                        vars.ai_service_internal_url,
                                    ) {
                                        Some(u) => u,
                                        None => "http://localhost:8000"@,
                                    },
                                },
                            ),
                        },
                    },
                },
            },
        },
    }
}

pub open spec fn config_result(r: Result<Config, ConfigError>) -> Result<ConfigView, ConfigErrorView> {
    match r {
        Ok(c) => Ok(c@),
        Err(e) => Err(e@),
    }
}

fn require_env(key: &str, value: Option<String>) -> (r: Result<String, ConfigError>)
    ensures
        match r {
            Ok(v) => required(text_of(value), key@) == Ok::<Seq<char>, ConfigErrorView>(v@),
            Err(e) => required(text_of(value), key@) == Err::<Seq<char>, ConfigErrorView>(e@),
        },
{
    match value {
        Some(v) => Ok(v),
        None => Err(ConfigError::MissingVar(key.to_owned())),
    }
}

fn parse_env_i64(key: &str, value: Option<String>, default: i64) -> (r: Result<i64, ConfigError>)
    ensures
        match r {
            Ok(v) => numeric(text_of(value), key@, default as int, true, i64::MIN as int, i64::MAX as int)
                == Ok::<int, ConfigErrorView>(v as int),
            Err(e) => numeric(text_of(value), key@, default as int, true, i64::MIN as int, i64::MAX as int)
                == Err::<int, ConfigErrorView>(e@),
        },
{
    match value {
        None => Ok(default),
        Some(v) => match parse_i64(v.as_str()) {
            Some(n) => Ok(n),
            None => Err(ConfigError::InvalidVar(key.to_owned())),
        },
    }
}

fn parse_env_u16(key: &str, value: Option<String>, default: u16) -> (r: Result<u16, ConfigError>)
    ensures
        match r {
            Ok(v) => numeric(text_of(value), key@, default as int, false, 0, u16::MAX as int) == Ok::<
                int,
                ConfigErrorView,
            >(v as int),
            Err(e) => numeric(text_of(value), key@, default as int, false, 0, u16::MAX as int)
                == Err::<int, ConfigErrorView>(e@),
        },
{
    match value {
        None => Ok(default),
        Some(v) => match parse_u16(v.as_str()) {
            Some(n) => Ok(n),
            None => Err(ConfigError::InvalidVar(key.to_owned())),
        },
    }
}

impl Config {
    /// The configuration given by the environment's values: the three
    /// URLs/secrets are required, the token lifetimes default to 15 minutes
    /// and 30 days, the port to 8080 and the AI service URL to
    /// `http://localhost:8000`.
    pub fn from_vars(vars: EnvVars) -> (r: Result<Config, ConfigError>)
        ensures
            config_result(r) == config_outcome(vars),
            r matches Ok(c) ==> text_of(vars.database_url) == Some(c.database_url@) && text_of(
                vars.redis_url,
            ) == Some(c.redis_url@) && text_of(vars.jwt_secret) == Some(c.jwt_secret@),
    {
        proof {
            if config_outcome(vars) is Ok {
                loaded_config_holds_each_variable(vars);
            }
        }
        let EnvVars {
            database_url,
            redis_url,
            jwt_secret,
            jwt_access_token_ttl_minutes,
            jwt_refresh_token_ttl_days,
            rust_api_port,
            ai_service_internal_url,
        } = vars;
        let database_url = require_env("DATABASE_URL", database_url)?;
        let redis_url = require_env("REDIS_URL", redis_url)?;
        let jwt_secret = require_env("JWT_SECRET", jwt_secret)?;
        let access = parse_env_i64("JWT_ACCESS_TOKEN_TTL_MINUTES", jwt_access_token_ttl_minutes, 15)?;
        let refresh = parse_env_i64("JWT_REFRESH_TOKEN_TTL_DAYS", jwt_refresh_token_ttl_days, 30)?;
        let port = parse_env_u16("RUST_API_PORT", rust_api_port, 8080)?;
        let ai = match ai_service_internal_url {
            Some(u) => u,
            None => "http://localhost:8000".to_owned(),
        };
        Ok(
            Config {
                database_url,
                redis_url,
                jwt_secret,
                jwt_access_token_ttl_minutes: access,
                jwt_refresh_token_ttl_days: refresh,
                rust_api_port: port,
                ai_service_internal_url: ai,
            },
        )
    }
}

/// A configuration that loads holds each variable's own value: the
/// database URL, the cache URL and the signing secret as they are set; each
/// token lifetime and the port as the number its text reads as, or 15
/// minutes, 30 days and 8080 when unset; the AI service URL as set, or
/// `http://localhost:8000` when unset.
pub proof fn loaded_config_holds_each_variable(vars: EnvVars)
    requires
        config_outcome(vars) is Ok,
    ensures
        ({
            let c = config_outcome(vars)->Ok_0;
            &&& text_of(vars.database_url) == Some(c.database_url)
            &&& text_of(vars.redis_url) == Some(c.redis_url)
            &&& text_of(vars.jwt_secret) == Some(c.jwt_secret)
            &&& c.jwt_access_token_ttl_minutes == match text_of(vars.jwt_access_token_ttl_minutes) {
                None => 15,
                Some(t) => decimal(t, true)->Some_0,
            }
            &&& c.jwt_refresh_token_ttl_days == match text_of(vars.jwt_refresh_token_ttl_days) {
                None => 30,
                Some(t) => decimal(t, true)->Some_0,
            }
            &&& c.rust_api_port == match text_of(vars.rust_api_port) {
                None => 8080,
                Some(t) => decimal(t, false)->Some_0,
            }
            &&& c.ai_service_internal_url == match text_of(vars.ai_service_internal_url) {
                None => "http://localhost:8000"@,
                Some(u) => u,
            }
        }),
{
}

/// The configuration loads exactly when the database URL, the cache URL
/// and the signing secret are set, and each token lifetime and the port is
/// unset or reads as a number that fits its type. A missing database URL is
/// reported first, then a missing cache URL, then a missing secret.
pub proof fn config_loads_exactly_when(vars: EnvVars)
    ensures
        config_outcome(vars) is Ok <==> ({
            &&& vars.database_url is Some
            &&& vars.redis_url is Some
            &&& vars.jwt_secret is Some
            &&& (text_of(vars.jwt_access_token_ttl_minutes) matches Some(t) ==> decimal(t, true) matches Some(
                n,
            ) && i64::MIN <= n <= i64::MAX)
            &&& (text_of(vars.jwt_refresh_token_ttl_days) matches Some(t) ==> decimal(t, true) matches Some(
                n,
            ) && i64::MIN <= n <= i64::MAX)
            &&& (text_of(vars.rust_api_port) matches Some(t) ==> decimal(t, false) matches Some(n) && 0
                <= n <= u16::MAX)
        }),
        vars.database_url is None ==> config_outcome(vars) == Err::<ConfigView, ConfigErrorView>(
            ConfigErrorView::MissingVar("DATABASE_URL"@),
        ),
        vars.database_url is Some && vars.redis_url is None ==> config_outcome(vars) == Err::<
            ConfigView,
            ConfigErrorView,
        >(ConfigErrorView::MissingVar("REDIS_URL"@)),
        vars.database_url is Some && vars.redis_url is Some && vars.jwt_secret is None
            ==> config_outcome(vars) == Err::<ConfigView, ConfigErrorView>(
            ConfigErrorView::MissingVar("JWT_SECRET"@),
        ),
{
}

} // verus!
