//! Service configuration: the validated settings the surrounding
//! service runs with. Reading the environment happens outside; this
//! module holds the values and the rules they must satisfy.

use vstd::prelude::*;
use vstd::string::{StringExecFns, StrSliceExecFns};
use crate::errors::ApiError;

verus! {

/// The verbosity the service logs at.
#[derive(Clone, Copy, Debug, PartialEq, Eq, Structural)]
pub enum LogLevel {
    Trace,
    Debug,
    Info,
    Warn,
    Error,
}

/// The result of lowercasing a string, as `str::to_lowercase` defines
/// it.
pub uninterp spec fn lower_of(s: Seq<char>) -> Seq<char>;

/// Relies on str's `to_lowercase`: the result depends on the
/// characters alone.
#[verifier::external_body]
fn lowercase(s: &str) -> (r: String)
    ensures
        r@ == lower_of(s@),
{
    s.to_lowercase()
}

/// The level a lowercased name selects; anything unrecognized selects
/// `Info`.
pub open spec fn log_level_of(s: Seq<char>) -> LogLevel {
    if s == "trace"@ {
        LogLevel::Trace
    } else if s == "debug"@ {
        LogLevel::Debug
    } else if s == "info"@ {
        LogLevel::Info
    } else if s == "warn"@ {
        LogLevel::Warn
    } else if s == "error"@ {
        LogLevel::Error
    } else {
        LogLevel::Info
    }
}

/// Selects the log level a lowercased name stands for.
pub fn parse_log_level(s: &str) -> (l: LogLevel)
    ensures
        l == log_level_of(s@),
{
    let name = s.to_owned();
    if name == "trace".to_owned() {
        LogLevel::Trace
    } else if name == "debug".to_owned() {
        LogLevel::Debug
    } else if name == "info".to_owned() {
        LogLevel::Info
    } else if name == "warn".to_owned() {
        LogLevel::Warn
    } else if name == "error".to_owned() {
        LogLevel::Error
    } else {
        LogLevel::Info
    }
}

/// Every setting of the service: the server, the data store, the
/// collaborators' endpoints and credentials, the security limits and
/// the logging choices. Built by the surrounding service from its
/// environment and validated here.
#[derive(Debug)]
pub struct Config {
    pub host: String,
    pub port: u16,
    pub allowed_origins: Vec<String>,
    pub supabase_url: String,
    pub supabase_anon_key: String,
    pub supabase_service_key: Option<String>,
    pub deepseek_api_key: String,
    pub deepseek_api_url: String,
    pub binance_api_key: Option<String>,
    pub binance_api_secret: Option<String>,
    pub binance_testnet_api_key: Option<String>,
    pub binance_testnet_api_secret: Option<String>,
    pub binance_base_url: String,
    pub binance_testnet_base_url: String,
    pub binance_futures_testnet_base_url: String,
    pub binance_testnet_websockets_url: String,
    pub demo_mode: bool,
    pub trading_enabled: bool,
    pub max_strategies_per_process: usize,
    pub health_check_interval: u64,
    pub market_fit_check_interval: u64,
    pub recovery_attempts: usize,
    pub jwt_secret: String,
    pub jwt_expiration_hours: i64,
    pub bcrypt_cost: u32,
    pub rate_limit_requests_per_minute: u32,
    pub max_request_size: usize,
    pub session_timeout_minutes: u64,
    pub log_level: String,
    pub log_format: String,
    pub log_file: Option<String>,
    pub workers: usize,
    pub max_connections: usize,
    pub keep_alive: u64,
    pub client_timeout: u64,
    pub external_api_rate_limit: u32,
    pub external_api_timeout: u64,
    pub environment: String,
}

/// Whether a configuration passes validation: a usable port, at least
/// one worker, a data store named, a long enough token secret, at
/// least one allowed origin and a positive rate limit.
pub open spec fn spec_config_valid(c: Config) -> bool {
    &&& c.port != 0
    &&& c.workers != 0
    &&& c.supabase_url@.len() != 0
    &&& c.supabase_anon_key@.len() != 0
    &&& c.jwt_secret@.len() >= 32
    &&& c.allowed_origins@.len() != 0
    &&& c.rate_limit_requests_per_minute != 0
}

impl Config {
    /// Checks the configuration, reporting the first broken rule.
    pub fn validate(&self) -> (r: Result<(), ApiError>)
        ensures
            r is Ok <==> spec_config_valid(*self),
            r matches Err(e) ==> e is ConfigError,
    {
        if self.port == 0 {
            return Err(ApiError::ConfigError("invalid port number".to_owned()));
        }
        if self.workers == 0 {
            return Err(ApiError::ConfigError("workers must be greater than zero".to_owned()));
        }
        if self.supabase_url.as_str().unicode_len() == 0 {
            return Err(ApiError::ConfigError("data store URL cannot be empty".to_owned()));
        }
        if self.supabase_anon_key.as_str().unicode_len() == 0 {
            return Err(ApiError::ConfigError("data store key cannot be empty".to_owned()));
        }
        if self.jwt_secret.as_str().unicode_len() < 32 {
            return Err(
                ApiError::ConfigError("token secret must be at least 32 characters".to_owned()),
            );
        }
        if self.allowed_origins.len() == 0 {
            return Err(
                ApiError::ConfigError("at least one allowed origin must be given".to_owned()),
            );
        }
        if self.rate_limit_requests_per_minute == 0 {
            return Err(ApiError::ConfigError("rate limit must be greater than zero".to_owned()));
        }
        Ok(())
    }

    /// Whether the service runs against production settings.
    pub fn is_production(&self) -> (r: bool)
        ensures
            r == (self.environment@ == "production"@),
    {
        self.environment == "production".to_owned()
    }

    /// Whether the service runs against development settings.
    pub fn is_development(&self) -> (r: bool)
        ensures
            r == (self.environment@ == "development"@),
    {
        self.environment == "development".to_owned()
    }

    /// Whether the service runs under a test harness.
    pub fn is_testing(&self) -> (r: bool)
        ensures
            r == (self.environment@ == "test"@),
    {
        self.environment == "test".to_owned()
    }

    /// Whether connections should insist on TLS: exactly in
    /// production.
    pub fn should_use_https(&self) -> (r: bool)
        ensures
            r == (self.environment@ == "production"@),
    {
        self.is_production()
    }

    /// The REST endpoint of the data store.
    pub fn get_database_url(&self) -> (r: String)
        ensures
            r@ == self.supabase_url@ + "/rest/v1"@,
    {
        self.supabase_url.clone().concat("/rest/v1")
    }

    /// The level the configured name selects, matched without regard
    /// to case; an unrecognized name selects `Info`.
    pub fn get_log_level(&self) -> (r: LogLevel)
        ensures
            r == log_level_of(lower_of(self.log_level@)),
    {
        let lowered = lowercase(self.log_level.as_str());
        parse_log_level(lowered.as_str())
    }
}

} // verus!
