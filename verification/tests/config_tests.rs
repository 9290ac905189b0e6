use trading_core::config::{parse_log_level, Config, LogLevel};
use trading_core::errors::ApiError;

fn base_config() -> Config {
    Config {
        host: "127.0.0.1".to_string(),
        port: 8080,
        allowed_origins: vec!["http://localhost:5173".to_string()],
        supabase_url: "https://example.supabase.co".to_string(),
        supabase_anon_key: "anon-key".to_string(),
        supabase_service_key: None,
        deepseek_api_key: String::new(),
        deepseek_api_url: "https://api.deepseek.com/v1/chat/completions".to_string(),
        binance_api_key: None,
        binance_api_secret: None,
        binance_testnet_api_key: None,
        binance_testnet_api_secret: None,
        binance_base_url: "https://api.binance.com".to_string(),
        binance_testnet_base_url: "https://testnet.binance.vision".to_string(),
        binance_futures_testnet_base_url: "https://testnet.binancefuture.com".to_string(),
        binance_testnet_websockets_url: "wss://testnet.binancefuture.com/ws-fapi/v1".to_string(),
        demo_mode: true,
        trading_enabled: true,
        max_strategies_per_process: 50,
        health_check_interval: 30_000,
        market_fit_check_interval: 14_400_000,
        recovery_attempts: 3,
        jwt_secret: "0123456789abcdef0123456789abcdef".to_string(),
        jwt_expiration_hours: 24,
        bcrypt_cost: 12,
        rate_limit_requests_per_minute: 100,
        max_request_size: 1_048_576,
        session_timeout_minutes: 60,
        log_level: "info".to_string(),
        log_format: "json".to_string(),
        log_file: None,
        workers: 4,
        max_connections: 1_000,
        keep_alive: 75,
        client_timeout: 5_000,
        external_api_rate_limit: 60,
        external_api_timeout: 30_000,
        environment: "development".to_string(),
    }
}

#[test]
fn a_sound_configuration_validates() {
    assert!(base_config().validate().is_ok());
}

#[test]
fn each_broken_rule_is_a_config_error() {
    let mut c = base_config();
    c.port = 0;
    assert!(matches!(c.validate().unwrap_err(), ApiError::ConfigError(_)));

    let mut c = base_config();
    c.workers = 0;
    assert!(matches!(c.validate().unwrap_err(), ApiError::ConfigError(_)));

    let mut c = base_config();
    c.supabase_url = String::new();
    assert!(matches!(c.validate().unwrap_err(), ApiError::ConfigError(_)));

    let mut c = base_config();
    c.supabase_anon_key = String::new();
    assert!(matches!(c.validate().unwrap_err(), ApiError::ConfigError(_)));

    let mut c = base_config();
    c.jwt_secret = "too-short".to_string();
    assert!(matches!(c.validate().unwrap_err(), ApiError::ConfigError(_)));

    let mut c = base_config();
    c.allowed_origins = vec![];
    assert!(matches!(c.validate().unwrap_err(), ApiError::ConfigError(_)));

    let mut c = base_config();
    c.rate_limit_requests_per_minute = 0;
    assert!(matches!(c.validate().unwrap_err(), ApiError::ConfigError(_)));
}

#[test]
fn environment_flags() {
    let mut c = base_config();
    assert!(c.is_development());
    assert!(!c.is_production());
    assert!(!c.is_testing());
    assert!(!c.should_use_https());

    c.environment = "production".to_string();
    assert!(c.is_production());
    assert!(c.should_use_https());

    c.environment = "test".to_string();
    assert!(c.is_testing());
}

#[test]
fn database_url_appends_the_rest_path() {
    let c = base_config();
    assert_eq!(c.get_database_url(), "https://example.supabase.co/rest/v1");
}

#[test]
fn log_level_matches_without_regard_to_case() {
    // The lowercasing really happens: an upper-case name still selects
    // its level.
    let mut c = base_config();
    c.log_level = "TRACE".to_string();
    assert_eq!(c.get_log_level(), LogLevel::Trace);
    c.log_level = "Warn".to_string();
    assert_eq!(c.get_log_level(), LogLevel::Warn);
    c.log_level = "error".to_string();
    assert_eq!(c.get_log_level(), LogLevel::Error);
    c.log_level = "noisy".to_string();
    assert_eq!(c.get_log_level(), LogLevel::Info);
}

#[test]
fn parse_log_level_expects_lowercase_names() {
    assert_eq!(parse_log_level("debug"), LogLevel::Debug);
    assert_eq!(parse_log_level("DEBUG"), LogLevel::Info);
}
