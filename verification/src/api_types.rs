//! The request, response and claim shapes of the service's API
//! surface. The HTTP layer outside converts between its wire types and
//! these.

use vstd::prelude::*;

verus! {

/// A login attempt.
#[derive(Debug, Clone)]
pub struct LoginRequest {
    pub email: String,
    pub password: String,
}

/// A token-refresh request.
#[derive(Debug, Clone)]
pub struct RefreshRequest {
    pub token: String,
}

/// A freshly issued token.
#[derive(Debug, Clone)]
pub struct TokenResponse {
    pub token: String,
}

/// A successful login: the token and who it belongs to.
#[derive(Debug, Clone)]
pub struct LoginResponse {
    pub token: String,
    pub user_id: String,
    pub email: String,
    pub expires_at: i64,
}

/// The claims carried by an access token.
#[derive(Debug, Clone)]
pub struct Claims {
    pub sub: String,
    pub exp: u64,
    pub iat: u64,
    pub email: String,
}

/// Query bounds for a candle request.
#[derive(Debug, Clone)]
pub struct CandleQuery {
    pub timeframe: Option<String>,
    pub limit: Option<usize>,
}

/// Query bounds for a ticker request.
#[derive(Debug, Clone)]
pub struct TickerQuery {
    pub symbols: Option<String>,
}

/// Query bounds for an order-book request.
#[derive(Debug, Clone)]
pub struct OrderbookQuery {
    pub limit: Option<usize>,
}

/// One scheduled task's bookkeeping, shaped for the status endpoint.
#[derive(Debug, Clone)]
pub struct TaskStatusResponse {
    pub id: String,
    pub name: String,
    pub is_running: bool,
    pub last_run: Option<String>,
    pub next_run: String,
    pub run_count: u64,
    pub error_count: u64,
}

/// Query bounds for a metrics request.
#[derive(Debug, Clone)]
pub struct MetricsQuery {
    pub timeframe: Option<String>,
    pub strategy_id: Option<String>,
}

/// Query bounds for an alert listing.
#[derive(Debug, Clone)]
pub struct AlertQuery {
    pub severity: Option<String>,
    pub limit: Option<usize>,
}

/// Query bounds for a news listing.
#[derive(Debug, Clone)]
pub struct NewsRequest {
    pub limit: Option<usize>,
}

/// A notice that a live-update session went away.
#[derive(Debug, Clone)]
pub struct Disconnect {
    pub id: String,
}

} // verus!
