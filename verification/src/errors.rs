//! The error taxonomy of the library.
//!
//! `Validation` marks malformed input, rejected synchronously and never
//! retried. `InsufficientBudget` marks a trade whose cost exceeds the
//! available capital of its strategy. `NotFound` marks a missing
//! entity. `InvalidState` marks an illegal lifecycle transition, never
//! silently coerced into a different one. The remaining variants carry
//! failures of outside collaborators and of configuration.

use vstd::prelude::*;

verus! {

/// An error surfaced by the library or by the surrounding service.
#[derive(Debug)]
pub enum ApiError {
    /// Authentication failure.
    Auth(String),
    /// Failure of the persistence collaborator.
    Database(String),
    /// Malformed input.
    Validation(String),
    /// A missing entity.
    NotFound(String),
    /// Failure of the exchange collaborator.
    Exchange(String),
    /// Failure of some other outside collaborator.
    ExternalApi(String),
    /// A caller over its request quota.
    RateLimit(String),
    /// A broken internal invariant: a defect, not a runtime case.
    Internal(String),
    /// An invalid configuration value.
    ConfigError(String),
    /// A trade cost above the strategy's available capital.
    InsufficientBudget(String),
    /// An illegal trade lifecycle transition.
    InvalidState(String),
}

impl ApiError {
    /// The message carried by the error.
    pub fn message(&self) -> &String {
        match self {
            ApiError::Auth(m) => m,
            ApiError::Database(m) => m,
            ApiError::Validation(m) => m,
            ApiError::NotFound(m) => m,
            ApiError::Exchange(m) => m,
            ApiError::ExternalApi(m) => m,
            ApiError::RateLimit(m) => m,
            ApiError::Internal(m) => m,
            ApiError::ConfigError(m) => m,
            ApiError::InsufficientBudget(m) => m,
            ApiError::InvalidState(m) => m,
        }
    }
}

} // verus!
