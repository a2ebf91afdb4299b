//! The service's error taxonomy.
//!
//! Transient errors (`ProviderUnavailable`, `ExternalService`) are absorbed by
//! the retry policy; terminal ones surface to the submitter. `ValidationError`
//! rejects work at submission so that it never enters the queue.

use vstd::prelude::*;

verus! {

/// Main application error type.
#[derive(Debug, Clone)]
pub enum PeerPowerError {
    Database { message: String },
    ProviderUnavailable { carrier: String },
    AuthenticationFailed { reason: String },
    ValidationError { field: String, message: String },
    PaymentFailed { reason: String },
    ExternalService { service: String, message: String },
    RateLimitExceeded { resource: String },
    NotFound { resource: String },
    Internal { message: String },
    Configuration { message: String },
    BlockchainError { reason: String },
    SmsDeliveryFailed { reason: String },
}

/// The stable client-facing code for each error variant.
pub open spec fn spec_error_code(e: &PeerPowerError) -> Seq<char> {
    match e {
        PeerPowerError::Database { .. } => "DATABASE_ERROR"@,
        PeerPowerError::ProviderUnavailable { .. } => "PROVIDER_UNAVAILABLE"@,
        PeerPowerError::AuthenticationFailed { .. } => "AUTHENTICATION_FAILED"@,
        PeerPowerError::ValidationError { .. } => "VALIDATION_ERROR"@,
        PeerPowerError::PaymentFailed { .. } => "PAYMENT_FAILED"@,
        PeerPowerError::ExternalService { .. } => "EXTERNAL_SERVICE_ERROR"@,
        PeerPowerError::RateLimitExceeded { .. } => "RATE_LIMIT_EXCEEDED"@,
        PeerPowerError::NotFound { .. } => "NOT_FOUND"@,
        PeerPowerError::Internal { .. } => "INTERNAL_ERROR"@,
        PeerPowerError::Configuration { .. } => "CONFIGURATION_ERROR"@,
        PeerPowerError::BlockchainError { .. } => "BLOCKCHAIN_ERROR"@,
        PeerPowerError::SmsDeliveryFailed { .. } => "SMS_DELIVERY_FAILED"@,
    }
}

/// The HTTP status that each error variant maps to.
pub open spec fn spec_status_code(e: &PeerPowerError) -> u16 {
    match e {
        PeerPowerError::Database { .. } => 500,
        PeerPowerError::ProviderUnavailable { .. } => 503,
        PeerPowerError::AuthenticationFailed { .. } => 401,
        PeerPowerError::ValidationError { .. } => 400,
        PeerPowerError::PaymentFailed { .. } => 402,
        PeerPowerError::ExternalService { .. } => 502,
        PeerPowerError::RateLimitExceeded { .. } => 429,
        PeerPowerError::NotFound { .. } => 404,
        PeerPowerError::Internal { .. } => 500,
        PeerPowerError::Configuration { .. } => 500,
        PeerPowerError::BlockchainError { .. } => 502,
        PeerPowerError::SmsDeliveryFailed { .. } => 502,
    }
}

impl PeerPowerError {
    /// Get the numeric HTTP status code for the error.
    pub fn status_code(&self) -> (r: u16)
        ensures
            r == spec_status_code(self),
    {
        match self {
            PeerPowerError::Database { .. } => 500,
            PeerPowerError::ProviderUnavailable { .. } => 503,
            PeerPowerError::AuthenticationFailed { .. } => 401,
            PeerPowerError::ValidationError { .. } => 400,
            PeerPowerError::PaymentFailed { .. } => 402,
            PeerPowerError::ExternalService { .. } => 502,
            PeerPowerError::RateLimitExceeded { .. } => 429,
            PeerPowerError::NotFound { .. } => 404,
            PeerPowerError::Internal { .. } => 500,
            PeerPowerError::Configuration { .. } => 500,
            PeerPowerError::BlockchainError { .. } => 502,
            PeerPowerError::SmsDeliveryFailed { .. } => 502,
        }
    }

    /// Get the error code for client identification.
    pub fn error_code(&self) -> (r: &'static str)
        ensures
            r@ == spec_error_code(self),
    {
        match self {
            PeerPowerError::Database { .. } => "DATABASE_ERROR",
            PeerPowerError::ProviderUnavailable { .. } => "PROVIDER_UNAVAILABLE",
            PeerPowerError::AuthenticationFailed { .. } => "AUTHENTICATION_FAILED",
            PeerPowerError::ValidationError { .. } => "VALIDATION_ERROR",
            PeerPowerError::PaymentFailed { .. } => "PAYMENT_FAILED",
            PeerPowerError::ExternalService { .. } => "EXTERNAL_SERVICE_ERROR",
            PeerPowerError::RateLimitExceeded { .. } => "RATE_LIMIT_EXCEEDED",
            PeerPowerError::NotFound { .. } => "NOT_FOUND",
            PeerPowerError::Internal { .. } => "INTERNAL_ERROR",
            PeerPowerError::Configuration { .. } => "CONFIGURATION_ERROR",
            PeerPowerError::BlockchainError { .. } => "BLOCKCHAIN_ERROR",
            PeerPowerError::SmsDeliveryFailed { .. } => "SMS_DELIVERY_FAILED",
        }
    }
}

} // verus!
