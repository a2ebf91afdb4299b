use peerpower::errors::PeerPowerError;
use peerpower::types::{Carrier, MessageStatus, PhoneNumber, ProviderStatus};

#[test]
fn phone_number_accepts_canonical_form() {
    let p = PhoneNumber::new("+855101234567".to_string()).unwrap();
    assert_eq!(p.as_str(), "+855101234567");
}

#[test]
fn phone_number_adds_plus_to_bare_country_code() {
    let p = PhoneNumber::new("855101234567".to_string()).unwrap();
    assert_eq!(p.as_str(), "+855101234567");
}

#[test]
fn phone_number_normalizes_local_form() {
    let p = PhoneNumber::new("0101234567".to_string()).unwrap();
    assert_eq!(p.as_str(), "+855101234567");
}

#[test]
fn phone_number_strips_separators() {
    let p = PhoneNumber::new(" +855 (10) 123-4567 ".to_string()).unwrap();
    assert_eq!(p.as_str(), "+855101234567");
}

#[test]
fn phone_number_rejects_foreign_and_short_numbers() {
    assert!(PhoneNumber::new("+14155550101".to_string()).is_err());
    assert!(PhoneNumber::new("+85510".to_string()).is_err());
    assert!(PhoneNumber::new("".to_string()).is_err());
    match PhoneNumber::new("12345".to_string()) {
        Err(PeerPowerError::ValidationError { field, .. }) => assert_eq!(field, "phone"),
        other => panic!("expected a validation error, got {:?}", other),
    }
}

#[test]
fn carrier_inferred_from_prefix() {
    let smart = PhoneNumber::new("+855101234567".to_string()).unwrap();
    assert_eq!(Carrier::from_phone_number(&smart), Carrier::Smart);
    let metfone = PhoneNumber::new("+855311234567".to_string()).unwrap();
    assert_eq!(Carrier::from_phone_number(&metfone), Carrier::Metfone);
    let cellcard = PhoneNumber::new("+855121234567".to_string()).unwrap();
    assert_eq!(Carrier::from_phone_number(&cellcard), Carrier::Cellcard);
    let qb = PhoneNumber::new("+855131234567".to_string()).unwrap();
    assert_eq!(Carrier::from_phone_number(&qb), Carrier::Qb);
    let unknown = PhoneNumber::new("+855991234567".to_string()).unwrap();
    assert_eq!(Carrier::from_phone_number(&unknown), Carrier::Unknown);
}

#[test]
fn status_labels_are_lower_case() {
    assert_eq!(MessageStatus::Pending.label(), "pending");
    assert_eq!(MessageStatus::Delivered.label(), "delivered");
    assert_eq!(ProviderStatus::Online.label(), "online");
    assert_eq!(ProviderStatus::Suspended.label(), "suspended");
}

#[test]
fn provider_status_parses_ignoring_case() {
    assert_eq!(ProviderStatus::parse("online"), Some(ProviderStatus::Online));
    assert_eq!(ProviderStatus::parse("Online"), Some(ProviderStatus::Online));
    assert_eq!(ProviderStatus::parse("BUSY"), Some(ProviderStatus::Busy));
    assert_eq!(ProviderStatus::parse("suspended"), Some(ProviderStatus::Suspended));
    assert_eq!(ProviderStatus::parse("offline"), Some(ProviderStatus::Offline));
    assert_eq!(ProviderStatus::parse("sleeping"), None);
    assert_eq!(ProviderStatus::parse(""), None);
}

#[test]
fn error_codes_cover_every_variant() {
    let cases: Vec<(PeerPowerError, &str, u16)> = vec![
        (PeerPowerError::Database { message: "m".to_string() }, "DATABASE_ERROR", 500),
        (
            PeerPowerError::ProviderUnavailable { carrier: "smart".to_string() },
            "PROVIDER_UNAVAILABLE",
            503,
        ),
        (
            PeerPowerError::AuthenticationFailed { reason: "r".to_string() },
            "AUTHENTICATION_FAILED",
            401,
        ),
        (
            PeerPowerError::ValidationError { field: "f".to_string(), message: "m".to_string() },
            "VALIDATION_ERROR",
            400,
        ),
        (PeerPowerError::PaymentFailed { reason: "r".to_string() }, "PAYMENT_FAILED", 402),
        (
            PeerPowerError::ExternalService {
                service: "s".to_string(),
                message: "m".to_string(),
            },
            "EXTERNAL_SERVICE_ERROR",
            502,
        ),
        (
            PeerPowerError::RateLimitExceeded { resource: "r".to_string() },
            "RATE_LIMIT_EXCEEDED",
            429,
        ),
        (PeerPowerError::NotFound { resource: "r".to_string() }, "NOT_FOUND", 404),
        (PeerPowerError::Internal { message: "m".to_string() }, "INTERNAL_ERROR", 500),
        (
            PeerPowerError::Configuration { message: "m".to_string() },
            "CONFIGURATION_ERROR",
            500,
        ),
        (PeerPowerError::BlockchainError { reason: "r".to_string() }, "BLOCKCHAIN_ERROR", 502),
        (
            PeerPowerError::SmsDeliveryFailed { reason: "r".to_string() },
            "SMS_DELIVERY_FAILED",
            502,
        ),
    ];
    for (err, code, status) in cases {
        assert_eq!(err.error_code(), code);
        assert_eq!(err.status_code(), status);
    }
}

#[test]
fn bearer_token_extraction() {
    assert_eq!(
        peerpower::auth::extract_bearer_token("Bearer abc123"),
        Some("abc123".to_string())
    );
    assert_eq!(peerpower::auth::extract_bearer_token("Basic abc123"), None);
    assert_eq!(peerpower::auth::extract_bearer_token("Bearer "), None);
    assert_eq!(peerpower::auth::extract_bearer_token(""), None);
    assert_eq!(
        peerpower::auth::extract_bearer_token("Bearer Bearer tok"),
        Some("tok".to_string())
    );
}

#[test]
fn bind_address_renders_host_and_port() {
    let config = peerpower::config::AppConfig {
        server: peerpower::config::ServerConfig {
            host: "0.0.0.0".to_string(),
            port: 8080,
            environment: peerpower::config::Environment::Development,
        },
        database: peerpower::config::DatabaseConfig {
            url: "u".to_string(),
            name: "n".to_string(),
            max_connections: 100,
            min_connections: 5,
            connection_timeout_seconds: 30,
        },
        redis: peerpower::config::RedisConfig {
            url: "u".to_string(),
            max_connections: 50,
            connection_timeout_seconds: 10,
        },
        auth: peerpower::config::AuthConfig {
            jwt_secret: "s".to_string(),
            jwt_expiration_hours: 24,
            otp_expiration_minutes: 5,
        },
        external: peerpower::config::ExternalServicesConfig {
            fcm: peerpower::config::FcmConfig {
                server_key: "k".to_string(),
                sender_id: "i".to_string(),
                fcm_url: "u".to_string(),
            },
            baray: peerpower::config::BarayConfig {
                api_key: "k".to_string(),
                webhook_secret: "s".to_string(),
                base_url: "u".to_string(),
            },
            selendra: peerpower::config::SelendraConfig {
                rpc_url: "u".to_string(),
                private_key: "k".to_string(),
                token_contract_address: "a".to_string(),
            },
        },
        instance: peerpower::config::InstanceConfig {
            id: "one".to_string(),
            region: "kh".to_string(),
            zone: None,
        },
    };
    assert_eq!(config.bind_address(), "0.0.0.0:8080");
    assert!(config.is_development());
    assert!(!config.is_production());
}
