use peerpower::config::FcmConfig;
use peerpower::fcm::{
    build_delivery_confirmation_message, build_sms_dispatch_message, build_status_update_message,
    fcm_confirmation_outcome, fcm_dispatch_outcome, fcm_status_update_outcome, FcmResponse,
};

#[test]
fn test_fcm_config_creation() {
    let config = FcmConfig {
        server_key: "test_server_key".to_string(),
        sender_id: "test_sender_id".to_string(),
        fcm_url: "https://fcm.googleapis.com/fcm/send".to_string(),
    };
    assert_eq!(config.server_key, "test_server_key");
    assert_eq!(config.fcm_url, "https://fcm.googleapis.com/fcm/send");
}

#[test]
fn dispatch_message_carries_the_payload() {
    let m = build_sms_dispatch_message("tok-1", "m-1", "+855101234567", "hello", "Normal");
    assert_eq!(m.to, "tok-1");
    assert_eq!(m.time_to_live, 300);
    assert_eq!(m.priority, "normal");
    let keys: Vec<&str> = m.data.iter().map(|(k, _)| k.as_str()).collect();
    assert_eq!(keys, vec!["type", "message_id", "recipient", "content", "priority"]);
    assert_eq!(m.data[0].1, "sms_dispatch");
    assert_eq!(m.data[1].1, "m-1");
    assert_eq!(m.data[2].1, "+855101234567");
    assert_eq!(m.data[3].1, "hello");
    assert_eq!(m.data[4].1, "Normal");
    let n = m.notification.unwrap();
    assert_eq!(n.title, "New SMS Request");
    assert_eq!(n.body, "Send SMS to +855101234567");
    assert_eq!(n.icon, Some("ic_sms".to_string()));
    assert_eq!(n.sound, Some("default".to_string()));
}

#[test]
fn only_high_priority_requests_urgent_handling() {
    let high = build_sms_dispatch_message("t", "m", "r", "c", "High");
    assert_eq!(high.priority, "high");
    let urgent = build_sms_dispatch_message("t", "m", "r", "c", "Urgent");
    assert_eq!(urgent.priority, "normal");
    let low = build_sms_dispatch_message("t", "m", "r", "c", "Low");
    assert_eq!(low.priority, "normal");
}

#[test]
fn confirmation_and_status_messages_are_silent() {
    let c = build_delivery_confirmation_message("tok", "m-1", "delivered");
    assert!(c.notification.is_none());
    assert_eq!(c.time_to_live, 60);
    assert_eq!(c.data[0].1, "delivery_confirmation");
    assert_eq!(c.data[1].1, "m-1");
    assert_eq!(c.data[2].1, "delivered");

    let s = build_status_update_message("tok", "online");
    assert!(s.notification.is_none());
    assert_eq!(s.time_to_live, 120);
    assert_eq!(s.data[0].1, "status_update");
    assert_eq!(s.data[1].1, "online");
}

fn response(success: u32, failure: u32) -> FcmResponse {
    FcmResponse { multicast_id: None, success, failure, canonical_ids: 0, results: None }
}

#[test]
fn transport_outcomes_follow_the_success_count() {
    assert_eq!(
        fcm_dispatch_outcome(&response(1, 0)).unwrap(),
        "FCM dispatch request sent successfully"
    );
    assert!(fcm_dispatch_outcome(&response(0, 1)).is_err());
    assert!(fcm_confirmation_outcome(&response(2, 0)).is_ok());
    assert!(fcm_confirmation_outcome(&response(0, 0)).is_err());
    assert!(fcm_status_update_outcome(&response(1, 1)).is_ok());
    let err = fcm_status_update_outcome(&response(0, 3)).unwrap_err();
    assert_eq!(err.error_code(), "EXTERNAL_SERVICE_ERROR");
}

#[test]
fn generated_ids_are_uuid_shaped() {
    let a = peerpower::util::generate_id();
    let b = peerpower::util::generate_id();
    assert_eq!(a.len(), 36);
    assert_eq!(b.len(), 36);
    assert_ne!(a, b);
}

#[test]
fn clock_reads_within_engine_range() {
    let t = peerpower::util::now();
    assert!(t <= peerpower::util::MAX_TIMESTAMP_MS);
    assert!(t > 1_600_000_000_000, "the clock reads a modern date");
}

#[test]
fn password_hash_round_trip() {
    let hash = peerpower::util::hash_password("correct horse").unwrap();
    assert_ne!(hash, "correct horse", "the hash is not the password itself");
    assert!(hash.starts_with("$argon2"));
    assert!(peerpower::util::verify_password("correct horse", &hash).unwrap());
    assert!(!peerpower::util::verify_password("wrong horse", &hash).unwrap());
    assert!(peerpower::util::verify_password("x", "not a phc hash").is_err());
}
