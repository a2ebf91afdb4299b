use peerpower::job::{Job, JobStatus, JOB_TIMEOUT_MS, MAX_JOB_RETRIES};
use peerpower::message::{Message, MessagePriority};
use peerpower::provider::{Provider, CONCURRENCY_LIMIT, HEARTBEAT_FRESH_MS};
use peerpower::types::{Carrier, MessageStatus, PhoneNumber, ProviderStatus};
use peerpower::user::User;

const NOW: u64 = 1_700_000_000_000;

fn phone() -> PhoneNumber {
    PhoneNumber::new("+855101234567".to_string()).unwrap()
}

fn message(content: &str, priority: MessagePriority) -> Message {
    Message::new(
        "client-1".to_string(),
        content.to_string(),
        phone(),
        priority,
        None,
        None,
        NOW,
    )
}

#[test]
fn new_job_has_full_budget_and_deadline() {
    let j = Job::new("m-1".to_string(), "pending-assignment".to_string(), NOW);
    assert_eq!(j.id.len(), 36);
    assert_eq!(j.message_id, "m-1");
    assert!(matches!(j.status, JobStatus::Assigned));
    assert_eq!(j.retry_count, 0);
    assert_eq!(j.timeout_at, NOW + JOB_TIMEOUT_MS);
    assert!(j.is_active());
    assert!(!j.is_expired(NOW + JOB_TIMEOUT_MS));
    assert!(j.is_expired(NOW + JOB_TIMEOUT_MS + 1));
}

#[test]
fn job_retry_budget_never_exceeds_three() {
    let mut j = Job::new("m-1".to_string(), "p-1".to_string(), NOW);
    let mut t = NOW;
    for expected in 1..=MAX_JOB_RETRIES {
        j.mark_failed("transport down".to_string(), t);
        assert!(j.can_retry());
        j.increment_retry(t + 1);
        assert_eq!(j.retry_count, expected);
        assert!(matches!(j.status, JobStatus::Assigned));
        assert_eq!(j.error_message, None);
        assert_eq!(j.timeout_at, t + 1 + JOB_TIMEOUT_MS);
        t += 1;
    }
    j.mark_failed("transport down".to_string(), t);
    assert_eq!(j.retry_count, MAX_JOB_RETRIES);
    assert!(!j.can_retry());
}

#[test]
fn job_timeout_records_fixed_cause() {
    let mut j = Job::new("m-1".to_string(), "p-1".to_string(), NOW);
    j.mark_dispatched("handle-1".to_string());
    assert!(matches!(j.status, JobStatus::Dispatched));
    assert_eq!(j.fcm_message_id, Some("handle-1".to_string()));
    j.mark_timeout(NOW + JOB_TIMEOUT_MS + 5);
    assert!(matches!(j.status, JobStatus::Timeout));
    assert_eq!(j.error_message, Some("Job execution timeout".to_string()));
    assert!(!j.is_active());
}

#[test]
fn message_lifecycle_and_expiry() {
    let mut m = message("hello there", MessagePriority::Normal);
    assert!(matches!(m.status, MessageStatus::Pending));
    assert_eq!(m.recipient_carrier, Carrier::Smart);
    assert_eq!(m.expires_at, Some(NOW + 86_400_000));
    assert!(!m.is_expired(NOW + 86_400_000));
    assert!(m.is_expired(NOW + 86_400_001));
    assert!(m.is_deliverable(NOW));
    m.assign_to_provider("p-1".to_string(), NOW + 10);
    assert!(matches!(m.status, MessageStatus::Assigned));
    assert!(m.is_deliverable(NOW + 10));
    m.mark_sent(NOW + 20);
    assert!(matches!(m.status, MessageStatus::Sent));
    assert!(!m.is_deliverable(NOW + 20));
}

#[test]
fn message_validation_bounds() {
    let m = message("hi", MessagePriority::Low);
    assert!(m.validate_content().is_ok());

    let exactly_160 = "a".repeat(160);
    assert!(message(&exactly_160, MessagePriority::Low).validate_content().is_ok());

    let too_long = "a".repeat(161);
    let m2 = Message::new(
        "client-1".to_string(),
        too_long,
        phone(),
        MessagePriority::Low,
        None,
        None,
        NOW,
    );
    assert_eq!(
        m2.validate_content(),
        Err("Message content exceeds 160 characters".to_string())
    );

    let empty = Message::new(
        "client-1".to_string(),
        "".to_string(),
        phone(),
        MessagePriority::Low,
        None,
        None,
        NOW,
    );
    assert_eq!(
        empty.validate_content(),
        Err("Message content cannot be empty".to_string())
    );
}

#[test]
fn message_validation_refuses_otp_like_bodies() {
    let otp = message("123456", MessagePriority::Normal);
    assert_eq!(
        otp.validate_content(),
        Err("OTP-like messages are not supported".to_string())
    );
    let otp_spaced = message("12 34 56", MessagePriority::Normal);
    assert!(otp_spaced.validate_content().is_err());
    let fine = message("order 123456 confirmed", MessagePriority::Normal);
    assert!(fine.validate_content().is_ok());
    let five_digits = message("12345", MessagePriority::Normal);
    assert!(five_digits.validate_content().is_ok());
}

#[test]
fn priority_scores_and_levels() {
    assert_eq!(message("x", MessagePriority::Urgent).get_priority_score(), 100);
    assert_eq!(message("x", MessagePriority::High).get_priority_score(), 75);
    assert_eq!(message("x", MessagePriority::Normal).get_priority_score(), 50);
    assert_eq!(message("x", MessagePriority::Low).get_priority_score(), 25);
    assert_eq!(MessagePriority::Urgent.level(), 3);
    assert_eq!(MessagePriority::High.level(), 2);
    assert_eq!(MessagePriority::Normal.level(), 1);
    assert_eq!(MessagePriority::Low.level(), 0);
}

#[test]
fn message_retry_counter_moves_back_to_pending() {
    let mut m = message("hello", MessagePriority::Normal);
    m.mark_failed("boom".to_string(), NOW + 1);
    assert!(matches!(m.status, MessageStatus::Failed));
    assert!(m.can_retry(NOW + 1));
    m.increment_retry(NOW + 2);
    assert!(matches!(m.status, MessageStatus::Pending));
    assert_eq!(m.metadata.retry_count, 1);
}

#[test]
fn provider_availability_needs_all_conditions() {
    let mut p = Provider::new("user-1".to_string(), phone(), Carrier::Smart, NOW);
    assert!(matches!(p.status, ProviderStatus::Offline));
    assert!(!p.is_available(NOW));

    p.set_online(Some("token".to_string()), NOW);
    assert!(p.is_available(NOW));
    assert!(p.is_heartbeat_recent(NOW + HEARTBEAT_FRESH_MS - 1));
    assert!(!p.is_heartbeat_recent(NOW + HEARTBEAT_FRESH_MS));

    // Stale heartbeat makes it ineligible.
    assert!(!p.is_available(NOW + HEARTBEAT_FRESH_MS));

    // Daily cap.
    p.update_heartbeat(NOW);
    p.messages_sent_today = p.max_daily_messages;
    assert!(!p.is_available(NOW));
    p.messages_sent_today = 0;
    assert!(p.is_available(NOW));
}

#[test]
fn provider_at_load_limit_is_unavailable_even_when_online_and_fresh() {
    let mut p = Provider::new("user-1".to_string(), phone(), Carrier::Smart, NOW);
    p.set_online(Some("token".to_string()), NOW);
    assert!(p.is_available(NOW));
    p.current_load = CONCURRENCY_LIMIT;
    assert!(!p.is_available(NOW));
    assert!(matches!(p.status, ProviderStatus::Online));
    assert!(p.is_heartbeat_recent(NOW));
}

#[test]
fn provider_load_and_counters() {
    let mut p = Provider::new("user-1".to_string(), phone(), Carrier::Smart, NOW);
    p.increment_load(NOW);
    p.increment_load(NOW);
    assert_eq!(p.current_load, 2);
    p.decrement_load(NOW);
    assert_eq!(p.current_load, 1);
    p.decrement_load(NOW);
    p.decrement_load(NOW);
    assert_eq!(p.current_load, 0, "load never goes negative");

    p.record_message_sent(NOW);
    p.record_message_sent(NOW);
    assert_eq!(p.total_messages_sent, 2);
    assert_eq!(p.messages_sent_today, 2);
    p.record_message_delivered(8_000, NOW);
    assert_eq!(p.total_messages_delivered, 1);
    assert_eq!(p.earnings_total_micro, 8_000);
    assert_eq!(p.success_rate, 50);
    p.record_message_failed(NOW);
    assert_eq!(p.success_rate, 50);
    p.reset_daily_counters(NOW);
    assert_eq!(p.messages_sent_today, 0);
    assert_eq!(p.total_messages_sent, 2);
}

#[test]
fn user_flags_and_reputation_clamp() {
    let mut u = User::new(phone(), NOW);
    assert!(!u.is_verified);
    assert!(!u.is_provider);
    assert_eq!(u.reputation_score, 0);
    u.verify(NOW + 1);
    assert!(u.is_verified);
    u.enable_provider(NOW + 2);
    assert!(u.is_provider);
    u.update_reputation(88, NOW + 3);
    assert_eq!(u.reputation_score, 88);
    u.update_reputation(300, NOW + 4);
    assert_eq!(u.reputation_score, 100);
}

#[test]
fn otp_validity_window_and_attempts() {
    let p = phone();
    let otp = peerpower::auth::OtpData::new(p.clone(), "482917".to_string(), 5, NOW);
    assert_eq!(otp.expires_at, NOW + 5 * 60_000);
    assert!(otp.is_valid("482917", NOW + 1));
    assert!(!otp.is_valid("000000", NOW + 1));
    assert!(!otp.is_valid("482917", NOW + 5 * 60_000 + 1));
    assert!(otp.is_expired(NOW + 5 * 60_000 + 1));

    let mut guessed = peerpower::auth::OtpData::new(p, "482917".to_string(), 5, NOW);
    guessed.increment_attempts();
    guessed.increment_attempts();
    assert!(guessed.is_valid("482917", NOW));
    guessed.increment_attempts();
    assert_eq!(guessed.attempts, 3);
    assert!(!guessed.is_valid("482917", NOW), "attempt budget exhausted");
}

#[test]
fn otp_rejection_reasons_are_ranked() {
    let p = phone();
    let otp = peerpower::auth::OtpData::new(p.clone(), "482917".to_string(), 5, NOW);
    assert_eq!(otp.rejection_reason("482917", NOW), None);
    assert_eq!(otp.rejection_reason("000000", NOW), Some("Invalid OTP"));
    assert_eq!(
        otp.rejection_reason("482917", NOW + 5 * 60_000 + 1),
        Some("OTP has expired")
    );
    let mut spent = otp.clone();
    spent.increment_attempts();
    spent.increment_attempts();
    spent.increment_attempts();
    assert_eq!(spent.rejection_reason("482917", NOW), Some("Too many invalid attempts"));
    assert_eq!(
        spent.rejection_reason("482917", NOW + 5 * 60_000 + 1),
        Some("OTP has expired"),
        "expiry outranks the spent budget"
    );
}

#[test]
fn generated_otp_is_six_digits() {
    for _ in 0..20 {
        let code = peerpower::auth::generate_otp();
        assert_eq!(code.len(), 6);
        assert!(code.chars().all(|c| c.is_ascii_digit()));
    }
}

#[test]
fn otp_store_keys() {
    let p = phone();
    assert_eq!(peerpower::auth::otp_key(&p), "otp:+855101234567");
    assert_eq!(peerpower::auth::rate_limit_key(&p), "rate_limit:otp:+855101234567");
}
