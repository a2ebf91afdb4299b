use peerpower::engine::{CompleteOutcome, DispatchEngine, TickOutcome};
use peerpower::job::{JobStatus, JOB_TIMEOUT_MS};
use peerpower::message::{DeliveryOutcome, MessagePriority};
use peerpower::types::{MessageStatus, PhoneNumber, ProviderStatus};

const T0: u64 = 1_700_000_000_000;

fn phone(tail: &str) -> PhoneNumber {
    PhoneNumber::new(format!("+85510123{}", tail)).unwrap()
}

/// An engine with one online Smart-carrier provider; returns its identifier.
fn engine_with_provider() -> (DispatchEngine, String) {
    let mut e = DispatchEngine::new();
    let pid = e
        .register_provider(
            "user-1".to_string(),
            phone("9999"),
            "token-1".to_string(),
            None,
            T0,
        )
        .unwrap();
    e.heartbeat(&pid, ProviderStatus::Online, T0).unwrap();
    (e, pid)
}

#[test]
fn submit_rejects_invalid_content_before_it_enters_the_queue() {
    let mut e = DispatchEngine::new();
    let r = e.submit(
        "client-1".to_string(),
        "".to_string(),
        phone("0001"),
        MessagePriority::Normal,
        T0,
    );
    assert!(r.is_err());
    assert_eq!(e.messages.len(), 0);
    assert_eq!(e.jobs.len(), 0);
    assert!(matches!(e.dispatch_tick(T0), TickOutcome::Idle));
}

#[test]
fn submit_stores_message_and_job_and_queues_work() {
    let mut e = DispatchEngine::new();
    let (mid, jid) = e
        .submit(
            "client-1".to_string(),
            "hello".to_string(),
            phone("0001"),
            MessagePriority::High,
            T0,
        )
        .unwrap();
    assert_eq!(e.messages.len(), 1);
    assert_eq!(e.jobs.len(), 1);
    assert_eq!(e.messages[0].id, mid);
    assert_eq!(e.jobs[0].id, jid);
    assert_eq!(e.jobs[0].message_id, mid);
    assert_eq!(e.jobs[0].provider_id, "pending-assignment");
    let view = e.status(&mid).unwrap();
    assert_eq!(view.status, "pending");
    assert_eq!(view.delivery_attempts, 0);
    assert!(e.status("no-such-id").is_none());
}

#[test]
fn urgent_is_dispatched_before_low_submitted_in_the_same_tick_window() {
    let (mut e, _pid) = engine_with_provider();
    let (low_mid, _) = e
        .submit(
            "client-1".to_string(),
            "low priority".to_string(),
            phone("0001"),
            MessagePriority::Low,
            T0,
        )
        .unwrap();
    let (urgent_mid, _) = e
        .submit(
            "client-1".to_string(),
            "urgent".to_string(),
            phone("0002"),
            MessagePriority::Urgent,
            T0,
        )
        .unwrap();
    match e.dispatch_tick(T0) {
        TickOutcome::SendRequested { message_id, .. } => assert_eq!(message_id, urgent_mid),
        other => panic!("expected a send request, got {:?}", other),
    }
    match e.dispatch_tick(T0) {
        TickOutcome::SendRequested { message_id, .. } => assert_eq!(message_id, low_mid),
        other => panic!("expected a send request, got {:?}", other),
    }
}

#[test]
fn provider_at_limit_is_excluded_from_matching() {
    let (mut e, _pid) = engine_with_provider();
    e.providers[0].current_load = peerpower::provider::CONCURRENCY_LIMIT;
    assert!(matches!(e.providers[0].status, ProviderStatus::Online));
    assert!(e.providers[0].is_heartbeat_recent(T0));
    e.submit(
        "client-1".to_string(),
        "hello".to_string(),
        phone("0001"),
        MessagePriority::Normal,
        T0,
    )
    .unwrap();
    match e.dispatch_tick(T0) {
        TickOutcome::NoProvider { delay_seconds, .. } => assert_eq!(delay_seconds, 1),
        other => panic!("expected no provider, got {:?}", other),
    }
    // The job waits out its backoff and re-enters the lowest level.
    assert_eq!(e.delayed.len(), 1);
    assert_eq!(e.delayed[0].due_at, T0 + 1_000);
    assert_eq!(e.release_due_retries(T0 + 999), 0);
    assert_eq!(e.release_due_retries(T0 + 1_000), 1);
}

#[test]
fn expired_message_is_never_matched_to_a_provider() {
    let (mut e, _pid) = engine_with_provider();
    let (mid, _) = e
        .submit(
            "client-1".to_string(),
            "will expire".to_string(),
            phone("0001"),
            MessagePriority::Normal,
            T0,
        )
        .unwrap();
    e.messages[0].expires_at = Some(T0 - 1);
    match e.dispatch_tick(T0) {
        TickOutcome::Expired { message_id } => assert_eq!(message_id, mid),
        other => panic!("expected expiry, got {:?}", other),
    }
    assert!(matches!(e.messages[0].status, MessageStatus::Failed));
    assert!(matches!(e.jobs[0].status, JobStatus::Failed));
    // The provider was never touched.
    assert_eq!(e.providers[0].current_load, 0);
    assert_eq!(e.providers[0].total_messages_sent, 0);
}

#[test]
fn dispatch_charges_provider_and_transport_ack_marks_sent() {
    let (mut e, pid) = engine_with_provider();
    let (mid, jid) = e
        .submit(
            "client-1".to_string(),
            "hello".to_string(),
            phone("0001"),
            MessagePriority::Normal,
            T0,
        )
        .unwrap();
    let token = match e.dispatch_tick(T0) {
        TickOutcome::SendRequested { job_id, message_id, provider_id, fcm_token, content, .. } => {
            assert_eq!(job_id, jid);
            assert_eq!(message_id, mid);
            assert_eq!(provider_id, pid);
            assert_eq!(content, "hello");
            fcm_token
        },
        other => panic!("expected a send request, got {:?}", other),
    };
    assert_eq!(token, "token-1");
    assert_eq!(e.providers[0].current_load, 1);
    assert!(matches!(e.messages[0].status, MessageStatus::Assigned));
    assert_eq!(e.messages[0].provider_id, Some(pid.clone()));

    let outcome = e.complete_dispatch(&jid, Ok("fcm-handle-1".to_string()), T0 + 5).unwrap();
    assert!(matches!(outcome, CompleteOutcome::Sent));
    assert!(matches!(e.jobs[0].status, JobStatus::Dispatched));
    assert_eq!(e.jobs[0].fcm_message_id, Some("fcm-handle-1".to_string()));
    assert!(matches!(e.messages[0].status, MessageStatus::Sent));
    assert_eq!(e.providers[0].total_messages_sent, 1);
    assert_eq!(e.providers[0].messages_sent_today, 1);
    assert_eq!(e.status(&mid).unwrap().status, "sent");
}

#[test]
fn two_transport_failures_then_success_leaves_retry_count_two() {
    let (mut e, _pid) = engine_with_provider();
    let (mid, jid) = e
        .submit(
            "client-1".to_string(),
            "retry me".to_string(),
            phone("0001"),
            MessagePriority::Normal,
            T0,
        )
        .unwrap();

    // First attempt fails: retry_count 0 -> 1, backoff one second.
    assert!(matches!(e.dispatch_tick(T0), TickOutcome::SendRequested { .. }));
    match e.complete_dispatch(&jid, Err("transport error".to_string()), T0).unwrap() {
        CompleteOutcome::RetryScheduled { delay_seconds } => assert_eq!(delay_seconds, 1),
        other => panic!("expected a scheduled retry, got {:?}", other),
    }
    assert_eq!(e.jobs[0].retry_count, 1);
    assert_eq!(e.providers[0].current_load, 0, "failed attempt sheds the load");
    let t1 = T0 + 1_000;
    assert_eq!(e.release_due_retries(t1), 1);

    // Second attempt fails: retry_count 1 -> 2, backoff two seconds.
    assert!(matches!(e.dispatch_tick(t1), TickOutcome::SendRequested { .. }));
    match e.complete_dispatch(&jid, Err("transport error".to_string()), t1).unwrap() {
        CompleteOutcome::RetryScheduled { delay_seconds } => assert_eq!(delay_seconds, 2),
        other => panic!("expected a scheduled retry, got {:?}", other),
    }
    assert_eq!(e.jobs[0].retry_count, 2);
    let t2 = t1 + 2_000;
    assert_eq!(e.release_due_retries(t2), 1);

    // Third attempt succeeds: the job is dispatched with the budget at two.
    assert!(matches!(e.dispatch_tick(t2), TickOutcome::SendRequested { .. }));
    let outcome = e.complete_dispatch(&jid, Ok("fcm-handle".to_string()), t2).unwrap();
    assert!(matches!(outcome, CompleteOutcome::Sent));
    assert!(matches!(e.jobs[0].status, JobStatus::Dispatched));
    assert_eq!(e.jobs[0].retry_count, 2);
    assert_eq!(e.status(&mid).unwrap().status, "sent");
}

#[test]
fn retry_budget_exhaustion_fails_the_message_terminally() {
    let (mut e, _pid) = engine_with_provider();
    let (mid, jid) = e
        .submit(
            "client-1".to_string(),
            "doomed".to_string(),
            phone("0001"),
            MessagePriority::Normal,
            T0,
        )
        .unwrap();
    let mut t = T0;
    for expected_rc in 1..=3u32 {
        assert!(matches!(e.dispatch_tick(t), TickOutcome::SendRequested { .. }));
        match e.complete_dispatch(&jid, Err("down".to_string()), t).unwrap() {
            CompleteOutcome::RetryScheduled { delay_seconds } => {
                assert_eq!(e.jobs[0].retry_count, expected_rc);
                t += delay_seconds * 1_000;
            },
            other => panic!("expected a scheduled retry, got {:?}", other),
        }
        assert_eq!(e.release_due_retries(t), 1);
    }
    // Fourth attempt: the budget of three retries is exhausted.
    assert!(matches!(e.dispatch_tick(t), TickOutcome::SendRequested { .. }));
    let outcome = e.complete_dispatch(&jid, Err("down".to_string()), t).unwrap();
    assert!(matches!(outcome, CompleteOutcome::FailedTerminal));
    assert_eq!(e.jobs[0].retry_count, 3);
    assert!(matches!(e.jobs[0].status, JobStatus::Failed));
    assert!(matches!(e.messages[0].status, MessageStatus::Failed));
    assert_eq!(e.status(&mid).unwrap().status, "failed");
}

#[test]
fn sweep_times_out_a_dispatched_job_with_a_populated_error() {
    let (mut e, _pid) = engine_with_provider();
    let (_mid, jid) = e
        .submit(
            "client-1".to_string(),
            "slow".to_string(),
            phone("0001"),
            MessagePriority::Normal,
            T0,
        )
        .unwrap();
    assert!(matches!(e.dispatch_tick(T0), TickOutcome::SendRequested { .. }));
    e.complete_dispatch(&jid, Ok("handle".to_string()), T0).unwrap();
    assert!(matches!(e.jobs[0].status, JobStatus::Dispatched));

    // No completion arrives before the deadline passes.
    let late = T0 + JOB_TIMEOUT_MS + 1;
    let stats = e.sweep(late);
    assert_eq!(stats.timed_out, 1);
    assert_eq!(stats.purged_jobs, 0);
    assert!(matches!(e.jobs[0].status, JobStatus::Timeout));
    assert_eq!(e.jobs[0].error_message, Some("Job execution timeout".to_string()));
    assert_eq!(e.jobs[0].completed_at, Some(late));
}

#[test]
fn sweep_purges_terminal_failures_past_retention() {
    let (mut e, pid) = engine_with_provider();
    let (mid, jid) = e
        .submit(
            "client-1".to_string(),
            "old and failed".to_string(),
            phone("0001"),
            MessagePriority::Normal,
            T0,
        )
        .unwrap();
    assert!(matches!(e.dispatch_tick(T0), TickOutcome::SendRequested { .. }));
    e.complete_dispatch(&jid, Ok("handle".to_string()), T0).unwrap();
    e.confirm_delivery(&mid, &pid, DeliveryOutcome::Failed, None, 0, T0 + 10).unwrap();
    assert!(matches!(e.jobs[0].status, JobStatus::Failed));
    assert!(matches!(e.messages[0].status, MessageStatus::Failed));

    // Within retention, nothing is purged.
    let early = e.sweep(T0 + 1_000);
    assert_eq!(early.purged_jobs, 0);
    assert_eq!(early.purged_messages, 0);

    // A day later, both records go.
    let stats = e.sweep(T0 + peerpower::engine::RETENTION_MS + 11);
    assert_eq!(stats.purged_jobs, 1);
    assert_eq!(stats.purged_messages, 1);
    assert_eq!(e.jobs.len(), 0);
    assert_eq!(e.messages.len(), 0);
}

#[test]
fn confirm_delivery_finalizes_and_credits_the_provider() {
    let (mut e, pid) = engine_with_provider();
    let (mid, jid) = e
        .submit(
            "client-1".to_string(),
            "deliver me".to_string(),
            phone("0001"),
            MessagePriority::Normal,
            T0,
        )
        .unwrap();
    assert!(matches!(e.dispatch_tick(T0), TickOutcome::SendRequested { .. }));
    e.complete_dispatch(&jid, Ok("handle".to_string()), T0).unwrap();
    assert_eq!(e.providers[0].current_load, 1);

    let label = e
        .confirm_delivery(&mid, &pid, DeliveryOutcome::Delivered, None, 8_000, T0 + 60_000)
        .unwrap();
    assert_eq!(label, "delivered");
    assert!(matches!(e.messages[0].status, MessageStatus::Delivered));
    assert!(matches!(e.jobs[0].status, JobStatus::Completed));
    assert_eq!(e.providers[0].total_messages_delivered, 1);
    assert_eq!(e.providers[0].earnings_total_micro, 8_000);
    assert_eq!(e.providers[0].current_load, 0);
    assert_eq!(e.providers[0].success_rate, 100);
    assert_eq!(e.status(&mid).unwrap().status, "delivered");
}

#[test]
fn confirm_delivery_rejects_the_wrong_provider() {
    let (mut e, _pid) = engine_with_provider();
    let (mid, jid) = e
        .submit(
            "client-1".to_string(),
            "hands off".to_string(),
            phone("0001"),
            MessagePriority::Normal,
            T0,
        )
        .unwrap();
    assert!(matches!(e.dispatch_tick(T0), TickOutcome::SendRequested { .. }));
    e.complete_dispatch(&jid, Ok("handle".to_string()), T0).unwrap();
    let err = e
        .confirm_delivery(&mid, "someone-else", DeliveryOutcome::Delivered, None, 0, T0)
        .unwrap_err();
    assert_eq!(err.error_code(), "VALIDATION_ERROR");
    let missing = e
        .confirm_delivery("no-such-message", "p", DeliveryOutcome::Delivered, None, 0, T0)
        .unwrap_err();
    assert_eq!(missing.error_code(), "NOT_FOUND");
}

#[test]
fn webhook_moves_only_the_message_status() {
    let (mut e, _pid) = engine_with_provider();
    let (mid, jid) = e
        .submit(
            "client-1".to_string(),
            "webhook target".to_string(),
            phone("0001"),
            MessagePriority::Normal,
            T0,
        )
        .unwrap();
    assert!(matches!(e.dispatch_tick(T0), TickOutcome::SendRequested { .. }));
    e.complete_dispatch(&jid, Ok("handle".to_string()), T0).unwrap();

    assert_eq!(e.delivery_webhook(&mid, "delivered", T0 + 1).unwrap(), "delivered");
    assert!(matches!(e.messages[0].status, MessageStatus::Delivered));
    // The webhook carries no provider identity, so the job is untouched.
    assert!(matches!(e.jobs[0].status, JobStatus::Dispatched));
    assert_eq!(e.providers[0].total_messages_delivered, 0);

    assert_eq!(e.delivery_webhook(&mid, "pending", T0 + 2).unwrap(), "sent");
    assert!(matches!(e.messages[0].status, MessageStatus::Sent));

    let bad = e.delivery_webhook(&mid, "teleported", T0 + 3).unwrap_err();
    assert_eq!(bad.error_code(), "VALIDATION_ERROR");
    let missing = e.delivery_webhook("ghost", "failed", T0 + 3).unwrap_err();
    assert_eq!(missing.error_code(), "NOT_FOUND");
}

#[test]
fn duplicate_provider_registration_is_rejected() {
    let (mut e, pid) = engine_with_provider();
    let dup = e.register_provider(
        "user-1".to_string(),
        phone("9999"),
        "token-2".to_string(),
        None,
        T0,
    );
    assert!(dup.is_err());
    assert_eq!(e.providers.len(), 1);
    assert_eq!(e.providers[0].id, pid);
}

#[test]
fn provider_status_update_parses_and_applies() {
    let (mut e, pid) = engine_with_provider();
    let st = e.update_provider_status(&pid, "Busy", T0 + 5).unwrap();
    assert_eq!(st, ProviderStatus::Busy);
    assert!(matches!(e.providers[0].status, ProviderStatus::Busy));
    let bad = e.update_provider_status(&pid, "asleep", T0 + 6).unwrap_err();
    assert_eq!(bad.error_code(), "VALIDATION_ERROR");
    let missing = e.update_provider_status("ghost", "online", T0 + 7).unwrap_err();
    assert_eq!(missing.error_code(), "NOT_FOUND");
    let hb = e.heartbeat("ghost", ProviderStatus::Online, T0).unwrap_err();
    assert_eq!(hb.error_code(), "NOT_FOUND");
}

#[test]
fn provider_without_push_token_fails_the_attempt() {
    let (mut e, _pid) = engine_with_provider();
    e.providers[0].fcm_token = None;
    e.submit(
        "client-1".to_string(),
        "no token".to_string(),
        phone("0001"),
        MessagePriority::Normal,
        T0,
    )
    .unwrap();
    match e.dispatch_tick(T0) {
        TickOutcome::NoToken { disposition, .. } => {
            assert!(matches!(
                disposition,
                peerpower::engine::RetryDisposition::Scheduled { delay_seconds: 1 }
            ));
        },
        other => panic!("expected the no-token outcome, got {:?}", other),
    }
    assert_eq!(e.jobs[0].retry_count, 1);
    assert!(matches!(e.jobs[0].status, JobStatus::Assigned));
}

#[test]
fn queue_entry_for_a_vanished_job_is_dropped() {
    let (mut e, _pid) = engine_with_provider();
    let (_mid, jid) = e
        .submit(
            "client-1".to_string(),
            "vanishing".to_string(),
            phone("0001"),
            MessagePriority::Normal,
            T0,
        )
        .unwrap();
    e.jobs.clear();
    match e.dispatch_tick(T0) {
        TickOutcome::Dropped { job_id } => assert_eq!(job_id, jid),
        other => panic!("expected a dropped entry, got {:?}", other),
    }
    assert_eq!(e.delayed.len(), 0, "a dropped entry is not retried");
}

#[test]
fn due_retries_release_in_order_onto_the_lowest_level() {
    let (mut e, _pid) = engine_with_provider();
    e.providers[0].current_load = peerpower::provider::CONCURRENCY_LIMIT;
    let (first_mid, _) = e
        .submit(
            "client-1".to_string(),
            "first".to_string(),
            phone("0001"),
            MessagePriority::Normal,
            T0,
        )
        .unwrap();
    let (second_mid, _) = e
        .submit(
            "client-1".to_string(),
            "second".to_string(),
            phone("0002"),
            MessagePriority::Normal,
            T0,
        )
        .unwrap();
    assert!(matches!(e.dispatch_tick(T0), TickOutcome::NoProvider { .. }));
    assert!(matches!(e.dispatch_tick(T0), TickOutcome::NoProvider { .. }));
    assert_eq!(e.delayed.len(), 2);
    assert_eq!(e.release_due_retries(T0 + 1_000), 2);
    assert_eq!(e.delayed.len(), 0);

    // With capacity back, the retried jobs dispatch in their original order.
    e.providers[0].current_load = 0;
    match e.dispatch_tick(T0 + 1_000) {
        TickOutcome::SendRequested { message_id, .. } => assert_eq!(message_id, first_mid),
        other => panic!("expected a send request, got {:?}", other),
    }
    e.providers[0].current_load = 0;
    match e.dispatch_tick(T0 + 1_000) {
        TickOutcome::SendRequested { message_id, .. } => assert_eq!(message_id, second_mid),
        other => panic!("expected a send request, got {:?}", other),
    }
}

#[test]
fn message_without_expiry_never_expires() {
    let (mut e, _pid) = engine_with_provider();
    e.submit(
        "client-1".to_string(),
        "timeless".to_string(),
        phone("0001"),
        MessagePriority::Normal,
        T0,
    )
    .unwrap();
    e.messages[0].expires_at = None;
    assert!(!e.messages[0].is_expired(u64::MAX));
    assert!(matches!(e.dispatch_tick(T0), TickOutcome::SendRequested { .. }));
}

#[test]
fn stale_queue_entries_are_dropped_without_side_effects() {
    let (mut e, pid) = engine_with_provider();
    let (mid, jid) = e
        .submit(
            "client-1".to_string(),
            "confirmed early".to_string(),
            phone("0001"),
            MessagePriority::Normal,
            T0,
        )
        .unwrap();
    // The message is finalized while its queue entry still sits there.
    assert!(matches!(e.dispatch_tick(T0), TickOutcome::SendRequested { .. }));
    e.complete_dispatch(&jid, Ok("handle".to_string()), T0).unwrap();
    e.confirm_delivery(&mid, &pid, DeliveryOutcome::Delivered, None, 0, T0).unwrap();
    // A duplicate queue entry for the same job is now stale.
    e.queue.enqueue(e.jobs[0].snapshot(), 1);
    match e.dispatch_tick(T0 + 1) {
        TickOutcome::Stale { job_id } => assert_eq!(job_id, jid),
        other => panic!("expected a stale entry, got {:?}", other),
    }
    assert!(matches!(e.messages[0].status, MessageStatus::Delivered));
}
