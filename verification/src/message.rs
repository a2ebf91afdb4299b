//! The Message entity: one end-user communication request, with its own
//! delivery-status lifecycle independent of the Job that dispatches it.
//!
//! Invariants: the body is non-empty and within the bounded length, the
//! retry counter never passes its cap, and once the message is delivered or
//! past expiry it is terminal and is never redispatched.

use vstd::prelude::*;
use vstd::string::StrSliceExecFns;

use crate::types::{Carrier, MessageStatus, PhoneNumber};
use crate::util::{generate_id, valid_time};

verus! {

/// Upper bound on the body, in characters.
pub const MAX_CONTENT_CHARS: usize = 160;

/// Absolute lifetime of a message from submission: twenty-four hours.
pub const MESSAGE_EXPIRY_MS: u64 = 86_400_000;

/// Default retry budget carried in the message metadata.
pub const DEFAULT_MAX_RETRIES: u32 = 3;

/// Dispatch precedence classes, lowest first.
#[derive(Debug, Clone, Copy, PartialEq, Eq, Structural)]
pub enum MessagePriority {
    Low,
    Normal,
    High,
    Urgent,
}

/// The discrete queue level for a priority class: Urgent highest.
pub open spec fn spec_priority_level(p: MessagePriority) -> int {
    match p {
        MessagePriority::Urgent => 3,
        MessagePriority::High => 2,
        MessagePriority::Normal => 1,
        MessagePriority::Low => 0,
    }
}

impl MessagePriority {
    /// The queue level this class maps to; levels run from 0 (lowest) to 3.
    pub fn level(&self) -> (r: usize)
        ensures
            r == spec_priority_level(*self),
    {
        match self {
            MessagePriority::Urgent => 3,
            MessagePriority::High => 2,
            MessagePriority::Normal => 1,
            MessagePriority::Low => 0,
        }
    }
}

#[derive(Debug, Clone)]
pub struct MessageMetadata {
    pub tracking_id: String,
    pub client_reference: Option<String>,
    pub webhook_url: Option<String>,
    pub max_retries: u32,
    pub retry_count: u32,
    pub region: Option<String>,
}

#[derive(Debug, Clone)]
pub struct NetworkInfo {
    pub carrier: Carrier,
    pub signal_strength: Option<i32>,
    pub network_type: Option<String>,
}

#[derive(Debug, Clone)]
pub struct DeliveryReport {
    pub delivered_at: u64,
    pub provider_confirmation: bool,
    pub delivery_status: String,
    pub error_message: Option<String>,
    pub network_info: Option<NetworkInfo>,
}

#[derive(Debug, Clone)]
pub struct Message {
    pub id: String,
    pub client_id: String,
    pub content: String,
    pub recipient: PhoneNumber,
    pub recipient_carrier: Carrier,
    pub provider_id: Option<String>,
    pub status: MessageStatus,
    pub priority: MessagePriority,
    pub metadata: MessageMetadata,
    pub delivery_report: Option<DeliveryReport>,
    pub created_at: u64,
    pub updated_at: u64,
    pub scheduled_at: Option<u64>,
    pub expires_at: Option<u64>,
}

/// A decimal digit.
pub open spec fn is_digit_char(c: char) -> bool {
    '0' <= c && c <= '9'
}

/// Whitespace as the spam filter understands it.
pub open spec fn is_space_char(c: char) -> bool {
    c == ' ' || c == '\t' || c == '\n' || c == '\r'
}

/// How many characters of the body are decimal digits.
pub open spec fn spec_digit_count(s: Seq<char>) -> nat
    decreases s.len(),
{
    if s.len() == 0 {
        0
    } else {
        spec_digit_count(s.drop_last()) + (if is_digit_char(s.last()) {
            1nat
        } else {
            0nat
        })
    }
}

/// Every character of the body is a digit or whitespace.
pub open spec fn spec_all_digit_or_space(s: Seq<char>) -> bool {
    forall|i: int| 0 <= i < s.len() ==> is_digit_char(s[i]) || is_space_char(s[i])
}

/// A body that looks like a one-time passcode: exactly six digits and
/// nothing else but whitespace. Such messages are refused.
pub open spec fn spec_otp_like(s: Seq<char>) -> bool {
    spec_digit_count(s) == 6 && spec_all_digit_or_space(s)
}

/// A valid body: non-empty, within the bounded length, and not OTP-like.
pub open spec fn spec_content_valid(s: Seq<char>) -> bool {
    0 < s.len() <= MAX_CONTENT_CHARS && !spec_otp_like(s)
}

fn digit_count(s: &str) -> (r: usize)
    ensures
        r == spec_digit_count(s@),
{
    let n = s.unicode_len();
    let mut count: usize = 0;
    let mut i: usize = 0;
    while i < n
        invariant
            0 <= i <= n,
            n == s@.len(),
            count <= i,
            count == spec_digit_count(s@.take(i as int)),
        decreases n - i,
    {
        let c = s.get_char(i);
        proof {
            assert(s@.take(i as int + 1).drop_last() =~= s@.take(i as int));
            assert(s@.take(i as int + 1).last() == s@[i as int]);
        }
        if '0' <= c && c <= '9' {
            count += 1;
        }
        i += 1;
    }
    proof {
        assert(s@.take(n as int) =~= s@);
    }
    count
}

fn all_digit_or_space(s: &str) -> (r: bool)
    ensures
        r == spec_all_digit_or_space(s@),
{
    let n = s.unicode_len();
    let mut i: usize = 0;
    while i < n
        invariant
            0 <= i <= n,
            n == s@.len(),
            forall|j: int| 0 <= j < i ==> is_digit_char(s@[j]) || is_space_char(s@[j]),
        decreases n - i,
    {
        let c = s.get_char(i);
        let is_digit = '0' <= c && c <= '9';
        let is_space = c == ' ' || c == '\t' || c == '\n' || c == '\r';
        if !is_digit && !is_space {
            return false;
        }
        i += 1;
    }
    true
}

/// The outcome carried by a delivery confirmation: delivered, failed, or
/// still pending on the provider's device.
#[derive(Debug, Clone, Copy, PartialEq, Eq, Structural)]
pub enum DeliveryOutcome {
    Delivered,
    Failed,
    Pending,
}

/// The outcome a written confirmation status names.
pub open spec fn spec_parse_delivery_status(s: Seq<char>) -> Option<DeliveryOutcome> {
    if s == "delivered"@ {
        Some(DeliveryOutcome::Delivered)
    } else if s == "failed"@ {
        Some(DeliveryOutcome::Failed)
    } else if s == "pending"@ {
        Some(DeliveryOutcome::Pending)
    } else {
        None
    }
}

/// Reads a delivery-confirmation status from its written form.
pub fn parse_delivery_status(s: &str) -> (r: Option<DeliveryOutcome>)
    ensures
        r == spec_parse_delivery_status(s@),
{
    if crate::text::str_eq(s, "delivered") {
        Some(DeliveryOutcome::Delivered)
    } else if crate::text::str_eq(s, "failed") {
        Some(DeliveryOutcome::Failed)
    } else if crate::text::str_eq(s, "pending") {
        Some(DeliveryOutcome::Pending)
    } else {
        None
    }
}

/// Checks a message body: non-empty, within the bounded length, and not an
/// OTP-like six-digit message, which this service refuses to carry.
pub fn validate_content_str(content: &str) -> (r: Result<(), String>)
    ensures
        r is Ok <==> spec_content_valid(content@),
        content@.len() == 0 ==> (r matches Err(m) && m@ == "Message content cannot be empty"@),
        content@.len() > MAX_CONTENT_CHARS ==> (r matches Err(m) && m@
            == "Message content exceeds 160 characters"@),
        0 < content@.len() <= MAX_CONTENT_CHARS && spec_otp_like(content@) ==> (r matches Err(m)
            && m@ == "OTP-like messages are not supported"@),
{
    let n = content.unicode_len();
    if n == 0 {
        return Err(String::from_str("Message content cannot be empty"));
    }
    if n > MAX_CONTENT_CHARS {
        return Err(String::from_str("Message content exceeds 160 characters"));
    }
    if digit_count(content) == 6 && all_digit_or_space(content) {
        return Err(String::from_str("OTP-like messages are not supported"));
    }
    Ok(())
}

impl Message {
    /// Structural invariant: the body is valid, the retry counter respects
    /// its cap, and the creation timestamp is in range.
    pub open spec fn wf(&self) -> bool {
        &&& spec_content_valid(self.content@)
        &&& self.metadata.retry_count <= self.metadata.max_retries
        &&& valid_time(self.created_at)
    }

    /// Whether the absolute lifetime has passed; a message without an expiry
    /// never expires.
    pub open spec fn spec_is_expired(&self, now: u64) -> bool {
        match self.expires_at {
            Some(e) => now > e,
            None => false,
        }
    }

    /// A message the dispatch loop may act on: still pending or assigned,
    /// not past its lifetime, and with a valid body.
    pub open spec fn spec_is_deliverable(&self, now: u64) -> bool {
        &&& self.status is Pending || self.status is Assigned
        &&& !self.spec_is_expired(now)
        &&& spec_content_valid(self.content@)
    }

    /// A failed message may retry while the budget lasts and the lifetime
    /// has not passed.
    pub open spec fn spec_can_retry(&self, now: u64) -> bool {
        &&& self.metadata.retry_count < self.metadata.max_retries
        &&& !self.spec_is_expired(now)
        &&& self.status is Failed
    }

    /// Creates a pending message for submission, expiring a day from now,
    /// with its carrier affinity inferred from the recipient number.
    pub fn new(
        client_id: String,
        content: String,
        recipient: PhoneNumber,
        priority: MessagePriority,
        client_reference: Option<String>,
        webhook_url: Option<String>,
        now: u64,
    ) -> (m: Message)
        requires
            valid_time(now),
            spec_content_valid(content@),
        ensures
            m.wf(),
            m.id@.len() == 36,
            m.client_id == client_id,
            m.content == content,
            m.recipient == recipient,
            m.recipient_carrier == crate::types::spec_carrier_of(recipient@),
            m.provider_id is None,
            m.status is Pending,
            m.priority == priority,
            m.metadata.client_reference == client_reference,
            m.metadata.webhook_url == webhook_url,
            m.metadata.max_retries == DEFAULT_MAX_RETRIES,
            m.metadata.retry_count == 0,
            m.metadata.region is None,
            m.delivery_report is None,
            m.created_at == now,
            m.updated_at == now,
            m.scheduled_at is None,
            m.expires_at == Some((now + MESSAGE_EXPIRY_MS) as u64),
    {
        let recipient_carrier = Carrier::from_phone_number(&recipient);
        Message {
            id: generate_id(),
            client_id,
            content,
            recipient,
            recipient_carrier,
            provider_id: None,
            status: MessageStatus::Pending,
            priority,
            metadata: MessageMetadata {
                tracking_id: generate_id(),
                client_reference,
                webhook_url,
                max_retries: DEFAULT_MAX_RETRIES,
                retry_count: 0,
                region: None,
            },
            delivery_report: None,
            created_at: now,
            updated_at: now,
            scheduled_at: None,
            expires_at: Some(now + MESSAGE_EXPIRY_MS),
        }
    }

    /// A provider was chosen for this message.
    pub fn assign_to_provider(&mut self, provider_id: String, now: u64)
        ensures
            *final(self) == (Message {
                provider_id: Some(provider_id),
                status: MessageStatus::Assigned,
                updated_at: now,
                ..*old(self)
            }),
    {
        self.provider_id = Some(provider_id);
        self.status = MessageStatus::Assigned;
        self.updated_at = now;
    }

    /// The transport accepted the dispatch request.
    pub fn mark_sent(&mut self, now: u64)
        ensures
            *final(self) == (Message {
                status: MessageStatus::Sent,
                updated_at: now,
                ..*old(self)
            }),
    {
        self.status = MessageStatus::Sent;
        self.updated_at = now;
    }

    /// An explicit delivery confirmation arrived; terminal.
    pub fn mark_delivered(&mut self, delivery_report: DeliveryReport, now: u64)
        ensures
            *final(self) == (Message {
                status: MessageStatus::Delivered,
                delivery_report: Some(delivery_report),
                updated_at: now,
                ..*old(self)
            }),
    {
        self.status = MessageStatus::Delivered;
        self.delivery_report = Some(delivery_report);
        self.updated_at = now;
    }

    /// Terminal failure, recorded with an unconfirmed failure report.
    pub fn mark_failed(&mut self, error_message: String, now: u64)
        ensures
            *final(self) == (Message {
                status: MessageStatus::Failed,
                delivery_report: final(self).delivery_report,
                updated_at: now,
                ..*old(self)
            }),
            final(self).delivery_report matches Some(r) && r.delivered_at == now
                && r.provider_confirmation == false && r.delivery_status@ == "failed"@
                && r.error_message == Some(error_message) && r.network_info is None,
    {
        self.status = MessageStatus::Failed;
        self.delivery_report = Some(DeliveryReport {
            delivered_at: now,
            provider_confirmation: false,
            delivery_status: String::from_str("failed"),
            error_message: Some(error_message),
            network_info: None,
        });
        self.updated_at = now;
    }

    /// Spends one message-level retry and hands the message back to the
    /// pending pool.
    pub fn increment_retry(&mut self, now: u64)
        requires
            old(self).metadata.retry_count < old(self).metadata.max_retries,
        ensures
            *final(self) == (Message {
                status: MessageStatus::Pending,
                metadata: MessageMetadata {
                    retry_count: (old(self).metadata.retry_count + 1) as u32,
                    ..old(self).metadata
                },
                updated_at: now,
                ..*old(self)
            }),
            old(self).wf() ==> final(self).wf(),
    {
        self.metadata.retry_count = self.metadata.retry_count + 1;
        self.status = MessageStatus::Pending;
        self.updated_at = now;
    }

    /// Whether a failed message may still retry.
    pub fn can_retry(&self, now: u64) -> (r: bool)
        ensures
            r == self.spec_can_retry(now),
    {
        self.metadata.retry_count < self.metadata.max_retries && !self.is_expired(now)
            && matches!(self.status, MessageStatus::Failed)
    }

    /// Whether the absolute lifetime has passed.
    pub fn is_expired(&self, now: u64) -> (r: bool)
        ensures
            r == self.spec_is_expired(now),
    {
        match self.expires_at {
            Some(expires_at) => now > expires_at,
            None => false,
        }
    }

    /// The coarse numeric score of the priority class.
    pub fn get_priority_score(&self) -> (r: u32)
        ensures
            r == match self.priority {
                MessagePriority::Urgent => 100u32,
                MessagePriority::High => 75u32,
                MessagePriority::Normal => 50u32,
                MessagePriority::Low => 25u32,
            },
    {
        match self.priority {
            MessagePriority::Urgent => 100,
            MessagePriority::High => 75,
            MessagePriority::Normal => 50,
            MessagePriority::Low => 25,
        }
    }

    /// Checks the body: non-empty, within the bounded length, and not an
    /// OTP-like six-digit message, which this service refuses to carry.
    pub fn validate_content(&self) -> (r: Result<(), String>)
        ensures
            r is Ok <==> spec_content_valid(self.content@),
            self.content@.len() == 0 ==> (r matches Err(m) && m@
                == "Message content cannot be empty"@),
            self.content@.len() > MAX_CONTENT_CHARS ==> (r matches Err(m) && m@
                == "Message content exceeds 160 characters"@),
            0 < self.content@.len() <= MAX_CONTENT_CHARS && spec_otp_like(self.content@) ==> (
            r matches Err(m) && m@ == "OTP-like messages are not supported"@),
    {
        validate_content_str(self.content.as_str())
    }

    /// Whether the dispatch loop may act on this message.
    pub fn is_deliverable(&self, now: u64) -> (r: bool)
        ensures
            r == self.spec_is_deliverable(now),
    {
        matches!(self.status, MessageStatus::Pending | MessageStatus::Assigned)
            && !self.is_expired(now) && self.validate_content().is_ok()
    }
}

/// A message past its expiry is never deliverable, and so — since the
/// dispatch cycle offers a message to provider matching only when it is
/// deliverable — an expired message is never matched to a provider.
pub proof fn lemma_expired_never_deliverable(m: Message, now: u64)
    requires
        m.spec_is_expired(now),
    ensures
        !m.spec_is_deliverable(now),
{
}

} // verus!
