//! Common types used across the application: message and provider status
//! enumerations, validated phone numbers, and carrier affinity.

use vstd::prelude::*;
use vstd::string::StrSliceExecFns;

use crate::errors::PeerPowerError;
use crate::text::{has_prefix, is_prefix_of, push_char};

verus! {

/// Message status throughout the system.
#[derive(Debug, Clone, Copy, PartialEq, Eq, Structural)]
pub enum MessageStatus {
    Pending,
    Assigned,
    Sent,
    Delivered,
    Failed,
    Cancelled,
}

/// Provider status.
#[derive(Debug, Clone, Copy, PartialEq, Eq, Structural)]
pub enum ProviderStatus {
    Online,
    Offline,
    Busy,
    Suspended,
}

/// The lower-case label of a message status, as clients see it.
pub open spec fn spec_message_status_label(s: MessageStatus) -> Seq<char> {
    match s {
        MessageStatus::Pending => "pending"@,
        MessageStatus::Assigned => "assigned"@,
        MessageStatus::Sent => "sent"@,
        MessageStatus::Delivered => "delivered"@,
        MessageStatus::Failed => "failed"@,
        MessageStatus::Cancelled => "cancelled"@,
    }
}

impl MessageStatus {
    /// The lower-case label of this status.
    pub fn label(&self) -> (r: &'static str)
        ensures
            r@ == spec_message_status_label(*self),
    {
        match self {
            MessageStatus::Pending => "pending",
            MessageStatus::Assigned => "assigned",
            MessageStatus::Sent => "sent",
            MessageStatus::Delivered => "delivered",
            MessageStatus::Failed => "failed",
            MessageStatus::Cancelled => "cancelled",
        }
    }
}

/// The lower-case label of a provider status.
pub open spec fn spec_provider_status_label(s: ProviderStatus) -> Seq<char> {
    match s {
        ProviderStatus::Online => "online"@,
        ProviderStatus::Offline => "offline"@,
        ProviderStatus::Busy => "busy"@,
        ProviderStatus::Suspended => "suspended"@,
    }
}

/// The status a written form names, compared without regard to ASCII case.
pub open spec fn spec_parse_provider_status(s: Seq<char>) -> Option<ProviderStatus> {
    if crate::text::spec_eq_ignore_ascii_case(s, "online"@) {
        Some(ProviderStatus::Online)
    } else if crate::text::spec_eq_ignore_ascii_case(s, "offline"@) {
        Some(ProviderStatus::Offline)
    } else if crate::text::spec_eq_ignore_ascii_case(s, "busy"@) {
        Some(ProviderStatus::Busy)
    } else if crate::text::spec_eq_ignore_ascii_case(s, "suspended"@) {
        Some(ProviderStatus::Suspended)
    } else {
        None
    }
}

impl ProviderStatus {
    /// The lower-case label of this status.
    pub fn label(&self) -> (r: &'static str)
        ensures
            r@ == spec_provider_status_label(*self),
    {
        match self {
            ProviderStatus::Online => "online",
            ProviderStatus::Offline => "offline",
            ProviderStatus::Busy => "busy",
            ProviderStatus::Suspended => "suspended",
        }
    }

    /// Reads a status from its written form, ignoring ASCII case.
    pub fn parse(s: &str) -> (r: Option<ProviderStatus>)
        ensures
            r == spec_parse_provider_status(s@),
    {
        if crate::text::eq_ignore_ascii_case(s, "online") {
            Some(ProviderStatus::Online)
        } else if crate::text::eq_ignore_ascii_case(s, "offline") {
            Some(ProviderStatus::Offline)
        } else if crate::text::eq_ignore_ascii_case(s, "busy") {
            Some(ProviderStatus::Busy)
        } else if crate::text::eq_ignore_ascii_case(s, "suspended") {
            Some(ProviderStatus::Suspended)
        } else {
            None
        }
    }
}

/// Characters that carry no information in a written phone number and are
/// stripped before validation: separators and plain whitespace.
pub open spec fn is_ignored_phone_char(c: char) -> bool {
    c == ' ' || c == '-' || c == '(' || c == ')' || c == '\t' || c == '\n' || c == '\r'
}

/// A phone number with every ignored character stripped.
pub open spec fn spec_clean_phone(s: Seq<char>) -> Seq<char>
    decreases s.len(),
{
    if s.len() == 0 {
        Seq::empty()
    } else if is_ignored_phone_char(s[0]) {
        spec_clean_phone(s.drop_first())
    } else {
        seq![s[0]] + spec_clean_phone(s.drop_first())
    }
}

/// The canonical `+855...` form of a Cambodia phone number, or `None` when
/// the input fits no accepted shape. Accepted shapes, after cleaning:
/// already-canonical `+855...` of at least 12 characters, `855...` of at
/// least 11, or a local `0...` form of at least 9.
pub open spec fn spec_normalize_phone(s: Seq<char>) -> Option<Seq<char>> {
    let c = spec_clean_phone(s);
    if is_prefix_of("+855"@, c) && c.len() >= 12 {
        Some(c)
    } else if is_prefix_of("855"@, c) && c.len() >= 11 {
        Some(seq!['+'] + c)
    } else if is_prefix_of("0"@, c) && c.len() >= 9 {
        Some("+855"@ + c.skip(1))
    } else {
        None
    }
}

fn is_ignored_char(c: char) -> (r: bool)
    ensures
        r == is_ignored_phone_char(c),
{
    c == ' ' || c == '-' || c == '(' || c == ')' || c == '\t' || c == '\n' || c == '\r'
}

fn clean_phone(s: &str) -> (r: String)
    ensures
        r@ == spec_clean_phone(s@),
{
    let n = s.unicode_len();
    let mut out = String::new();
    let mut i: usize = 0;
    proof {
        assert(s@.skip(0) =~= s@);
    }
    while i < n
        invariant
            0 <= i <= n,
            n == s@.len(),
            spec_clean_phone(s@) == out@ + spec_clean_phone(s@.skip(i as int)),
        decreases n - i,
    {
        let c = s.get_char(i);
        proof {
            assert(s@.skip(i as int)[0] == s@[i as int]);
            assert(s@.skip(i as int).drop_first() =~= s@.skip(i as int + 1));
        }
        if !is_ignored_char(c) {
            let ghost before = out@;
            push_char(&mut out, c);
            proof {
                assert(out@ + spec_clean_phone(s@.skip(i as int + 1)) =~= before + (seq![c]
                    + spec_clean_phone(s@.skip(i as int + 1))));
            }
        }
        i += 1;
    }
    proof {
        assert(s@.skip(n as int) =~= Seq::<char>::empty());
        assert(out@ + spec_clean_phone(s@.skip(n as int)) =~= out@);
    }
    out
}

/// Phone number type for Cambodia, held in the canonical `+855...` form.
#[derive(Debug, Clone, PartialEq, Eq)]
pub struct PhoneNumber(String);

impl View for PhoneNumber {
    type V = Seq<char>;

    closed spec fn view(&self) -> Seq<char> {
        self.0@
    }
}

impl PhoneNumber {
    /// Validates and normalizes a written Cambodia phone number.
    pub fn new(phone: String) -> (r: Result<PhoneNumber, PeerPowerError>)
        ensures
            match r {
                Ok(p) => spec_normalize_phone(phone@) == Some(p@),
                Err(e) => spec_normalize_phone(phone@) is None && (e matches
                    PeerPowerError::ValidationError { field, message } && field@ == "phone"@),
            },
    {
        let cleaned = clean_phone(phone.as_str());
        let len = cleaned.as_str().unicode_len();
        if has_prefix(cleaned.as_str(), "+855") && len >= 12 {
            Ok(PhoneNumber(cleaned))
        } else if has_prefix(cleaned.as_str(), "855") && len >= 11 {
            let mut full = String::new();
            push_char(&mut full, '+');
            full.append(cleaned.as_str());
            proof {
                assert(full@ =~= seq!['+'] + cleaned@);
            }
            Ok(PhoneNumber(full))
        } else if has_prefix(cleaned.as_str(), "0") && len >= 9 {
            let tail = cleaned.as_str().substring_char(1, len);
            let mut full = String::new();
            full.append("+855");
            full.append(tail);
            proof {
                assert(full@ =~= "+855"@ + cleaned@.skip(1));
            }
            Ok(PhoneNumber(full))
        } else {
            Err(PeerPowerError::ValidationError {
                field: String::from_str("phone"),
                message: String::from_str("Invalid Cambodia phone number format"),
            })
        }
    }

    /// The canonical text of the number.
    pub fn as_str(&self) -> (r: &str)
        ensures
            r@ == self@,
    {
        self.0.as_str()
    }
}

/// Carrier types in Cambodia.
#[derive(Debug, Clone, Copy, PartialEq, Eq, Structural)]
pub enum Carrier {
    Smart,
    Metfone,
    Cellcard,
    Qb,
    Unknown,
}

/// The carrier a canonical `+855...` number belongs to, inferred from its
/// operator prefix.
pub open spec fn spec_carrier_of(s: Seq<char>) -> Carrier {
    if is_prefix_of("+85510"@, s) || is_prefix_of("+85515"@, s) || is_prefix_of("+85516"@, s)
        || is_prefix_of("+85593"@, s) || is_prefix_of("+85596"@, s) {
        Carrier::Smart
    } else if is_prefix_of("+85531"@, s) || is_prefix_of("+85560"@, s) || is_prefix_of(
        "+85566"@,
        s,
    ) || is_prefix_of("+85567"@, s) || is_prefix_of("+85568"@, s) {
        Carrier::Metfone
    } else if is_prefix_of("+85512"@, s) || is_prefix_of("+85561"@, s) || is_prefix_of(
        "+85592"@,
        s,
    ) || is_prefix_of("+85595"@, s) {
        Carrier::Cellcard
    } else if is_prefix_of("+85513"@, s) || is_prefix_of("+85583"@, s) || is_prefix_of(
        "+85584"@,
        s,
    ) {
        Carrier::Qb
    } else {
        Carrier::Unknown
    }
}

impl Carrier {
    /// Infers the recipient's network operator from the number's prefix.
    pub fn from_phone_number(phone: &PhoneNumber) -> (r: Carrier)
        ensures
            r == spec_carrier_of(phone@),
    {
        let s = phone.as_str();

        if has_prefix(s, "+85510") || has_prefix(s, "+85515") || has_prefix(s, "+85516")
            || has_prefix(s, "+85593") || has_prefix(s, "+85596") {
            return Carrier::Smart;
        }

        if has_prefix(s, "+85531") || has_prefix(s, "+85560") || has_prefix(s, "+85566")
            || has_prefix(s, "+85567") || has_prefix(s, "+85568") {
            return Carrier::Metfone;
        }

        if has_prefix(s, "+85512") || has_prefix(s, "+85561") || has_prefix(s, "+85592")
            || has_prefix(s, "+85595") {
            return Carrier::Cellcard;
        }

        if has_prefix(s, "+85513") || has_prefix(s, "+85583") || has_prefix(s, "+85584") {
            return Carrier::Qb;
        }

        Carrier::Unknown
    }
}

} // verus!
