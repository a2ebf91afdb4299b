//! Authentication support: token and claim records, one-time-passcode state,
//! and the pure pieces of the login flow — code generation, key naming, and
//! bearer-token extraction. Token signing, storage and transport live
//! outside the library behind the `AuthService` port.

use vstd::prelude::*;
use vstd::string::StrSliceExecFns;

use crate::errors::PeerPowerError;
use crate::message::is_digit_char;
use crate::text::{has_prefix, is_prefix_of, push_char, render_decimal, spec_decimal};
use crate::types::PhoneNumber;
use crate::util::valid_time;

verus! {

/// How many wrong guesses invalidate a one-time passcode.
pub const OTP_MAX_ATTEMPTS: u32 = 3;

/// Authentication service for managing user sessions and tokens. The
/// library states the port; an implementation signs, stores and revokes
/// tokens with whatever infrastructure hosts it.
pub trait AuthService {
    fn send_otp(&mut self, phone: &PhoneNumber) -> Result<String, PeerPowerError>;

    fn verify_otp(&mut self, phone: &PhoneNumber, otp: &str) -> Result<AuthToken, PeerPowerError>;

    fn refresh_token(&mut self, refresh_token: &str) -> Result<AuthToken, PeerPowerError>;

    fn revoke_token(&mut self, token: &str) -> Result<(), PeerPowerError>;

    fn validate_token(&self, token: &str) -> Result<TokenClaims, PeerPowerError>;
}

/// A signed token pair as handed to a client.
#[derive(Debug, Clone)]
pub struct AuthToken {
    pub access_token: String,
    pub refresh_token: String,
    pub token_type: String,
    pub expires_in: i64,
    pub user_id: String,
}

/// The claims carried inside an access token.
#[derive(Debug, Clone)]
pub struct TokenClaims {
    pub sub: String,
    pub phone: String,
    pub iat: i64,
    pub exp: i64,
    pub is_provider: bool,
}

/// One-time-passcode verification state.
#[derive(Debug, Clone)]
pub struct OtpData {
    pub phone: PhoneNumber,
    pub code: String,
    pub created_at: u64,
    pub expires_at: u64,
    pub attempts: u32,
}

impl OtpData {
    /// A fresh passcode for a phone number, expiring after the given number
    /// of minutes.
    pub fn new(phone: PhoneNumber, code: String, ttl_minutes: u64, now: u64) -> (o: OtpData)
        requires
            valid_time(now),
            ttl_minutes <= 1_000_000,
        ensures
            o.phone == phone,
            o.code == code,
            o.created_at == now,
            o.expires_at == now + ttl_minutes * 60_000,
            o.attempts == 0,
    {
        OtpData {
            phone,
            code,
            created_at: now,
            expires_at: now + ttl_minutes * 60_000,
            attempts: 0,
        }
    }

    /// Whether the passcode's lifetime has passed.
    pub fn is_expired(&self, now: u64) -> (r: bool)
        ensures
            r == (now > self.expires_at),
    {
        now > self.expires_at
    }

    /// A passcode is valid while it is unexpired, the guess matches, and the
    /// attempt budget is not spent.
    pub fn is_valid(&self, code: &str, now: u64) -> (r: bool)
        ensures
            r == (now <= self.expires_at && self.code@ == code@ && self.attempts
                < OTP_MAX_ATTEMPTS),
    {
        !self.is_expired(now) && crate::text::str_eq(self.code.as_str(), code) && self.attempts
            < OTP_MAX_ATTEMPTS
    }

    /// Why a guess is rejected, if it is: expiry outranks a spent attempt
    /// budget, which outranks a plain mismatch. A valid guess has no
    /// rejection reason.
    pub fn rejection_reason(&self, code: &str, now: u64) -> (r: Option<&'static str>)
        ensures
            match r {
                None => now <= self.expires_at && self.code@ == code@ && self.attempts
                    < OTP_MAX_ATTEMPTS,
                Some(reason) => {
                    &&& !(now <= self.expires_at && self.code@ == code@ && self.attempts
                        < OTP_MAX_ATTEMPTS)
                    &&& reason@ == if now > self.expires_at {
                        "OTP has expired"@
                    } else if self.attempts >= OTP_MAX_ATTEMPTS {
                        "Too many invalid attempts"@
                    } else {
                        "Invalid OTP"@
                    }
                },
            },
    {
        if self.is_valid(code, now) {
            None
        } else if self.is_expired(now) {
            Some("OTP has expired")
        } else if self.attempts >= OTP_MAX_ATTEMPTS {
            Some("Too many invalid attempts")
        } else {
            Some("Invalid OTP")
        }
    }

    /// Counts one verification attempt; the counter saturates.
    pub fn increment_attempts(&mut self)
        ensures
            *final(self) == (OtpData {
                attempts: if old(self).attempts < u32::MAX {
                    (old(self).attempts + 1) as u32
                } else {
                    old(self).attempts
                },
                ..*old(self)
            }),
    {
        if self.attempts < u32::MAX {
            self.attempts = self.attempts + 1;
        }
    }
}

/// Every character of a decimal rendering is a digit.
pub proof fn lemma_decimal_digits(n: int)
    requires
        n >= 0,
    ensures
        forall|i: int|
            0 <= i < spec_decimal(n).len() ==> is_digit_char(#[trigger] spec_decimal(n)[i]),
    decreases n,
{
    if n <= 9 {
        assert(spec_decimal(n) == seq![crate::text::spec_digit_char(n)]);
    } else {
        lemma_decimal_digits(n / 10);
        assert forall|i: int|
            0 <= i < spec_decimal(n).len() implies is_digit_char(
            #[trigger] spec_decimal(n)[i],
        ) by {
            if i < spec_decimal(n).len() - 1 {
                assert(spec_decimal(n)[i] == spec_decimal(n / 10)[i]);
            } else {
                assert(spec_decimal(n)[i] == crate::text::spec_digit_char(n % 10));
            }
        }
    }
}

/// A number of six decimal digits renders as six characters.
pub proof fn lemma_decimal_len_six(n: int)
    requires
        100_000 <= n <= 999_999,
    ensures
        spec_decimal(n).len() == 6,
{
    let n5 = n / 10;
    let n4 = n5 / 10;
    let n3 = n4 / 10;
    let n2 = n3 / 10;
    let n1 = n2 / 10;
    assert(spec_decimal(n1).len() == 1);
    assert(spec_decimal(n2).len() == 2);
    assert(spec_decimal(n3).len() == 3);
    assert(spec_decimal(n4).len() == 4);
    assert(spec_decimal(n5).len() == 5);
}

/// Relies on rand's gen_range over a half-open integer range: a uniformly
/// random number in `[100000, 999999)`.
#[verifier::external_body]
fn random_otp_number() -> (r: u64)
    ensures
        100_000 <= r < 999_999,
{
    rand::Rng::gen_range(&mut rand::thread_rng(), 100_000..999_999)
}

/// Draws a fresh six-digit one-time passcode.
pub fn generate_otp() -> (r: String)
    ensures
        r@.len() == 6,
        forall|i: int| 0 <= i < r@.len() ==> is_digit_char(#[trigger] r@[i]),
{
    let n = random_otp_number();
    let code = render_decimal(n);
    proof {
        lemma_decimal_len_six(n as int);
        lemma_decimal_digits(n as int);
    }
    code
}

/// The store key under which a phone's pending passcode lives.
pub fn otp_key(phone: &PhoneNumber) -> (r: String)
    ensures
        r@ == "otp:"@ + phone@,
{
    let mut r = String::from_str("otp:");
    r.append(phone.as_str());
    r
}

/// The store key counting a phone's recent passcode requests.
pub fn rate_limit_key(phone: &PhoneNumber) -> (r: String)
    ensures
        r@ == "rate_limit:otp:"@ + phone@,
{
    let mut r = String::from_str("rate_limit:otp:");
    r.append(phone.as_str());
    r
}

/// The header value with every leading `Bearer ` marker removed.
pub open spec fn spec_strip_bearer(s: Seq<char>) -> Seq<char>
    decreases s.len(),
{
    if is_prefix_of("Bearer "@, s) && s.len() >= 7 {
        spec_strip_bearer(s.skip(7))
    } else {
        s
    }
}

/// Extracts the bearer token from an authorization header: the header must
/// carry the `Bearer ` marker and a non-empty token after it.
pub fn extract_bearer_token(header: &str) -> (r: Option<String>)
    ensures
        match r {
            None => !is_prefix_of("Bearer "@, header@) || spec_strip_bearer(header@).len() == 0,
            Some(t) => {
                &&& is_prefix_of("Bearer "@, header@)
                &&& t@ == spec_strip_bearer(header@)
                &&& t@.len() > 0
            },
        },
{
    proof {
        reveal_strlit("Bearer ");
    }
    if !has_prefix(header, "Bearer ") {
        return None;
    }
    let mut rest: &str = header;
    loop
        invariant
            spec_strip_bearer(header@) == spec_strip_bearer(rest@),
        ensures
            spec_strip_bearer(header@) == rest@,
        decreases rest@.len(),
    {
        proof {
            reveal_strlit("Bearer ");
        }
        if !has_prefix(rest, "Bearer ") {
            break;
        }
        let len = rest.unicode_len();
        let stripped = rest.substring_char(7, len);
        proof {
            assert(stripped@ =~= rest@.skip(7));
        }
        rest = stripped;
    }
    if rest.unicode_len() == 0 {
        None
    } else {
        Some(String::from_str(rest))
    }
}

} // verus!
