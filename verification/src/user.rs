//! The User entity: an account that may own provider devices. Reputation is
//! tracked in whole percent, clamped to 0..=100.

use vstd::prelude::*;

use crate::types::PhoneNumber;
use crate::util::{generate_id, valid_time};

verus! {

/// The reputation scale's upper end, in percent.
pub const MAX_REPUTATION_PERCENT: u32 = 100;

#[derive(Debug, Clone)]
pub struct User {
    pub id: String,
    pub phone: PhoneNumber,
    pub did: Option<String>,
    pub evm_address: Option<String>,
    /// Reputation in whole percent, 0 to 100.
    pub reputation_score: u32,
    pub is_provider: bool,
    pub is_verified: bool,
    pub created_at: u64,
    pub updated_at: u64,
}

impl User {
    /// A fresh, unverified account with no reputation.
    pub fn new(phone: PhoneNumber, now: u64) -> (u: User)
        requires
            valid_time(now),
        ensures
            u.id@.len() == 36,
            u.phone == phone,
            u.did is None,
            u.evm_address is None,
            u.reputation_score == 0,
            u.is_provider == false,
            u.is_verified == false,
            u.created_at == now,
            u.updated_at == now,
    {
        User {
            id: generate_id(),
            phone,
            did: None,
            evm_address: None,
            reputation_score: 0,
            is_provider: false,
            is_verified: false,
            created_at: now,
            updated_at: now,
        }
    }

    /// The account passed verification.
    pub fn verify(&mut self, now: u64)
        ensures
            *final(self) == (User { is_verified: true, updated_at: now, ..*old(self) }),
    {
        self.is_verified = true;
        self.updated_at = now;
    }

    /// The account may now register provider devices.
    pub fn enable_provider(&mut self, now: u64)
        ensures
            *final(self) == (User { is_provider: true, updated_at: now, ..*old(self) }),
    {
        self.is_provider = true;
        self.updated_at = now;
    }

    /// Sets the reputation, clamped to the percent scale.
    pub fn update_reputation(&mut self, new_score: u32, now: u64)
        ensures
            *final(self) == (User {
                reputation_score: if new_score > MAX_REPUTATION_PERCENT {
                    MAX_REPUTATION_PERCENT
                } else {
                    new_score
                },
                updated_at: now,
                ..*old(self)
            }),
    {
        self.reputation_score = if new_score > MAX_REPUTATION_PERCENT {
            MAX_REPUTATION_PERCENT
        } else {
            new_score
        };
        self.updated_at = now;
    }
}

} // verus!
