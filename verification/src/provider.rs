//! The Provider entity: a device capable of accepting dispatch work, with
//! capacity and freshness constraints.
//!
//! A provider is *available* exactly when it is online, its concurrent load
//! is under the limit, its daily cap is not reached, and its heartbeat is
//! fresh. It is never hard-deleted by the engine; it simply stops being
//! eligible once one of those constraints fails.

use vstd::prelude::*;

use crate::types::{Carrier, PhoneNumber, ProviderStatus};
use crate::util::{generate_id, valid_time};

verus! {

/// Most messages a provider handles concurrently.
pub const CONCURRENCY_LIMIT: u32 = 5;

/// Default daily message cap for a new provider.
pub const DEFAULT_MAX_DAILY_MESSAGES: u32 = 50;

/// How fresh a heartbeat must be for the provider to count as reachable:
/// five minutes.
pub const HEARTBEAT_FRESH_MS: u64 = 300_000;

/// Starting reputation for a new provider, in percent.
pub const INITIAL_REPUTATION_PERCENT: u32 = 50;

/// A device location; coordinates are degrees in millionths.
#[derive(Debug, Clone)]
pub struct Location {
    pub latitude_micro: i64,
    pub longitude_micro: i64,
    pub city: Option<String>,
    pub province: Option<String>,
}

#[derive(Debug, Clone)]
pub struct Provider {
    pub id: String,
    pub user_id: String,
    pub phone: PhoneNumber,
    pub carrier: Carrier,
    pub status: ProviderStatus,
    pub fcm_token: Option<String>,
    pub location: Option<Location>,
    pub current_load: u32,
    pub max_daily_messages: u32,
    pub messages_sent_today: u32,
    pub last_heartbeat: Option<u64>,
    /// Reputation in whole percent, 0 to 100.
    pub reputation_score: u32,
    /// Share of sent messages that were delivered, in whole percent.
    pub success_rate: u32,
    pub total_messages_sent: u64,
    pub total_messages_delivered: u64,
    /// Accumulated earnings in millionths of a token.
    pub earnings_total_micro: u64,
    pub created_at: u64,
    pub updated_at: u64,
}

/// Delivered messages over sent messages, in whole percent, floored, and
/// capped at 100 should the counters ever cross.
pub open spec fn spec_success_rate(delivered: u64, sent: u64) -> u32 {
    if delivered >= sent {
        100u32
    } else {
        (delivered * 100 / (sent as int)) as u32
    }
}

/// Saturating counter bump.
pub open spec fn spec_sat_inc_u64(n: u64) -> u64 {
    if n < u64::MAX {
        (n + 1) as u64
    } else {
        n
    }
}

/// Saturating counter bump.
pub open spec fn spec_sat_inc_u32(n: u32) -> u32 {
    if n < u32::MAX {
        (n + 1) as u32
    } else {
        n
    }
}

/// Saturating addition.
pub open spec fn spec_sat_add_u64(a: u64, b: u64) -> u64 {
    if a + b <= u64::MAX {
        (a + b) as u64
    } else {
        u64::MAX
    }
}

impl Provider {
    /// Structural invariant: timestamps in range.
    pub open spec fn wf(&self) -> bool {
        &&& valid_time(self.created_at)
        &&& match self.last_heartbeat {
            Some(h) => valid_time(h),
            None => true,
        }
    }

    /// A heartbeat is recent when it exists and lies within the freshness
    /// window of the given instant.
    pub open spec fn spec_is_heartbeat_recent(&self, now: u64) -> bool {
        match self.last_heartbeat {
            Some(h) => now < h + HEARTBEAT_FRESH_MS,
            None => false,
        }
    }

    /// Available: online, under the concurrency limit, under the daily cap,
    /// and recently heard from.
    pub open spec fn spec_is_available(&self, now: u64) -> bool {
        &&& self.status is Online
        &&& self.current_load < CONCURRENCY_LIMIT
        &&& self.messages_sent_today < self.max_daily_messages
        &&& self.spec_is_heartbeat_recent(now)
    }

    /// Registers a new provider: offline, idle, with default caps and a
    /// neutral reputation.
    pub fn new(user_id: String, phone: PhoneNumber, carrier: Carrier, now: u64) -> (p: Provider)
        requires
            valid_time(now),
        ensures
            p.wf(),
            p.id@.len() == 36,
            p.user_id == user_id,
            p.phone == phone,
            p.carrier == carrier,
            p.status is Offline,
            p.fcm_token is None,
            p.location is None,
            p.current_load == 0,
            p.max_daily_messages == DEFAULT_MAX_DAILY_MESSAGES,
            p.messages_sent_today == 0,
            p.last_heartbeat is None,
            p.reputation_score == INITIAL_REPUTATION_PERCENT,
            p.success_rate == 100,
            p.total_messages_sent == 0,
            p.total_messages_delivered == 0,
            p.earnings_total_micro == 0,
            p.created_at == now,
            p.updated_at == now,
    {
        Provider {
            id: generate_id(),
            user_id,
            phone,
            carrier,
            status: ProviderStatus::Offline,
            fcm_token: None,
            location: None,
            current_load: 0,
            max_daily_messages: DEFAULT_MAX_DAILY_MESSAGES,
            messages_sent_today: 0,
            last_heartbeat: None,
            reputation_score: INITIAL_REPUTATION_PERCENT,
            success_rate: 100,
            total_messages_sent: 0,
            total_messages_delivered: 0,
            earnings_total_micro: 0,
            created_at: now,
            updated_at: now,
        }
    }

    /// Whether the provider can take dispatch work right now.
    pub fn is_available(&self, now: u64) -> (r: bool)
        requires
            self.wf(),
        ensures
            r == self.spec_is_available(now),
    {
        matches!(self.status, ProviderStatus::Online) && self.current_load < CONCURRENCY_LIMIT
            && self.messages_sent_today < self.max_daily_messages
            && self.is_heartbeat_recent(now)
    }

    /// Whether the last heartbeat lies within the freshness window.
    pub fn is_heartbeat_recent(&self, now: u64) -> (r: bool)
        requires
            self.wf(),
        ensures
            r == self.spec_is_heartbeat_recent(now),
    {
        match self.last_heartbeat {
            Some(last_heartbeat) => now < last_heartbeat + HEARTBEAT_FRESH_MS,
            None => false,
        }
    }

    /// Record a heartbeat at the given instant.
    pub fn update_heartbeat(&mut self, now: u64)
        requires
            valid_time(now),
        ensures
            *final(self) == (Provider {
                last_heartbeat: Some(now),
                updated_at: now,
                ..*old(self)
            }),
            old(self).wf() ==> final(self).wf(),
    {
        self.last_heartbeat = Some(now);
        self.updated_at = now;
    }

    /// Comes online, refreshing the push token and the heartbeat.
    pub fn set_online(&mut self, fcm_token: Option<String>, now: u64)
        requires
            valid_time(now),
        ensures
            *final(self) == (Provider {
                status: ProviderStatus::Online,
                fcm_token: fcm_token,
                last_heartbeat: Some(now),
                updated_at: now,
                ..*old(self)
            }),
            old(self).wf() ==> final(self).wf(),
    {
        self.status = ProviderStatus::Online;
        self.fcm_token = fcm_token;
        self.update_heartbeat(now);
    }

    /// Goes offline and sheds its load.
    pub fn set_offline(&mut self, now: u64)
        ensures
            *final(self) == (Provider {
                status: ProviderStatus::Offline,
                current_load: 0,
                updated_at: now,
                ..*old(self)
            }),
    {
        self.status = ProviderStatus::Offline;
        self.current_load = 0;
        self.updated_at = now;
    }

    /// One more message in flight; applied after a provider is chosen and
    /// before the push attempt.
    pub fn increment_load(&mut self, now: u64)
        requires
            old(self).current_load < u32::MAX,
        ensures
            *final(self) == (Provider {
                current_load: (old(self).current_load + 1) as u32,
                updated_at: now,
                ..*old(self)
            }),
    {
        self.current_load = self.current_load + 1;
        self.updated_at = now;
    }

    /// One message left flight; never drops below zero.
    pub fn decrement_load(&mut self, now: u64)
        ensures
            *final(self) == (Provider {
                current_load: if old(self).current_load > 0 {
                    (old(self).current_load - 1) as u32
                } else {
                    0u32
                },
                updated_at: now,
                ..*old(self)
            }),
    {
        if self.current_load > 0 {
            self.current_load = self.current_load - 1;
        }
        self.updated_at = now;
    }

    /// Counts a sent message against the totals and the daily cap; the
    /// counters saturate rather than wrap.
    pub fn record_message_sent(&mut self, now: u64)
        ensures
            *final(self) == (Provider {
                total_messages_sent: spec_sat_inc_u64(old(self).total_messages_sent),
                messages_sent_today: spec_sat_inc_u32(old(self).messages_sent_today),
                updated_at: now,
                ..*old(self)
            }),
    {
        if self.total_messages_sent < u64::MAX {
            self.total_messages_sent = self.total_messages_sent + 1;
        }
        if self.messages_sent_today < u32::MAX {
            self.messages_sent_today = self.messages_sent_today + 1;
        }
        self.updated_at = now;
    }

    /// Counts a confirmed delivery, credits the reward, and refreshes the
    /// derived success rate.
    pub fn record_message_delivered(&mut self, reward_micro: u64, now: u64)
        ensures
            *final(self) == (Provider {
                total_messages_delivered: spec_sat_inc_u64(old(self).total_messages_delivered),
                earnings_total_micro: spec_sat_add_u64(
                    old(self).earnings_total_micro,
                    reward_micro,
                ),
                success_rate: final(self).success_rate,
                updated_at: now,
                ..*old(self)
            }),
            final(self).success_rate == if old(self).total_messages_sent > 0 {
                spec_success_rate(
                    spec_sat_inc_u64(old(self).total_messages_delivered),
                    old(self).total_messages_sent,
                )
            } else {
                old(self).success_rate
            },
    {
        if self.total_messages_delivered < u64::MAX {
            self.total_messages_delivered = self.total_messages_delivered + 1;
        }
        if reward_micro <= u64::MAX - self.earnings_total_micro {
            self.earnings_total_micro = self.earnings_total_micro + reward_micro;
        } else {
            self.earnings_total_micro = u64::MAX;
        }
        self.update_success_rate();
        self.updated_at = now;
    }

    /// Counts a failed delivery by refreshing the derived success rate.
    pub fn record_message_failed(&mut self, now: u64)
        ensures
            *final(self) == (Provider {
                success_rate: final(self).success_rate,
                updated_at: now,
                ..*old(self)
            }),
            final(self).success_rate == if old(self).total_messages_sent > 0 {
                spec_success_rate(
                    old(self).total_messages_delivered,
                    old(self).total_messages_sent,
                )
            } else {
                old(self).success_rate
            },
    {
        self.update_success_rate();
        self.updated_at = now;
    }

    fn update_success_rate(&mut self)
        ensures
            *final(self) == (Provider {
                success_rate: final(self).success_rate,
                ..*old(self)
            }),
            final(self).success_rate == if old(self).total_messages_sent > 0 {
                spec_success_rate(
                    old(self).total_messages_delivered,
                    old(self).total_messages_sent,
                )
            } else {
                old(self).success_rate
            },
    {
        if self.total_messages_sent > 0 {
            if self.total_messages_delivered >= self.total_messages_sent {
                self.success_rate = 100;
            } else {
                let rate = (self.total_messages_delivered as u128) * 100
                    / (self.total_messages_sent as u128);
                proof {
                    let d = self.total_messages_delivered as int;
                    let s = self.total_messages_sent as int;
                    assert(d * 100 < s * 100) by (nonlinear_arith)
                        requires
                            d < s,
                    ;
                    assert(d * 100 / s < 100) by (nonlinear_arith)
                        requires
                            d * 100 < s * 100 && s > 0,
                    ;
                }
                self.success_rate = rate as u32;
            }
        }
    }

    /// A new day: the daily counter starts over.
    pub fn reset_daily_counters(&mut self, now: u64)
        ensures
            *final(self) == (Provider {
                messages_sent_today: 0,
                updated_at: now,
                ..*old(self)
            }),
    {
        self.messages_sent_today = 0;
        self.updated_at = now;
    }

    /// Records the device's reported location.
    pub fn update_location(&mut self, location: Location, now: u64)
        ensures
            *final(self) == (Provider {
                location: Some(location),
                updated_at: now,
                ..*old(self)
            }),
    {
        self.location = Some(location);
        self.updated_at = now;
    }
}

/// A provider at or over the concurrency limit is never available, whatever
/// its status, caps, or heartbeat say.
pub proof fn lemma_overloaded_never_available(p: Provider, now: u64)
    requires
        p.current_load >= CONCURRENCY_LIMIT,
    ensures
        !p.spec_is_available(now),
{
}

} // verus!
