//! Provider matching: pick a provider for a message by carrier affinity and
//! capacity.
//!
//! First pass: the first online provider of the recipient's carrier that is
//! under its concurrency limit and daily cap. Second pass: the same
//! predicate without the carrier filter, trading delivery-rate optimality
//! for availability. When both passes fail the caller must re-queue the work
//! rather than fail the message outright.

use vstd::prelude::*;

use crate::provider::{Provider, CONCURRENCY_LIMIT};
use crate::types::{Carrier, ProviderStatus};

verus! {

/// The directory query's predicate: online and with spare capacity. (The
/// heartbeat freshness window belongs to `Provider::is_available`, which
/// governs eligibility bookkeeping; the matching query itself filters on
/// status and capacity.)
pub open spec fn spec_matchable(p: Provider) -> bool {
    &&& p.status is Online
    &&& p.current_load < CONCURRENCY_LIMIT
    &&& p.messages_sent_today < p.max_daily_messages
}

/// Some provider in the pool is matchable and has the wanted carrier.
pub open spec fn spec_has_carrier_match(ps: Seq<Provider>, c: Carrier) -> bool {
    exists|k: int| 0 <= k < ps.len() && spec_matchable(ps[k]) && ps[k].carrier == c
}

/// Some provider in the pool is matchable at all.
pub open spec fn spec_has_any_match(ps: Seq<Provider>) -> bool {
    exists|k: int| 0 <= k < ps.len() && spec_matchable(ps[k])
}

fn matchable(p: &Provider) -> (r: bool)
    ensures
        r == spec_matchable(*p),
{
    matches!(p.status, ProviderStatus::Online)
        && p.current_load < CONCURRENCY_LIMIT
        && p.messages_sent_today < p.max_daily_messages
}

/// Finds a provider for a message whose recipient belongs to
/// `target_carrier`: the first same-carrier match, else the first match of
/// any carrier, else nothing.
pub fn find_available_provider(providers: &Vec<Provider>, target_carrier: Carrier) -> (r: Option<
    usize,
>)
    ensures
        match r {
            Some(i) => {
                &&& 0 <= i < providers@.len()
                &&& spec_matchable(providers@[i as int])
                &&& if spec_has_carrier_match(providers@, target_carrier) {
                    &&& providers@[i as int].carrier == target_carrier
                    &&& forall|k: int|
                        0 <= k < i ==> !(spec_matchable(providers@[k]) && providers@[k].carrier
                            == target_carrier)
                } else {
                    forall|k: int| 0 <= k < i ==> !spec_matchable(providers@[k])
                }
            },
            None => !spec_has_any_match(providers@),
        },
{
    let n = providers.len();
    let mut i: usize = 0;
    while i < n
        invariant
            0 <= i <= n,
            n == providers@.len(),
            forall|k: int|
                0 <= k < i ==> !(spec_matchable(providers@[k]) && providers@[k].carrier
                    == target_carrier),
        decreases n - i,
    {
        let p = &providers[i];
        if matchable(p) && p.carrier == target_carrier {
            return Some(i);
        }
        i += 1;
    }
    let mut j: usize = 0;
    while j < n
        invariant
            0 <= j <= n,
            n == providers@.len(),
            !spec_has_carrier_match(providers@, target_carrier),
            forall|k: int| 0 <= k < j ==> !spec_matchable(providers@[k]),
        decreases n - j,
    {
        let p = &providers[j];
        if matchable(p) {
            return Some(j);
        }
        j += 1;
    }
    None
}

/// A provider at or over the concurrency limit never satisfies the matching
/// predicate, whatever its status, carrier or caps.
pub proof fn lemma_overloaded_never_matched(p: Provider)
    requires
        p.current_load >= CONCURRENCY_LIMIT,
    ensures
        !spec_matchable(p),
{
}

} // verus!
