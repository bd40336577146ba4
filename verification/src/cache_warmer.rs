//! The cache warmer: which caches of an active slug are refreshed, and how
//! many refreshes run at one time.

use vstd::prelude::*;

verus! {

/// Seconds between two warming passes.
pub const WARM_INTERVAL_SECS: u64 = 5;

/// An endpoint entry is refreshed once fewer seconds than this are left of it.
pub const ENDPOINT_TTL_REFRESH_THRESHOLD: i64 = 10;

/// A quota entry is refreshed once fewer seconds than this are left of it.
pub const QUOTA_TTL_REFRESH_THRESHOLD: i64 = 5;

/// The most refreshes that run at one time.
pub const MAX_CONCURRENT_WARMS: usize = 8;

/// Whether an entry with this time to live is refreshed: one that is about to
/// expire is, one that is not cached is not, for a slug without traffic needs
/// no cache.
pub open spec fn due(ttl: Option<i64>, threshold: i64) -> bool {
    match ttl {
        Some(t) => t < threshold,
        None => false,
    }
}

/// What is refreshed for a slug.
#[derive(Clone, Copy, Debug, PartialEq, Eq, Structural)]
pub struct WarmNeed {
    pub endpoint: bool,
    pub quota: bool,
}

/// What a warming pass does for a slug.
#[derive(Clone, Copy, Debug, PartialEq, Eq, Structural)]
pub enum WarmAction {
    /// Nothing is due.
    Skip,
    /// Start a refresh.
    Spawn(WarmNeed),
    /// Wait for the earliest running refresh to end, then start one.
    JoinThenSpawn(WarmNeed),
}

/// Whether a pass is made at all: not while the circuit breaker is anything
/// but closed.
pub fn should_warm(degraded: bool) -> (r: bool)
    ensures
        r == !degraded,
{
    !degraded
}

/// What is due for a slug, given the seconds left of its cached endpoint and
/// of its cached quota.
pub fn warm_need(endpoint_ttl: Option<i64>, quota_ttl: Option<i64>) -> (need: WarmNeed)
    ensures
        need.endpoint == due(endpoint_ttl, 10),
        need.quota == due(quota_ttl, 5),
{
    WarmNeed {
        endpoint: match endpoint_ttl {
            Some(t) => t < ENDPOINT_TTL_REFRESH_THRESHOLD,
            None => false,
        },
        quota: match quota_ttl {
            Some(t) => t < QUOTA_TTL_REFRESH_THRESHOLD,
            None => false,
        },
    }
}

/// What a pass does for a slug while `running` refreshes run, and how many
/// run afterwards.
pub open spec fn warm_effect(running: usize, need: WarmNeed) -> (usize, WarmAction) {
    if !need.endpoint && !need.quota {
        (running, WarmAction::Skip)
    } else if running >= 8 {
        (running, WarmAction::JoinThenSpawn(need))
    } else {
        ((running + 1) as usize, WarmAction::Spawn(need))
    }
}

/// Decides what a pass does for a slug; `running` counts the refreshes that
/// run.
pub fn warm_step(running: &mut usize, endpoint_ttl: Option<i64>, quota_ttl: Option<i64>) -> (action:
    WarmAction)
    ensures
        (*final(running), action) == warm_effect(
            *old(running),
            WarmNeed { endpoint: due(endpoint_ttl, 10), quota: due(quota_ttl, 5) },
        ),
        *old(running) <= 8 ==> *final(running) <= 8,
{
    let need = warm_need(endpoint_ttl, quota_ttl);
    if !need.endpoint && !need.quota {
        WarmAction::Skip
    } else if *running >= MAX_CONCURRENT_WARMS {
        WarmAction::JoinThenSpawn(need)
    } else {
        *running = *running + 1;
        WarmAction::Spawn(need)
    }
}

} // verus!
