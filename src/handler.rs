//! The answers to queries: what the registry is asked and which badge goes
//! back. Resolving a target to an address is the caller's part.

use vstd::prelude::*;

use crate::badge::{
    BadgeError, count_badge, decimal, error_badge, error_badge_text, error_message, badge_text,
    tier_badge, tier_badge_text, version_badge,
};
use crate::metric::MetricView;
use crate::route::{MetricKind, Route};
use crate::state::{Address, SharedState, SharedView};
use crate::uptime::Uptime;

verus! {

/// The tier of a metric that a query of the given kind reports.
pub open spec fn metric_tier(m: MetricView, kind: MetricKind) -> Uptime {
    match kind {
        MetricKind::ByAvg => m.by_avg,
        MetricKind::ByLoss => m.by_loss,
    }
}

/// The badge of a tracked address, or `None` when `ip` is not tracked. Reads
/// the registry only.
pub fn lookup_badge(state: &SharedState, kind: MetricKind, ip: &Address) -> (r: Option<String>)
    ensures
        r is Some <==> state@.hosts.contains_key(*ip),
        r matches Some(b) ==> b@ == tier_badge_text(metric_tier(state@.hosts[*ip], kind)),
{
    match state.lookup(ip) {
        Some(m) => {
            let tier = match kind {
                MetricKind::ByAvg => m.by_avg(),
                MetricKind::ByLoss => m.by_loss(),
            };
            Some(tier_badge(tier))
        },
        None => None,
    }
}

/// Registers `ip`, in one step, and gives its badge: the "unknown" badge when
/// this call created the metric, else the badge of the metric that stands.
/// The flag tells whether this call created it, and so is to start probing.
pub fn register_badge(state: &mut SharedState, kind: MetricKind, ip: Address) -> (r: (String, bool))
    requires
        old(state).wf(),
        old(state)@.host_count < u64::MAX,
    ensures
        final(state).wf(),
        final(state)@ == old(state)@.register(ip),
        r.1 == !old(state)@.hosts.contains_key(ip),
        r.0@ == if old(state)@.hosts.contains_key(ip) {
            tier_badge_text(metric_tier(old(state)@.hosts[ip], kind))
        } else {
            tier_badge_text(Uptime::UpUnknown)
        },
{
    if let Some(b) = lookup_badge(state, kind, &ip) {
        return (b, false);
    }
    let created = state.insert(ip);
    (tier_badge(Uptime::UpUnknown), created)
}

/// The badge that answers an uptime query about the address that its target
/// resolved to: the error badge when it did not resolve, the badge of a
/// tracked address, or the "unknown" badge for an address first seen.
pub open spec fn uptime_answer(s: SharedView, kind: MetricKind, ip: Option<Address>) -> Seq<char> {
    match ip {
        None => error_badge_text(error_message(BadgeError::UnresolvableHostname)),
        Some(a) => if s.hosts.contains_key(a) {
            tier_badge_text(metric_tier(s.hosts[a], kind))
        } else {
            tier_badge_text(Uptime::UpUnknown)
        },
    }
}

/// Answers an uptime query about the address that its target resolved to
/// (`None`: it did not resolve). An address first seen is registered; the
/// flag tells whether this call created its metric, and so is to start
/// probing it. An unresolved target leaves the registry untouched.
pub fn answer(state: &mut SharedState, kind: MetricKind, ip: Option<Address>) -> (r: (String, bool))
    requires
        old(state).wf(),
        old(state)@.host_count < u64::MAX,
    ensures
        final(state).wf(),
        r.0@ == uptime_answer(old(state)@, kind, ip),
        match ip {
            None => final(state)@ == old(state)@ && !r.1,
            Some(a) => final(state)@ == old(state)@.register(a) && r.1 == !old(state)@.hosts.contains_key(a),
        },
{
    match ip {
        None => (error_badge(BadgeError::UnresolvableHostname), false),
        Some(a) => register_badge(state, kind, a),
    }
}

/// The badge that answers a route which needs no resolution: the number of
/// tracked hosts, the version, or the error badge of a malformed path.
/// `None` for an uptime query, which needs its target resolved first.
pub fn route_badge(route: &Route, state: &SharedState, version: &str) -> (r: Option<String>)
    ensures
        match route {
            Route::NumTracked => r matches Some(b) && b@ == badge_text(
                "tracked hosts"@,
                decimal(state@.host_count as nat),
                "blue"@,
            ),
            Route::Version => r matches Some(b) && b@ == badge_text("hosted version"@, version@, "blue"@),
            Route::Invalid => r matches Some(b) && b@ == error_badge_text(
                error_message(BadgeError::InvalidParameters),
            ),
            Route::Uptime { .. } => r is None,
        },
{
    match route {
        Route::NumTracked => Some(count_badge(state.get_num_tracked())),
        Route::Version => Some(version_badge(version)),
        Route::Invalid => Some(error_badge(BadgeError::InvalidParameters)),
        Route::Uptime { .. } => None,
    }
}

} // verus!
