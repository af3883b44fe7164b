//! The gateway's middleware decisions: what happens to an inbound request
//! before any handler sees it.
//!
//! Every request passes the body-size policy, then the per-client rate
//! limit, and only then earns a steering decision. A denial short-circuits:
//! a rate-limited request is never forwarded, so it can never reach the
//! registry or a handler. The client key is taken from the forwarded
//! client address; unidentified clients share one sentinel bucket.

use crate::rate_limiter::{check_allowed, check_count, check_table, RateLimiter};
use crate::steering::{steer, steer_spec, SteeringTarget};
use vstd::prelude::*;

verus! {

/// The request metadata the gateway reads: declared content type, the
/// optional forwarded client address, and the declared body size in bytes.
pub struct RequestMeta {
    pub content_type: Option<String>,
    pub forwarded_for: Option<String>,
    pub content_length: u64,
}

/// The rate-limit bucket key for a request: the forwarded client address,
/// or the shared sentinel where none was sent.
pub open spec fn client_key_spec(forwarded_for: Option<Seq<char>>) -> Seq<char> {
    match forwarded_for {
        Some(addr) => addr,
        None => "unknown"@,
    }
}

/// Extracts the rate-limit bucket key from the forwarded client address.
pub fn client_key(forwarded_for: &Option<String>) -> (k: String)
    ensures
        k@ == client_key_spec(forwarded_for.deep_view()),
{
    match forwarded_for {
        Some(addr) => addr.clone(),
        None => String::from_str("unknown"),
    }
}

/// What the middleware chain decided for one request.
#[derive(Clone, Copy, Debug, PartialEq, Eq, Structural)]
pub enum GatewayDecision {
    /// The declared body size exceeds the configured maximum; rejected
    /// before buffering, and before the rate limiter is consulted.
    PayloadTooLarge,
    /// The client's budget is spent: short-circuit with the current
    /// count, forwarding nothing.
    RateLimited { count: u64 },
    /// Admitted; forward to exactly one downstream service.
    Forward { target: SteeringTarget },
}

/// Decides one request at time `now`: body-size policy first, then the
/// rate limit for the request's client key, then — only for an admitted
/// request — the steering decision. Denials leave the limiter's table
/// exactly as the limiter's own contract says a denied check leaves it.
pub fn gate(limiter: &mut RateLimiter, max_body: u64, meta: &RequestMeta, now: u64) -> (d:
    GatewayDecision)
    requires
        old(limiter).wf(),
    ensures
        final(limiter).wf(),
        final(limiter).max_requests_spec() == old(limiter).max_requests_spec(),
        final(limiter).window_spec() == old(limiter).window_spec(),
        meta.content_length > max_body ==> d == GatewayDecision::PayloadTooLarge
            && final(limiter)@ == old(limiter)@,
        meta.content_length <= max_body ==> {
            let key = client_key_spec(meta.forwarded_for.deep_view());
            let allowed = check_allowed(
                old(limiter)@,
                key,
                now,
                old(limiter).max_requests_spec(),
                old(limiter).window_spec(),
            );
            &&& final(limiter)@ == check_table(
                old(limiter)@,
                key,
                now,
                old(limiter).max_requests_spec(),
                old(limiter).window_spec(),
            )
            &&& allowed ==> d == (GatewayDecision::Forward {
                target: steer_spec(meta.content_type.deep_view()),
            })
            &&& !allowed ==> d == (GatewayDecision::RateLimited {
                count: check_count(
                    old(limiter)@,
                    key,
                    now,
                    old(limiter).max_requests_spec(),
                    old(limiter).window_spec(),
                ),
            })
        },
{
    if meta.content_length > max_body {
        return GatewayDecision::PayloadTooLarge;
    }
    let key = client_key(&meta.forwarded_for);
    let (count, allowed) = limiter.check(&key, now);
    if !allowed {
        return GatewayDecision::RateLimited { count };
    }
    GatewayDecision::Forward { target: steer(&meta.content_type) }
}

} // verus!
