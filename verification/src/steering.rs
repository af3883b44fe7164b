//! Protocol steering: choosing a downstream service by content type.
//!
//! A single listening socket serves two transport protocols. The steering
//! decision reads nothing but the request's declared content type, is made
//! once per request before any body is read, and is never reconsidered.
//! There is no error state: anything but the secondary protocol's marker —
//! including a missing content type — fails open to the general web router.

use vstd::prelude::*;

verus! {

/// The two statically configured downstream services.
#[derive(Clone, Copy, Debug, PartialEq, Eq, Structural)]
pub enum SteeringTarget {
    /// The general-purpose web router, which also exposes the RPC
    /// dispatcher on a path.
    Web,
    /// The secondary protocol server for RPC over binary framing.
    SecondaryProtocol,
}

/// The content-type token that selects the secondary protocol path.
pub open spec fn secondary_marker() -> Seq<char> {
    "application/grpc"@
}

/// The steering rule: the marker value selects the secondary protocol;
/// any other declared content type, or none, selects the web router.
pub open spec fn steer_spec(content_type: Option<Seq<char>>) -> SteeringTarget {
    match content_type {
        Some(ct) => if ct == secondary_marker() {
            SteeringTarget::SecondaryProtocol
        } else {
            SteeringTarget::Web
        },
        None => SteeringTarget::Web,
    }
}

/// Selects exactly one downstream service for a request that declares
/// `content_type`.
pub fn steer(content_type: &Option<String>) -> (t: SteeringTarget)
    ensures
        t == steer_spec(content_type.deep_view()),
{
    match content_type {
        Some(ct) => {
            if *ct == String::from_str("application/grpc") {
                SteeringTarget::SecondaryProtocol
            } else {
                SteeringTarget::Web
            }
        },
        None => SteeringTarget::Web,
    }
}

} // verus!
