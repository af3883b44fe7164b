//! Request gateway core for a combined HTTP+RPC server.
//!
//! The gateway steers each inbound request between two transport protocols
//! by content negotiation, enforces a per-client fixed-window rate limit
//! ahead of any handler, and dispatches structured remote-procedure-call
//! requests to registered method handlers under a uniform error taxonomy.

pub mod dispatch;
pub mod echo;
pub mod envelope;
pub mod errors;
pub mod gateway;
pub mod greeter;
pub mod handlers;
pub mod rate_limiter;
pub mod registry;
pub mod steering;
pub mod streams;
pub mod table;
