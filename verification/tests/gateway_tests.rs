use rpc_gateway::errors::{AppError, GatewayError};
use rpc_gateway::gateway::{client_key, gate, GatewayDecision, RequestMeta};
use rpc_gateway::rate_limiter::RateLimiter;
use rpc_gateway::steering::{steer, SteeringTarget};

fn meta(content_type: Option<&str>, forwarded_for: Option<&str>, content_length: u64) -> RequestMeta {
    RequestMeta {
        content_type: content_type.map(|s| s.to_string()),
        forwarded_for: forwarded_for.map(|s| s.to_string()),
        content_length,
    }
}

#[test]
fn test_steering_marker_selects_secondary() {
    assert_eq!(
        steer(&Some("application/grpc".to_string())),
        SteeringTarget::SecondaryProtocol
    );
    assert_eq!(steer(&Some("application/json".to_string())), SteeringTarget::Web);
    assert_eq!(steer(&Some("text/plain".to_string())), SteeringTarget::Web);
    // Absence and near-misses fail open to the web router.
    assert_eq!(steer(&None), SteeringTarget::Web);
    assert_eq!(steer(&Some("application/grpc+proto".to_string())), SteeringTarget::Web);
}

#[test]
fn test_steering_never_double_delivers() {
    // A marked request is forwarded to the secondary protocol and so is
    // never seen by the web router's route table.
    let mut limiter = RateLimiter::new(10, 60);
    let decision = gate(
        &mut limiter,
        1_000_000,
        &meta(Some("application/grpc"), Some("1.2.3.4"), 10),
        0,
    );
    assert_eq!(
        decision,
        GatewayDecision::Forward { target: SteeringTarget::SecondaryProtocol }
    );
    let decision = gate(
        &mut limiter,
        1_000_000,
        &meta(Some("application/json"), Some("1.2.3.4"), 10),
        0,
    );
    assert_eq!(decision, GatewayDecision::Forward { target: SteeringTarget::Web });
}

#[test]
fn test_eleventh_request_short_circuits() {
    // Limiter configured for 10 per 60-second window: requests 1-10 are
    // forwarded, request 11 is denied before any steering or dispatch.
    let mut limiter = RateLimiter::new(10, 60);
    let request_meta = meta(Some("application/json"), Some("9.9.9.9"), 100);
    for second in 0..10 {
        let decision = gate(&mut limiter, 1_000_000, &request_meta, second);
        assert_eq!(decision, GatewayDecision::Forward { target: SteeringTarget::Web });
    }
    let decision = gate(&mut limiter, 1_000_000, &request_meta, 10);
    assert_eq!(decision, GatewayDecision::RateLimited { count: 10 });
    // The denial maps to the too-many-requests status.
    assert_eq!(GatewayError::RateLimited.http_status(), 429);
    assert_eq!(AppError::rate_limited().status_code(), 429);
}

#[test]
fn test_oversized_body_rejected_before_rate_limiting() {
    let mut limiter = RateLimiter::new(1, 60);
    let decision = gate(&mut limiter, 1_000_000, &meta(None, Some("8.8.8.8"), 1_000_001), 0);
    assert_eq!(decision, GatewayDecision::PayloadTooLarge);
    // The oversized request consumed no budget.
    let decision = gate(&mut limiter, 1_000_000, &meta(None, Some("8.8.8.8"), 1_000_000), 1);
    assert_eq!(decision, GatewayDecision::Forward { target: SteeringTarget::Web });
}

#[test]
fn test_missing_client_address_shares_sentinel_bucket() {
    assert_eq!(client_key(&None), "unknown");
    assert_eq!(client_key(&Some("1.2.3.4".to_string())), "1.2.3.4");
    let mut limiter = RateLimiter::new(1, 60);
    let decision = gate(&mut limiter, 1000, &meta(None, None, 5), 0);
    assert_eq!(decision, GatewayDecision::Forward { target: SteeringTarget::Web });
    // A second unidentified client drains the same bucket.
    let decision = gate(&mut limiter, 1000, &meta(None, None, 5), 1);
    assert_eq!(decision, GatewayDecision::RateLimited { count: 1 });
}

#[test]
fn test_error_taxonomy_statuses() {
    assert_eq!(GatewayError::ParseError.http_status(), 200);
    assert_eq!(GatewayError::MethodNotFound.http_status(), 200);
    assert_eq!(GatewayError::InvalidParams.http_status(), 200);
    assert_eq!(GatewayError::InternalError.http_status(), 200);
    assert_eq!(GatewayError::RateLimited.http_status(), 429);
    assert_eq!(GatewayError::Timeout.http_status(), 500);
    assert_eq!(GatewayError::PayloadTooLarge.http_status(), 413);
}

#[test]
fn test_error_taxonomy_rpc_codes() {
    assert_eq!(GatewayError::ParseError.rpc_code(), Some(-32700));
    assert_eq!(GatewayError::MethodNotFound.rpc_code(), Some(-32601));
    assert_eq!(GatewayError::InvalidParams.rpc_code(), Some(-32602));
    assert_eq!(GatewayError::InternalError.rpc_code(), Some(-32603));
    assert_eq!(GatewayError::RateLimited.rpc_code(), None);
    assert_eq!(GatewayError::Timeout.rpc_code(), None);
    assert_eq!(GatewayError::PayloadTooLarge.rpc_code(), None);
}

#[test]
fn test_app_error_normalization() {
    let unhandled = AppError::Anyhow { message: "boom".to_string() };
    assert_eq!(unhandled.status_code(), 500);
    assert_eq!(unhandled.message(), "boom");
    let custom = AppError::CustomCode { message: "gone".to_string(), status: 410 };
    assert_eq!(custom.status_code(), 410);
    let denied = AppError::RateLimited { message: "slow down".to_string() };
    assert_eq!(denied.status_code(), 429);
    let invalid = AppError::ValidationError { message: "bad name".to_string() };
    assert_eq!(invalid.status_code(), 400);
    match AppError::rate_limited() {
        AppError::CustomCode { message, status } => {
            assert_eq!(message, "Rate limit exceeded");
            assert_eq!(status, 429);
        }
        _ => panic!("the limiter's denial carries its own status"),
    }
}
