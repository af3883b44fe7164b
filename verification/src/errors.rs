//! Error normalization: the gateway's last line of defense.
//!
//! Every failure that surfaces past dispatch is converted to a structured
//! response; nothing escapes unstructured. RPC-level failures travel as a
//! structured error body under a successful transport status — the
//! protocol keeps its errors transport-status-agnostic — while
//! gateway-level failures map to their own transport statuses.

use crate::envelope::{INTERNAL_ERROR, INVALID_PARAMS, METHOD_NOT_FOUND, PARSE_ERROR};
use vstd::prelude::*;

verus! {

/// The gateway's failure taxonomy.
#[derive(Clone, Copy, Debug, PartialEq, Eq, Structural)]
pub enum GatewayError {
    /// Malformed request envelope.
    ParseError,
    /// No handler registered under the requested method.
    MethodNotFound,
    /// Parameters failed to decode into the handler's expected shape, or
    /// failed its declared validation constraints.
    InvalidParams,
    /// Handler-level failure, wrapping an opaque message.
    InternalError,
    /// The client's fixed-window budget is spent.
    RateLimited,
    /// Downstream processing overran the gateway's fixed duration.
    Timeout,
    /// The request body exceeds the configured maximum size.
    PayloadTooLarge,
}

impl GatewayError {
    /// The envelope error code for an RPC-level failure; gateway-level
    /// failures have none and are reported by transport status alone.
    pub open spec fn rpc_code_spec(&self) -> Option<i64> {
        match *self {
            GatewayError::ParseError => Some(PARSE_ERROR),
            GatewayError::MethodNotFound => Some(METHOD_NOT_FOUND),
            GatewayError::InvalidParams => Some(INVALID_PARAMS),
            GatewayError::InternalError => Some(INTERNAL_ERROR),
            GatewayError::RateLimited => None,
            GatewayError::Timeout => None,
            GatewayError::PayloadTooLarge => None,
        }
    }

    /// The envelope error code for an RPC-level failure.
    pub fn rpc_code(&self) -> (c: Option<i64>)
        ensures
            c == self.rpc_code_spec(),
    {
        match *self {
            GatewayError::ParseError => Some(PARSE_ERROR),
            GatewayError::MethodNotFound => Some(METHOD_NOT_FOUND),
            GatewayError::InvalidParams => Some(INVALID_PARAMS),
            GatewayError::InternalError => Some(INTERNAL_ERROR),
            GatewayError::RateLimited => None,
            GatewayError::Timeout => None,
            GatewayError::PayloadTooLarge => None,
        }
    }

    /// The transport status each failure is delivered under: RPC-level
    /// failures ride a successful status with a structured body, a spent
    /// budget answers 429, an oversized body 413, and an overrun or any
    /// other unhandled failure a generic 500.
    pub open spec fn http_status_spec(&self) -> u16 {
        match *self {
            GatewayError::ParseError => 200u16,
            GatewayError::MethodNotFound => 200u16,
            GatewayError::InvalidParams => 200u16,
            GatewayError::InternalError => 200u16,
            GatewayError::RateLimited => 429u16,
            GatewayError::Timeout => 500u16,
            GatewayError::PayloadTooLarge => 413u16,
        }
    }

    /// The transport status this failure is delivered under.
    pub fn http_status(&self) -> (s: u16)
        ensures
            s == self.http_status_spec(),
    {
        match *self {
            GatewayError::ParseError => 200,
            GatewayError::MethodNotFound => 200,
            GatewayError::InvalidParams => 200,
            GatewayError::InternalError => 200,
            GatewayError::RateLimited => 429,
            GatewayError::Timeout => 500,
            GatewayError::PayloadTooLarge => 413,
        }
    }
}

/// An application-level failure on its way out of the gateway, reduced
/// to a message and the transport status it must be delivered under.
#[derive(Debug)]
pub enum AppError {
    /// Any unhandled failure: normalized to a generic internal error.
    Anyhow { message: String },
    /// A failure that chose its own transport status.
    CustomCode { message: String, status: u16 },
    /// Denied by the rate limiter.
    RateLimited { message: String },
    /// A decoded payload failed its validation constraints.
    ValidationError { message: String },
}

impl AppError {
    /// The transport status the normalized failure is delivered under.
    pub open spec fn status_spec(&self) -> u16 {
        match *self {
            AppError::Anyhow { .. } => 500u16,
            AppError::CustomCode { status, .. } => status,
            AppError::RateLimited { .. } => 429u16,
            AppError::ValidationError { .. } => 400u16,
        }
    }

    /// The transport status this failure maps to.
    pub fn status_code(&self) -> (s: u16)
        ensures
            s == self.status_spec(),
    {
        match self {
            AppError::Anyhow { .. } => 500,
            AppError::CustomCode { status, .. } => *status,
            AppError::RateLimited { .. } => 429,
            AppError::ValidationError { .. } => 400,
        }
    }

    /// The failure's message, as the response body will carry it.
    pub fn message(&self) -> (m: &String)
        ensures
            match *self {
                AppError::Anyhow { message } => m == message,
                AppError::CustomCode { message, .. } => m == message,
                AppError::RateLimited { message } => m == message,
                AppError::ValidationError { message } => m == message,
            },
    {
        match self {
            AppError::Anyhow { message } => message,
            AppError::CustomCode { message, .. } => message,
            AppError::RateLimited { message } => message,
            AppError::ValidationError { message } => message,
        }
    }

    /// The denial the rate limiter's middleware answers with.
    pub fn rate_limited() -> (r: Self)
        ensures
            r matches AppError::CustomCode { message, status } && message@
                == "Rate limit exceeded"@ && status == 429u16,
    {
        AppError::CustomCode { message: String::from_str("Rate limit exceeded"), status: 429 }
    }
}

} // verus!
