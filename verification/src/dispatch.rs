//! The RPC dispatcher: from a received request to a response envelope.
//!
//! A request moves through parse, method resolution and invocation, and
//! every path — malformed body, unknown method, parameter decode failure,
//! handler failure, success — ends in a well-formed response envelope.
//! Nothing a handler does escapes this boundary unstructured, and the
//! resolved handler is invoked at most once, with no retry.

use crate::envelope::{
    JsonRpcRequest, JsonRpcResponse, RpcId, INTERNAL_ERROR, INVALID_PARAMS, METHOD_NOT_FOUND,
    PARSE_ERROR,
};
use crate::handlers::{invoke_handler, invoke_spec, HandlerKind, HandlerOutcome, OutcomeSpec};
use crate::registry::MethodRegistry;
use vstd::prelude::*;

verus! {

/// What deserializing a raw request body yielded: a request envelope, or
/// nothing that could be trusted — not even an id.
pub enum ParseOutcome {
    Parsed(JsonRpcRequest),
    Malformed,
}

/// Whether response `r` reports the handler outcome `o` for a request
/// with correlation id `id`: a success envelope around the encoded
/// result, or the error envelope the taxonomy assigns to the failure.
pub open spec fn reports_outcome(r: JsonRpcResponse, id: Option<RpcId>, o: OutcomeSpec) -> bool {
    &&& r.id_of() == id
    &&& match o {
        OutcomeSpec::Success(res) => !r.is_error() && r.result_of() == Some(res),
        OutcomeSpec::InvalidParams => r.error_code() == Some(INVALID_PARAMS) && r.error_data()
            is None,
        OutcomeSpec::Failed(msg) => r.error_code() == Some(INTERNAL_ERROR) && r.error_data()
            == Some(msg),
    }
}

/// Dispatches one parse outcome against the registry and wraps whatever
/// happens in a response envelope:
///
/// - a malformed body is answered with the parse error and no id, since
///   an unparsed id cannot be trusted;
/// - an unregistered method is answered with the method-not-found error;
/// - a registered method is invoked exactly once and its outcome is
///   reported, the request's id echoed verbatim in every case.
pub fn dispatch(registry: &MethodRegistry, input: ParseOutcome) -> (r: JsonRpcResponse)
    requires
        registry.wf(),
    ensures
        r.wf(),
        input is Malformed ==> r.error_code() == Some(PARSE_ERROR) && r.id_of() == None::<RpcId>
            && r.error_data() is None,
        input matches ParseOutcome::Parsed(req) ==> {
            &&& r.id_of() == req.id
            &&& (!registry@.contains_key(req.method@) ==> r.error_code() == Some(
                METHOD_NOT_FOUND,
            ) && r.error_data() == Some("Method not found"@))
            &&& (registry@.contains_key(req.method@) ==> reports_outcome(
                r,
                req.id,
                invoke_spec(registry@[req.method@], req.params@),
            ))
        },
{
    match input {
        ParseOutcome::Malformed => JsonRpcResponse::error(PARSE_ERROR, None, None),
        ParseOutcome::Parsed(req) => match registry.lookup(&req.method) {
            None => JsonRpcResponse::error(
                METHOD_NOT_FOUND,
                Some(String::from_str("Method not found")),
                req.id,
            ),
            Some(handler) => respond(handler, req),
        },
    }
}

/// Invokes `handler` on the request's parameters and builds the response
/// envelope for its outcome.
fn respond(handler: HandlerKind, req: JsonRpcRequest) -> (r: JsonRpcResponse)
    ensures
        r.wf(),
        reports_outcome(r, req.id, invoke_spec(handler, req.params@)),
{
    match invoke_handler(handler, &req.params) {
        HandlerOutcome::Success(result) => JsonRpcResponse::success(result, req.id),
        HandlerOutcome::InvalidParams => JsonRpcResponse::error(INVALID_PARAMS, None, req.id),
        HandlerOutcome::Failed(message) => JsonRpcResponse::error(
            INTERNAL_ERROR,
            Some(message),
            req.id,
        ),
    }
}

} // verus!
