//! Request and response envelopes for the structured RPC protocol,
//! together with the standard error codes of its uniform error taxonomy.

use vstd::prelude::*;

verus! {

/// Malformed request body: the envelope itself could not be deserialized.
pub const PARSE_ERROR: i64 = -32700;

/// The envelope was readable but is not a valid request.
pub const INVALID_REQUEST: i64 = -32600;

/// The requested method has no registered handler.
pub const METHOD_NOT_FOUND: i64 = -32601;

/// The parameters could not be decoded into the handler's expected shape.
pub const INVALID_PARAMS: i64 = -32602;

/// The handler itself failed; the failure's message travels as error data.
pub const INTERNAL_ERROR: i64 = -32603;

/// The protocol version carried by every envelope.
pub open spec fn protocol_version() -> Seq<char> {
    "2.0"@
}

/// A request's correlation token: an integer, a string, or an explicit
/// null. It is echoed verbatim in the response and means nothing to the
/// dispatcher.
#[derive(Debug, PartialEq, Eq)]
pub enum RpcId {
    Number(i64),
    Text(String),
    Null,
}

impl Clone for RpcId {
    /// A clone carries the same token.
    fn clone(&self) -> (r: Self)
        ensures
            r == *self,
    {
        match self {
            RpcId::Number(n) => RpcId::Number(*n),
            RpcId::Text(s) => RpcId::Text(s.clone()),
            RpcId::Null => RpcId::Null,
        }
    }
}

/// A decoded request envelope.
///
/// `params` holds the parameter value in its raw serialized form; the
/// dispatcher never looks inside it, only the resolved handler does.
/// `id` is an optional correlation token echoed verbatim in the response.
#[derive(Debug)]
pub struct JsonRpcRequest {
    pub jsonrpc: String,
    pub method: String,
    pub params: String,
    pub id: Option<RpcId>,
}

/// A response envelope: a tagged union holding exactly one of a result
/// or an error, with the request's correlation `id` mirrored in both arms.
#[derive(Debug)]
pub enum JsonRpcResponse {
    Success { jsonrpc: String, result: String, id: Option<RpcId> },
    Error { jsonrpc: String, code: i64, data: Option<String>, id: Option<RpcId> },
}

impl JsonRpcResponse {
    /// The correlation id carried by either arm.
    pub open spec fn id_of(&self) -> Option<RpcId> {
        match *self {
            JsonRpcResponse::Success { id, .. } => id,
            JsonRpcResponse::Error { id, .. } => id,
        }
    }

    /// Whether this envelope reports a failure.
    pub open spec fn is_error(&self) -> bool {
        self is Error
    }

    /// The error code, where the envelope reports a failure.
    pub open spec fn error_code(&self) -> Option<i64> {
        match *self {
            JsonRpcResponse::Success { .. } => None,
            JsonRpcResponse::Error { code, .. } => Some(code),
        }
    }

    /// The error data, where the envelope reports a failure that carries any.
    pub open spec fn error_data(&self) -> Option<Seq<char>> {
        match *self {
            JsonRpcResponse::Success { .. } => None,
            JsonRpcResponse::Error { data: Some(d), .. } => Some(d@),
            JsonRpcResponse::Error { data: None, .. } => None,
        }
    }

    /// The encoded result, where the envelope reports success.
    pub open spec fn result_of(&self) -> Option<Seq<char>> {
        match *self {
            JsonRpcResponse::Success { result, .. } => Some(result@),
            JsonRpcResponse::Error { .. } => None,
        }
    }

    /// A well-formed envelope always declares the fixed protocol version.
    pub open spec fn wf(&self) -> bool {
        match *self {
            JsonRpcResponse::Success { jsonrpc, .. } => jsonrpc@ == protocol_version(),
            JsonRpcResponse::Error { jsonrpc, .. } => jsonrpc@ == protocol_version(),
        }
    }

    /// Builds a success envelope around an encoded result.
    pub fn success(result: String, id: Option<RpcId>) -> (r: Self)
        ensures
            r == (JsonRpcResponse::Success { jsonrpc: r.version_field(), result, id }),
            r.wf(),
    {
        JsonRpcResponse::Success { jsonrpc: String::from_str("2.0"), result, id }
    }

    /// Builds an error envelope around a code and optional error data.
    pub fn error(code: i64, data: Option<String>, id: Option<RpcId>) -> (r: Self)
        ensures
            r == (JsonRpcResponse::Error { jsonrpc: r.version_field(), code, data, id }),
            r.wf(),
    {
        JsonRpcResponse::Error { jsonrpc: String::from_str("2.0"), code, data, id }
    }

    /// The version string stored in this envelope.
    pub open spec fn version_field(&self) -> String {
        match *self {
            JsonRpcResponse::Success { jsonrpc, .. } => jsonrpc,
            JsonRpcResponse::Error { jsonrpc, .. } => jsonrpc,
        }
    }

    /// Replaces the correlation id, keeping everything else.
    pub fn with_id(self, id: Option<RpcId>) -> (r: Self)
        ensures
            r.id_of() == id,
            r.is_error() == self.is_error(),
            r.error_code() == self.error_code(),
            r.error_data() == self.error_data(),
            r.result_of() == self.result_of(),
            r.wf() == self.wf(),
    {
        match self {
            JsonRpcResponse::Success { jsonrpc, result, .. } => {
                JsonRpcResponse::Success { jsonrpc, result, id }
            },
            JsonRpcResponse::Error { jsonrpc, code, data, .. } => {
                JsonRpcResponse::Error { jsonrpc, code, data, id }
            },
        }
    }
}

/// An opaque handler failure, reduced to its message.
#[derive(Debug)]
pub struct InternalError {
    pub message: String,
}

impl InternalError {
    /// Wraps a failure message.
    pub fn new(message: String) -> (r: Self)
        ensures
            r.message == message,
    {
        InternalError { message }
    }
}

} // verus!
