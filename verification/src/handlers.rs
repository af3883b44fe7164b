//! The registered method handlers and their invocation.
//!
//! A handler decodes its raw parameter value, runs its business logic and
//! encodes the returned value back into raw form. Decoding and encoding
//! are the serializer's work and stay behind trusted wrappers; the logic
//! between them is verified. The set of handlers is assembled explicitly
//! at startup rather than through code generation.

use crate::envelope::InternalError;
use vstd::prelude::*;

verus! {

/// What `decode_my_rpc_params` yields on a given raw parameter text:
/// the `name` field, or nothing where decoding fails.
pub uninterp spec fn my_rpc_params_of(raw: Seq<char>) -> Option<Seq<char>>;

/// What `decode_greeting_params` yields on a given raw parameter text:
/// the `name` and `language` fields, or nothing where decoding fails.
pub uninterp spec fn greeting_params_of(raw: Seq<char>) -> Option<(Seq<char>, Seq<char>)>;

/// The serialized form of a greeting-call result with the given `message`.
pub uninterp spec fn my_rpc_result_json(message: Seq<char>) -> Seq<char>;

/// The serialized form of a translation-call result with the given
/// `greeting` and `translated` fields.
pub uninterp spec fn greeting_result_json(greeting: Seq<char>, translated: bool) -> Seq<char>;

/// What lowercasing yields on a given text.
pub uninterp spec fn lower_of(s: Seq<char>) -> Seq<char>;

/// Parameters of the `my_rpc` method.
#[derive(Debug)]
pub struct MyRpcParams {
    pub name: String,
}

/// Result of the `my_rpc` method.
#[derive(Debug)]
pub struct MyRpcResponse {
    pub message: String,
}

/// Parameters of the `greeting_rpc` method.
#[derive(Debug)]
pub struct GreetingRpcParams {
    pub name: String,
    pub language: String,
}

/// Result of the `greeting_rpc` method.
#[derive(Debug)]
pub struct GreetingRpcResponse {
    pub greeting: String,
    pub translated: bool,
}

/// Relies on serde_json::from_str: parses a JSON object and takes its
/// `"name"` string member, failing where the text is not such an object.
#[verifier::external_body]
fn decode_my_rpc_params(raw: &String) -> (r: Option<MyRpcParams>)
    ensures
        r is Some <==> my_rpc_params_of(raw@) is Some,
        r matches Some(p) ==> Some(p.name@) == my_rpc_params_of(raw@),
{
    match serde_json::from_str::<serde_json::Value>(raw) {
        Ok(serde_json::Value::Object(m)) => match m.get("name") {
            Some(serde_json::Value::String(s)) => Some(MyRpcParams { name: s.clone() }),
            _ => None,
        },
        _ => None,
    }
}

/// Relies on serde_json::from_str: parses a JSON object and takes its
/// `"name"` and `"language"` string members, failing where absent.
#[verifier::external_body]
fn decode_greeting_params(raw: &String) -> (r: Option<GreetingRpcParams>)
    ensures
        r is Some <==> greeting_params_of(raw@) is Some,
        r matches Some(p) ==> Some((p.name@, p.language@)) == greeting_params_of(raw@),
{
    match serde_json::from_str::<serde_json::Value>(raw) {
        Ok(serde_json::Value::Object(m)) => match (m.get("name"), m.get("language")) {
            (Some(serde_json::Value::String(n)), Some(serde_json::Value::String(l))) => Some(
                GreetingRpcParams { name: n.clone(), language: l.clone() },
            ),
            _ => None,
        },
        _ => None,
    }
}

/// Relies on serde_json serialization: renders `{"message": <message>}`
/// with JSON string escaping.
#[verifier::external_body]
fn encode_my_rpc_response(r: &MyRpcResponse) -> (s: String)
    ensures
        s@ == my_rpc_result_json(r.message@),
{
    let mut obj = serde_json::Map::new();
    obj.insert("message".to_owned(), serde_json::Value::String(r.message.clone()));
    serde_json::Value::Object(obj).to_string()
}

/// Relies on serde_json serialization: renders
/// `{"greeting": <greeting>, "translated": <translated>}` with JSON
/// string escaping.
#[verifier::external_body]
fn encode_greeting_response(r: &GreetingRpcResponse) -> (s: String)
    ensures
        s@ == greeting_result_json(r.greeting@, r.translated),
{
    let mut obj = serde_json::Map::new();
    obj.insert("greeting".to_owned(), serde_json::Value::String(r.greeting.clone()));
    obj.insert("translated".to_owned(), serde_json::Value::Bool(r.translated));
    serde_json::Value::Object(obj).to_string()
}

/// Relies on str::to_lowercase: the result depends on the characters
/// alone.
#[verifier::external_body]
fn lowercase(s: &String) -> (r: String)
    ensures
        r@ == lower_of(s@),
{
    s.to_lowercase()
}

/// The greeting returned for `name`: fails with a fixed message where
/// `name` is the probe value `"error"`, greets otherwise.
pub fn my_rpc(params: MyRpcParams) -> (r: Result<MyRpcResponse, InternalError>)
    ensures
        r is Err <==> params.name@ == "error"@,
        r matches Err(e) ==> e.message@ == "Internal error"@,
        r matches Ok(res) ==> res.message@ == "Hello, "@ + params.name@ + "!"@,
{
    if params.name == String::from_str("error") {
        Err(InternalError::new(String::from_str("Internal error")))
    } else {
        let mut message = String::from_str("Hello, ");
        message.append(params.name.as_str());
        message.append("!");
        Ok(MyRpcResponse { message })
    }
}

/// The greeting text for `name` in the language whose lowercased tag is
/// `language_lower`: an unrecognized tag falls back to English.
pub open spec fn greeting_text_spec(name: Seq<char>, language_lower: Seq<char>) -> Seq<char> {
    if language_lower == "spanish"@ {
        "¡Hola, "@ + name + "!"@
    } else if language_lower == "french"@ {
        "Bonjour, "@ + name + "!"@
    } else {
        "Hello, "@ + name + "!"@
    }
}

/// Builds the greeting for `name` from an already lowercased language tag.
pub fn greeting_text(name: &String, language_lower: &String) -> (r: String)
    ensures
        r@ == greeting_text_spec(name@, language_lower@),
{
    let mut greeting = if *language_lower == String::from_str("spanish") {
        String::from_str("¡Hola, ")
    } else if *language_lower == String::from_str("french") {
        String::from_str("Bonjour, ")
    } else {
        String::from_str("Hello, ")
    };
    greeting.append(name.as_str());
    greeting.append("!");
    greeting
}

/// Greets `name` in the requested language, reporting whether the
/// greeting was translated away from English. Never fails.
pub fn greeting_rpc(params: GreetingRpcParams) -> (r: GreetingRpcResponse)
    ensures
        r.greeting@ == greeting_text_spec(params.name@, lower_of(params.language@)),
        r.translated == (lower_of(params.language@) != "english"@),
{
    let lower = lowercase(&params.language);
    let greeting = greeting_text(&params.name, &lower);
    let translated = !(lower == String::from_str("english"));
    GreetingRpcResponse { greeting, translated }
}

/// The handlers the gateway registers at startup.
#[derive(Clone, Copy, Debug, PartialEq, Eq, Structural)]
pub enum HandlerKind {
    /// Returns its raw parameter value unchanged.
    Echo,
    /// The `my_rpc` greeting method.
    MyRpc,
    /// The `greeting_rpc` translation method.
    GreetingRpc,
}

/// What invoking a handler produced: an encoded result, a parameter
/// decode failure, or a business-logic failure with its message.
pub enum HandlerOutcome {
    Success(String),
    InvalidParams,
    Failed(String),
}

/// The outcome of a handler invocation, described over character
/// sequences.
pub enum OutcomeSpec {
    Success(Seq<char>),
    InvalidParams,
    Failed(Seq<char>),
}

/// Whether the concrete outcome `o` is the one that `s` describes.
pub open spec fn outcome_matches(o: HandlerOutcome, s: OutcomeSpec) -> bool {
    match o {
        HandlerOutcome::Success(r) => s matches OutcomeSpec::Success(rs) && r@ == rs,
        HandlerOutcome::InvalidParams => s is InvalidParams,
        HandlerOutcome::Failed(m) => s matches OutcomeSpec::Failed(ms) && m@ == ms,
    }
}

/// The outcome each handler yields on a given raw parameter value.
pub open spec fn invoke_spec(h: HandlerKind, raw: Seq<char>) -> OutcomeSpec {
    match h {
        HandlerKind::Echo => OutcomeSpec::Success(raw),
        HandlerKind::MyRpc => match my_rpc_params_of(raw) {
            None => OutcomeSpec::InvalidParams,
            Some(name) => if name == "error"@ {
                OutcomeSpec::Failed("Internal error"@)
            } else {
                OutcomeSpec::Success(my_rpc_result_json("Hello, "@ + name + "!"@))
            },
        },
        HandlerKind::GreetingRpc => match greeting_params_of(raw) {
            None => OutcomeSpec::InvalidParams,
            Some((name, language)) => OutcomeSpec::Success(
                greeting_result_json(
                    greeting_text_spec(name, lower_of(language)),
                    lower_of(language) != "english"@,
                ),
            ),
        },
    }
}

/// Invokes a handler on a raw parameter value: decode, business logic,
/// encode. A decode failure and a handler failure are told apart in the
/// outcome; the handler runs at most once and nothing escapes it.
pub fn invoke_handler(h: HandlerKind, raw_params: &String) -> (r: HandlerOutcome)
    ensures
        outcome_matches(r, invoke_spec(h, raw_params@)),
{
    match h {
        HandlerKind::Echo => HandlerOutcome::Success(raw_params.clone()),
        HandlerKind::MyRpc => match decode_my_rpc_params(raw_params) {
            None => HandlerOutcome::InvalidParams,
            Some(params) => match my_rpc(params) {
                Ok(res) => HandlerOutcome::Success(encode_my_rpc_response(&res)),
                Err(e) => HandlerOutcome::Failed(e.message),
            },
        },
        HandlerKind::GreetingRpc => match decode_greeting_params(raw_params) {
            None => HandlerOutcome::InvalidParams,
            Some(params) => {
                let res = greeting_rpc(params);
                HandlerOutcome::Success(encode_greeting_response(&res))
            },
        },
    }
}

} // verus!
