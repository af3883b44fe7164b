//! Echo routes' logic: validated passthrough of a decoded payload.
//!
//! The transport layer decodes the payload and delivers the response;
//! what stands here is what the routes decide — whether the payload
//! passes its declared validation constraints, and what is echoed back.

use crate::errors::AppError;
use vstd::prelude::*;

verus! {

/// Echoes a payload back unchanged.
pub fn echo_json(payload: String) -> (r: String)
    ensures
        r == payload,
{
    payload
}

/// The line the traced echo route logs from inside its nested call; the
/// tracing side effect itself lives with the caller's transport layer.
pub fn nested_function() -> (r: String)
    ensures
        r@ == "i am a nested function"@,
{
    String::from_str("i am a nested function")
}

/// Payload of the validating echo route: a name of constrained length.
#[derive(Debug)]
pub struct EchoJSONExtractorValue {
    pub name: String,
}

impl EchoJSONExtractorValue {
    /// The declared constraint: a name of 3 to 10 characters.
    pub open spec fn valid_spec(&self) -> bool {
        3 <= self.name@.len() <= 10
    }

    /// Checks the payload against its declared constraints.
    pub fn validate(&self) -> (r: Result<(), String>)
        ensures
            r is Ok <==> self.valid_spec(),
            r matches Err(m) ==> m@ == "name length must be between 3 and 10 characters"@,
    {
        let n = self.name.as_str().unicode_len();
        if 3 <= n && n <= 10 {
            Ok(())
        } else {
            Err(String::from_str("name length must be between 3 and 10 characters"))
        }
    }
}

/// Echoes a decoded payload back if it passes validation, and rejects it
/// with a validation failure otherwise.
pub fn echo_json_extractor(payload: EchoJSONExtractorValue) -> (r: Result<
    EchoJSONExtractorValue,
    AppError,
>)
    ensures
        payload.valid_spec() ==> r == Ok::<EchoJSONExtractorValue, AppError>(payload),
        !payload.valid_spec() ==> (r matches Err(AppError::ValidationError { message }) && message@
            == "name length must be between 3 and 10 characters"@),
{
    match payload.validate() {
        Ok(()) => Ok(payload),
        Err(message) => Err(AppError::ValidationError { message }),
    }
}

} // verus!
