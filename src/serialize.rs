use vstd::prelude::*;
use vstd::utf8::encode_utf8;

use crate::error::{ErrorKind, TemplateError};
use crate::marshal::holds_nul;

verus! {

#[verifier::external_type_specification]
#[verifier::external_body]
pub struct ExJsonError(serde_json::Error);

/// Relies on `serde_json::to_string`: the compact JSON text of `value`, or the
/// error that its `Serialize` impl reported. What the text holds depends on
/// that impl; it never holds a raw null byte, since serde_json writes every
/// control character inside a string as an escape.
#[verifier::external_body]
fn to_json_text<T: serde::Serialize>(value: &T) -> (r: Result<String, serde_json::Error>)
    ensures
        r matches Ok(s) ==> !holds_nul(encode_utf8(s@)),
{
    serde_json::to_string(value)
}

/// Relies on the `Display` impl of `serde_json::Error`: its message.
#[verifier::external_body]
fn json_error_message(e: &serde_json::Error) -> (r: String) {
    e.to_string()
}

/// What a serializer's result means for a render: `json` is JSON text without
/// a raw null byte, or a `Serialization` failure.
pub open spec fn serialized(json: Result<String, TemplateError>) -> bool {
    match json {
        Ok(s) => !holds_nul(encode_utf8(s@)),
        Err(e) => e.kind == ErrorKind::Serialization,
    }
}

/// Turns serde_json's result into the library's: the text as it is, or a
/// `Serialization` failure that carries the serializer's message.
pub fn serialization_outcome(raw: Result<String, serde_json::Error>) -> (r: Result<String, TemplateError>)
    ensures
        r is Ok <==> raw is Ok,
        raw matches Ok(s) ==> r == Ok::<String, TemplateError>(s),
        r matches Err(e) ==> e.kind == ErrorKind::Serialization,
{
    match raw {
        Ok(text) => Ok(text),
        Err(e) => Err(
            TemplateError { kind: ErrorKind::Serialization, message: json_error_message(&e) },
        ),
    }
}

/// Serializes `data` to compact JSON text. A failure is reported as
/// `TemplateError::Serialization`, and nothing else can fail here.
pub fn serialize_data<T: serde::Serialize>(data: &T) -> (r: Result<String, TemplateError>)
    ensures
        serialized(r),
{
    serialization_outcome(to_json_text(data))
}

} // verus!
