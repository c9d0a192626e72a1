use vstd::prelude::*;

verus! {

#[verifier::external_type_specification]
#[verifier::external_body]
pub struct ExJsonValue(serde_json::Value);

#[verifier::external_type_specification]
#[verifier::external_body]
pub struct ExJsonError(serde_json::Error);

/// Whether a text is one well-formed JSON document, as serde_json judges it.
pub uninterp spec fn is_json_text(s: Seq<char>) -> bool;

/// Relies on serde_json::from_str into a `serde_json::Value`: it succeeds
/// exactly on the texts that hold one JSON value (a function of the text
/// alone), and fails on the empty text.
#[verifier::external_body]
fn parse_json(text: &str) -> (r: Result<serde_json::Value, serde_json::Error>)
    ensures
        r is Ok <==> is_json_text(text@),
        text@.len() == 0 ==> r is Err,
{
    serde_json::from_str(text)
}

/// Why a registration document could not be used.
pub enum InputError {
    /// The file could not be read; `reason` is what the reader reported.
    Unreadable { path: String, reason: String },
    /// The file was read but does not hold a well-formed JSON document.
    Malformed { path: String },
}

/// The registration payload, from the result of parsing the document at
/// `path`.
pub fn payload_from_parse(path: String, parsed: Result<serde_json::Value, serde_json::Error>) -> (r:
    Result<serde_json::Value, InputError>)
    ensures
        parsed matches Ok(v) ==> r == Ok::<serde_json::Value, InputError>(v),
        parsed is Err ==> r == Err::<serde_json::Value, InputError>(InputError::Malformed { path }),
{
    match parsed {
        Ok(v) => Ok(v),
        Err(_) => Err(InputError::Malformed { path }),
    }
}

/// Parses the text of the registration document at `path`.
pub fn registration_payload(path: String, text: String) -> (r: Result<serde_json::Value, InputError>)
    ensures
        r is Ok <==> is_json_text(text@),
        r is Err ==> r == Err::<serde_json::Value, InputError>(InputError::Malformed { path }),
{
    payload_from_parse(path, parse_json(text.as_str()))
}

} // verus!
