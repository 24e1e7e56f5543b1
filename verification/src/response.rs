//! Handling of what comes back from the server.
//!
//! The transport hands this module either the text of a response body or
//! nothing at all (the request never completed). [`finish_operation`] turns
//! that outcome into the caller's result: the body parsed as JSON, a decode
//! error, or a transport error. There is exactly one error kind per failure
//! mode and no classification beyond that; a server-side error body that is
//! valid JSON counts as success, as the endpoints define it.

use vstd::prelude::*;

verus! {

#[verifier::external_type_specification]
#[verifier::external_body]
pub struct ExValue(serde_json::Value);

#[verifier::external_type_specification]
#[verifier::external_body]
pub struct ExJsonError(serde_json::Error);

/// The one error kind an operation reports.
#[derive(Clone, Copy, Debug, PartialEq, Eq, Structural)]
pub enum ClientError {
    /// The request never completed: connection refused, name resolution,
    /// or a deadline imposed by the caller.
    Transport,
    /// The response body was not valid JSON.
    Decode,
}

/// Whether a string is accepted by the JSON parser. Acceptance depends on
/// the characters alone.
pub uninterp spec fn json_parse_ok(s: Seq<char>) -> bool;

/// Relies on `serde_json::from_str`: parses the text as a JSON value, and
/// whether it succeeds depends on the text alone.
#[verifier::external_body]
fn parse_json(s: &str) -> (r: Result<serde_json::Value, serde_json::Error>)
    ensures
        r is Ok <==> json_parse_ok(s@),
{
    serde_json::from_str(s)
}

/// Turns the outcome of the one HTTP call into the operation's result.
/// `None` means the request never completed and is always a transport
/// error; a body parses to JSON exactly when the parser accepts it, and is
/// a decode error otherwise.
pub fn finish_operation(outcome: Option<String>) -> (r: Result<serde_json::Value, ClientError>)
    ensures
        outcome is None ==> r == Err::<serde_json::Value, ClientError>(ClientError::Transport),
        outcome matches Some(b) ==> (r is Ok <==> json_parse_ok(b@)),
        outcome matches Some(b) && !json_parse_ok(b@) ==> r == Err::<serde_json::Value, ClientError>(
            ClientError::Decode,
        ),
{
    match outcome {
        None => Err(ClientError::Transport),
        Some(b) => match parse_json(b.as_str()) {
            Ok(v) => Ok(v),
            Err(_) => Err(ClientError::Decode),
        },
    }
}

} // verus!
