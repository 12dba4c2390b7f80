use vstd::prelude::*;
use crate::error::GateioError;

verus! {

#[verifier::external_type_specification]
#[verifier::external_body]
pub struct ExValue(serde_json::Value);

/// The JSON value that a byte string parses to, if it is JSON text.
pub uninterp spec fn json_of(text: Seq<u8>) -> Option<serde_json::Value>;

/// Relies on serde_json::from_slice into a `Value`: parses the whole input as JSON.
#[verifier::external_body]
fn parse_json(text: &[u8]) -> (r: Option<serde_json::Value>)
    ensures
        r == json_of(text@),
{
    serde_json::from_slice::<serde_json::Value>(text).ok()
}

/// Raw HTTP response data: the JSON value of the body.
#[derive(Debug)]
pub struct HttpResponse(pub serde_json::Value);

impl HttpResponse {
    /// Access the underlying JSON value.
    pub fn into_inner(self) -> (r: serde_json::Value)
        ensures
            r == self.0,
    {
        self.0
    }
}

/// Decode a response body as a JSON value.
pub fn decode_body(body: &[u8]) -> (r: Result<HttpResponse, GateioError>)
    ensures
        r is Ok == json_of(body@).is_some(),
        r matches Ok(resp) ==> json_of(body@) == Some(resp.0),
        r matches Err(e) ==> e is Decode,
{
    match parse_json(body) {
        Some(v) => Ok(HttpResponse(v)),
        None => Err(GateioError::Decode),
    }
}

/// Turn the outcome of one HTTP exchange (the body bytes, or the transport's
/// error message) into the gateway's result.
pub fn complete_exchange(outcome: Result<Vec<u8>, String>) -> (r: Result<HttpResponse, GateioError>)
    ensures
        outcome matches Err(m) ==> r matches Err(GateioError::Transport(m2)) && m2@ == m@,
        outcome matches Ok(b) ==> r is Ok == json_of(b@).is_some(),
        outcome matches Ok(b) ==> (r matches Ok(resp) ==> json_of(b@) == Some(resp.0)),
        outcome matches Ok(b) ==> (r matches Err(e) ==> e is Decode),
{
    match outcome {
        Ok(b) => decode_body(b.as_slice()),
        Err(m) => Err(GateioError::Transport(m)),
    }
}

} // verus!
