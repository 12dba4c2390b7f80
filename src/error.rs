use vstd::prelude::*;
use crate::key::SignError;

verus! {

/// Errors of the gateway, by the stage that produced them.
#[derive(Debug, Clone)]
pub enum GateioError {
    /// The request could not be signed.
    Sign(SignError),
    /// The HTTP transport failed; its message.
    Transport(String),
    /// The response body is not a JSON value.
    Decode,
    /// Any other failure; its message.
    Other(String),
}

} // verus!
