//! The echo endpoint.

use vstd::prelude::*;

verus! {

/// A message sent to be echoed.
#[derive(Clone, Debug, PartialEq, Eq)]
pub struct EchoRequest {
    pub message: String,
}

/// The message sent back.
#[derive(Clone, Debug, PartialEq, Eq)]
pub struct EchoResponse {
    pub message: String,
}

/// Sends the message back unchanged.
pub fn echo(payload: EchoRequest) -> (r: EchoResponse)
    ensures
        r.message@ == payload.message@,
{
    EchoResponse { message: payload.message }
}

} // verus!
