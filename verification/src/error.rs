//! The ways in which a call can fail.

use vstd::prelude::*;

verus! {

/// What the host reported when it refused or failed an outbound call.
#[derive(Clone, Debug, PartialEq, Eq)]
pub struct Rejection {
    /// The host's rejection code.
    pub code: i32,
    /// The host's message.
    pub message: String,
}

/// Why a call was given up. Every failure ends the call: nothing is retried
/// and nothing is replaced by a default.
#[derive(Clone, Debug, PartialEq, Eq)]
pub enum BridgeError {
    /// An address, a signature or hex text of the caller is malformed.
    Input,
    /// The network name is not in the endpoint table.
    UnknownNetwork,
    /// An argument does not fit the type that the function declares for it.
    Encoding,
    /// The network's endpoint has no host to name in the request.
    Endpoint,
    /// The host refused the outbound call or could not complete it.
    Outcall(Rejection),
    /// The reply is not UTF-8, not JSON, or holds no usable `result`.
    MalformedJson,
}

} // verus!
