//! What can end a session early.

use vstd::prelude::*;

verus! {

/// Why a step of the protocol did not produce its result.
#[derive(Debug, Clone, Copy, PartialEq, Eq, Structural)]
pub enum ProtocolError {
    /// A received token is not base64, or has the wrong length for its step.
    Decoding,
    /// A nonce that came back did not match the one sent: the peer does not
    /// hold the same session key.
    Authentication,
    /// The cipher library reported a failure.
    Cipher,
}

} // verus!
