//! The text form of protocol values: base64 tokens.

use vstd::prelude::*;

use crate::error::ProtocolError;
use crate::primitives::{base64_decode, base64_decoded, base64_encode, base64_of};

verus! {

/// The longest token, in characters or bytes, that the codec accepts.
pub const MAX_TOKEN_LEN: usize = 0x1000_0000;

/// The base64 token for a public value or a handshake message.
pub fn encode_token(data: &[u8]) -> (r: String)
    requires
        data@.len() <= MAX_TOKEN_LEN,
    ensures
        r@ == base64_of(data@),
{
    base64_encode(data)
}

/// The bytes of a received token; text that is not base64 is refused with
/// `Decoding`.
pub fn decode_token(text: &str) -> (r: Result<Vec<u8>, ProtocolError>)
    requires
        text@.len() <= MAX_TOKEN_LEN,
    ensures
        base64_decoded(text@) is None <==> r == Err::<Vec<u8>, ProtocolError>(ProtocolError::Decoding),
        r is Ok ==> base64_decoded(text@) == Some(r->Ok_0@),
        r is Ok || r == Err::<Vec<u8>, ProtocolError>(ProtocolError::Decoding),
{
    match base64_decode(text) {
        Ok(bytes) => Ok(bytes),
        Err(_) => Err(ProtocolError::Decoding),
    }
}

} // verus!
