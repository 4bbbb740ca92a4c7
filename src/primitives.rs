//! The outside primitives the protocol is built from: SHA-256, AES-256 in
//! CBC mode without padding, base64, and a source of random bytes.

use vstd::prelude::*;

use openssl::error::ErrorStack;
use openssl::{base64, sha, symm};
use rand::Rng;

verus! {

/// `openssl::error::ErrorStack`, the error of the openssl calls below;
/// nothing is read from it.
#[verifier::external_type_specification]
#[verifier::external_body]
pub struct ExErrorStack(ErrorStack);

/// The SHA-256 digest of a byte string.
pub uninterp spec fn sha256_of(data: Seq<u8>) -> Seq<u8>;

/// Relies on `openssl::sha::sha256`: the 32-byte digest of `data`.
#[verifier::external_body]
pub(crate) fn sha256(data: &[u8]) -> (r: [u8; 32])
    ensures
        r@ == sha256_of(data@),
{
    sha::sha256(data)
}

/// AES-256 in CBC mode without padding, encrypting or decrypting `data`
/// under `key` and `iv`.
pub uninterp spec fn aes_256_cbc_of(encrypt: bool, key: Seq<u8>, iv: Seq<u8>, data: Seq<u8>) -> Seq<u8>;

/// Relies on `openssl::symm::Crypter` (`new`, `pad(false)`, `update`,
/// `finalize`) with `Cipher::aes_256_cbc()`: a whole number of blocks in
/// gives as many bytes out, and decrypting what was encrypted under the same
/// key and IV gives the plaintext back. `update` panics on an input whose
/// length does not fit a C `int`.
#[verifier::external_body]
pub(crate) fn aes_256_cbc(encrypt: bool, key: &[u8], iv: &[u8], data: &[u8]) -> (r: Result<Vec<u8>, ErrorStack>)
    requires
        key@.len() == 32,
        iv@.len() == 16,
        data@.len() % 16 == 0,
        data@.len() <= 0x1000_0000,
    ensures
        r is Ok ==> r->Ok_0@ == aes_256_cbc_of(encrypt, key@, iv@, data@),
        r is Ok ==> r->Ok_0@.len() == data@.len(),
        r is Ok && encrypt ==> aes_256_cbc_of(false, key@, iv@, r->Ok_0@) == data@,
{
    let mode = if encrypt { symm::Mode::Encrypt } else { symm::Mode::Decrypt };
    let mut c = symm::Crypter::new(symm::Cipher::aes_256_cbc(), mode, key, Some(iv))?;
    c.pad(false);
    let mut out = vec![0u8; data.len() + 16];
    let n = c.update(data, &mut out)?;
    out.truncate(n);
    let mut tail = [0u8; 16];
    let m = c.finalize(&mut tail)?;
    out.extend_from_slice(&tail[..m]);
    Ok(out)
}

/// The standard base64 text of a byte string.
pub uninterp spec fn base64_of(data: Seq<u8>) -> Seq<char>;

/// Relies on `openssl::base64::encode_block`: the base64 text of `data`.
/// It panics on inputs whose encoded length does not fit a C `int`.
#[verifier::external_body]
pub(crate) fn base64_encode(data: &[u8]) -> (r: String)
    requires
        data@.len() <= 0x1000_0000,
    ensures
        r@ == base64_of(data@),
{
    base64::encode_block(data)
}

/// The bytes that base64 text stands for, or `None` where it is not base64.
pub uninterp spec fn base64_decoded(text: Seq<char>) -> Option<Seq<u8>>;

/// Relies on `openssl::base64::decode_block`: the bytes that `text`
/// stands for, or an error where it is not valid base64. It panics on
/// inputs whose length does not fit a C `int`.
#[verifier::external_body]
pub(crate) fn base64_decode(text: &str) -> (r: Result<Vec<u8>, ErrorStack>)
    requires
        text@.len() <= 0x1000_0000,
    ensures
        r is Ok <==> base64_decoded(text@) is Some,
        r is Ok ==> r->Ok_0@ == base64_decoded(text@)->0,
{
    base64::decode_block(text)
}

/// Relies on `rand::thread_rng()` and `Rng::gen::<u8>`: a byte from the
/// thread's cryptographically secure generator.
#[verifier::external_body]
pub(crate) fn random_byte() -> (r: u8) {
    rand::thread_rng().gen::<u8>()
}

/// Sixteen fresh random bytes, as used for nonces and IVs.
pub fn generate_16_bytes() -> (r: [u8; 16]) {
    let mut bytes: [u8; 16] = [0u8; 16];
    let mut i: usize = 0;
    while i < 16
        invariant
            i <= 16,
        decreases 16 - i,
    {
        bytes[i] = random_byte();
        i += 1;
    }
    bytes
}

} // verus!
