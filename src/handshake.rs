//! The three-message confirmation handshake. Each message is a 16-byte IV
//! followed by the AES-256-CBC encryption, under the session key, of:
//! E1, the initiator's nonce `ca`; E2, the responder's nonce `cb` followed
//! by the `ca` it decrypted; E3, the `cb` that the initiator decrypted.

use vstd::prelude::*;
use vstd::slice::slice_subrange;

use crate::error::ProtocolError;
use crate::primitives::{aes_256_cbc, aes_256_cbc_of, generate_16_bytes};

verus! {

/// Length of E1 and of E3: an IV and one encrypted block.
pub const SHORT_MESSAGE_LEN: usize = 32;

/// Length of E2: an IV and two encrypted blocks.
pub const LONG_MESSAGE_LEN: usize = 48;

/// Encryption under the session key.
pub open spec fn enc(key: Seq<u8>, iv: Seq<u8>, plain: Seq<u8>) -> Seq<u8> {
    aes_256_cbc_of(true, key, iv, plain)
}

/// The plaintext of a message: its body decrypted under its leading IV.
pub open spec fn opened(key: Seq<u8>, message: Seq<u8>) -> Seq<u8> {
    aes_256_cbc_of(false, key, message.take(16), message.skip(16))
}

/// E1 for nonce `ca`, encrypted under `iv`.
pub open spec fn e_one_of(key: Seq<u8>, ca: Seq<u8>, iv: Seq<u8>) -> Seq<u8> {
    iv + enc(key, iv, ca)
}

/// E2 answering `e1` with nonce `cb`, encrypted under `iv`.
pub open spec fn e_two_of(key: Seq<u8>, cb: Seq<u8>, e1: Seq<u8>, iv: Seq<u8>) -> Seq<u8> {
    iv + enc(key, iv, cb + opened(key, e1))
}

/// Whether E2's plaintext echoes the initiator's nonce in its second block.
pub open spec fn e_two_accepted(ca: Seq<u8>, plain: Seq<u8>) -> bool {
    plain.skip(16) == ca
}

/// E3 returning the responder's nonce out of E2's plaintext, under `iv`.
pub open spec fn e_three_of(key: Seq<u8>, plain: Seq<u8>, iv: Seq<u8>) -> Seq<u8> {
    iv + enc(key, iv, plain.take(16))
}

/// Byte-exact comparison.
fn bytes_equal(a: &[u8], b: &[u8]) -> (r: bool)
    ensures
        r == (a@ == b@),
{
    if a.len() != b.len() {
        return false;
    }
    let mut i: usize = 0;
    while i < a.len()
        invariant
            a@.len() == b@.len(),
            i <= a@.len(),
            forall|j: int| 0 <= j < i ==> a@[j] == b@[j],
        decreases a@.len() - i,
    {
        if a[i] != b[i] {
            return false;
        }
        i += 1;
    }
    assert(a@ =~= b@);
    true
}

/// `a` followed by `b`.
fn concat(a: &[u8], b: &[u8]) -> (r: Vec<u8>)
    ensures
        r@ == a@ + b@,
{
    let mut r: Vec<u8> = Vec::new();
    let mut i: usize = 0;
    while i < a.len()
        invariant
            i <= a@.len(),
            r@ == a@.take(i as int),
        decreases a@.len() - i,
    {
        r.push(a[i]);
        i += 1;
        assert(r@ =~= a@.take(i as int));
    }
    let mut j: usize = 0;
    while j < b.len()
        invariant
            j <= b@.len(),
            r@ == a@ + b@.take(j as int),
        decreases b@.len() - j,
    {
        r.push(b[j]);
        j += 1;
        assert(r@ =~= a@ + b@.take(j as int));
    }
    assert(b@.take(b@.len() as int) =~= b@);
    r
}

/// One AES-256-CBC operation of the handshake; a cipher failure becomes
/// `Cipher`.
fn crypt_with_aes(encrypt: bool, key: &[u8; 32], iv: &[u8], data: &[u8]) -> (r: Result<Vec<u8>, ProtocolError>)
    requires
        iv@.len() == 16,
        data@.len() == 16 || data@.len() == 32,
    ensures
        r is Ok ==> r->Ok_0@ == aes_256_cbc_of(encrypt, key@, iv@, data@),
        r is Ok ==> r->Ok_0@.len() == data@.len(),
        r is Ok && encrypt ==> aes_256_cbc_of(false, key@, iv@, r->Ok_0@) == data@,
        r is Err ==> r == Err::<Vec<u8>, ProtocolError>(ProtocolError::Cipher),
{
    match aes_256_cbc(encrypt, key.as_slice(), iv, data) {
        Ok(out) => Ok(out),
        Err(_) => Err(ProtocolError::Cipher),
    }
}

/// Initiator, first message: E1 for nonce `ca` under the given IV.
pub fn e_one_with_iv(key: &[u8; 32], ca: &[u8; 16], iv: &[u8; 16]) -> (r: Result<Vec<u8>, ProtocolError>)
    ensures
        r is Ok ==> r->Ok_0@ == e_one_of(key@, ca@, iv@) && r->Ok_0@.len() == SHORT_MESSAGE_LEN,
        r is Ok ==> opened(key@, r->Ok_0@) == ca@,
        r is Err ==> r == Err::<Vec<u8>, ProtocolError>(ProtocolError::Cipher),
{
    let body = crypt_with_aes(true, key, iv.as_slice(), ca.as_slice())?;
    let msg = concat(iv.as_slice(), body.as_slice());
    assert(msg@.take(16) =~= iv@);
    assert(msg@.skip(16) =~= body@);
    Ok(msg)
}

/// Initiator, first message: E1 for nonce `ca` under a fresh random IV.
pub fn generate_e_one(key: &[u8; 32], ca: &[u8; 16]) -> (r: Result<Vec<u8>, ProtocolError>)
    ensures
        r is Ok ==> r->Ok_0@ == e_one_of(key@, ca@, r->Ok_0@.take(16)) && r->Ok_0@.len() == SHORT_MESSAGE_LEN,
        r is Err ==> r == Err::<Vec<u8>, ProtocolError>(ProtocolError::Cipher),
{
    let iv = generate_16_bytes();
    let r = e_one_with_iv(key, ca, &iv);
    proof {
        if r is Ok {
            assert(r->Ok_0@.take(16) =~= iv@);
        }
    }
    r
}

/// Responder, second message: decrypts the nonce in `e1` and answers with E2
/// for `cb` under the given IV. An `e1` that is not 32 bytes is refused with
/// `Decoding`.
pub fn e_two_with_iv(key: &[u8; 32], cb: &[u8; 16], e1: &[u8], iv: &[u8; 16]) -> (r: Result<Vec<u8>, ProtocolError>)
    ensures
        e1@.len() != SHORT_MESSAGE_LEN ==> r == Err::<Vec<u8>, ProtocolError>(ProtocolError::Decoding),
        r is Ok ==> e1@.len() == SHORT_MESSAGE_LEN && r->Ok_0@ == e_two_of(key@, cb@, e1@, iv@)
            && r->Ok_0@.len() == LONG_MESSAGE_LEN,
        r is Ok ==> opened(key@, r->Ok_0@) == cb@ + opened(key@, e1@),
        e1@.len() == SHORT_MESSAGE_LEN && r is Err ==> r == Err::<Vec<u8>, ProtocolError>(ProtocolError::Cipher),
{
    if e1.len() != SHORT_MESSAGE_LEN {
        return Err(ProtocolError::Decoding);
    }
    let e1_iv = slice_subrange(e1, 0, 16);
    let e1_body = slice_subrange(e1, 16, 32);
    assert(e1_iv@ =~= e1@.take(16));
    assert(e1_body@ =~= e1@.skip(16));
    let ca = crypt_with_aes(false, key, e1_iv, e1_body)?;
    let plain = concat(cb.as_slice(), ca.as_slice());
    let body = crypt_with_aes(true, key, iv.as_slice(), plain.as_slice())?;
    let msg = concat(iv.as_slice(), body.as_slice());
    assert(msg@.take(16) =~= iv@);
    assert(msg@.skip(16) =~= body@);
    Ok(msg)
}

/// Responder, second message, under a fresh random IV.
pub fn generate_e_two(key: &[u8; 32], cb: &[u8; 16], e1: &[u8]) -> (r: Result<Vec<u8>, ProtocolError>)
    ensures
        e1@.len() != SHORT_MESSAGE_LEN ==> r == Err::<Vec<u8>, ProtocolError>(ProtocolError::Decoding),
        r is Ok ==> e1@.len() == SHORT_MESSAGE_LEN && r->Ok_0@ == e_two_of(key@, cb@, e1@, r->Ok_0@.take(16))
            && r->Ok_0@.len() == LONG_MESSAGE_LEN,
        e1@.len() == SHORT_MESSAGE_LEN && r is Err ==> r == Err::<Vec<u8>, ProtocolError>(ProtocolError::Cipher),
{
    let iv = generate_16_bytes();
    let r = e_two_with_iv(key, cb, e1, &iv);
    proof {
        if r is Ok {
            assert(r->Ok_0@.take(16) =~= iv@);
        }
    }
    r
}

/// Initiator's decision on E2's plaintext: it must echo `ca` in its second
/// block. On a match the responder's nonce (the first block) is returned;
/// otherwise `Authentication`.
pub fn accept_e_two(ca: &[u8; 16], plain: &[u8]) -> (r: Result<Vec<u8>, ProtocolError>)
    requires
        plain@.len() == 32,
    ensures
        r is Ok <==> e_two_accepted(ca@, plain@),
        r is Ok ==> r->Ok_0@ == plain@.take(16),
        r is Err ==> r == Err::<Vec<u8>, ProtocolError>(ProtocolError::Authentication),
{
    let echoed = slice_subrange(plain, 16, 32);
    assert(echoed@ =~= plain@.skip(16));
    if bytes_equal(echoed, ca.as_slice()) {
        let cb = slice_subrange(plain, 0, 16);
        assert(cb@ =~= plain@.take(16));
        Ok(vstd::slice::slice_to_vec(cb))
    } else {
        Err(ProtocolError::Authentication)
    }
}

/// Initiator, checking E2 and answering with E3 under the given IV. An `e2`
/// that is not 48 bytes is refused with `Decoding`; one whose plaintext does
/// not echo `ca` with `Authentication`, and then no E3 is made.
pub fn e_three_with_iv(key: &[u8; 32], ca: &[u8; 16], e2: &[u8], iv: &[u8; 16]) -> (r: Result<Vec<u8>, ProtocolError>)
    ensures
        e2@.len() != LONG_MESSAGE_LEN ==> r == Err::<Vec<u8>, ProtocolError>(ProtocolError::Decoding),
        r is Ok ==> e2@.len() == LONG_MESSAGE_LEN && e_two_accepted(ca@, opened(key@, e2@))
            && r->Ok_0@ == e_three_of(key@, opened(key@, e2@), iv@)
            && r->Ok_0@.len() == SHORT_MESSAGE_LEN,
        r is Ok ==> opened(key@, r->Ok_0@) == opened(key@, e2@).take(16),
        r == Err::<Vec<u8>, ProtocolError>(ProtocolError::Authentication) ==> !e_two_accepted(ca@, opened(key@, e2@)),
        e2@.len() == LONG_MESSAGE_LEN && r is Err ==> r == Err::<Vec<u8>, ProtocolError>(ProtocolError::Authentication)
            || r == Err::<Vec<u8>, ProtocolError>(ProtocolError::Cipher),
{
    if e2.len() != LONG_MESSAGE_LEN {
        return Err(ProtocolError::Decoding);
    }
    let e2_iv = slice_subrange(e2, 0, 16);
    let e2_body = slice_subrange(e2, 16, 48);
    assert(e2_iv@ =~= e2@.take(16));
    assert(e2_body@ =~= e2@.skip(16));
    let plain = crypt_with_aes(false, key, e2_iv, e2_body)?;
    let cb = accept_e_two(ca, plain.as_slice())?;
    let body = crypt_with_aes(true, key, iv.as_slice(), cb.as_slice())?;
    let msg = concat(iv.as_slice(), body.as_slice());
    assert(msg@.take(16) =~= iv@);
    assert(msg@.skip(16) =~= body@);
    Ok(msg)
}

/// Initiator, checking E2 and answering with E3 under a fresh random IV.
pub fn check_e_two(key: &[u8; 32], ca: &[u8; 16], e2: &[u8]) -> (r: Result<Vec<u8>, ProtocolError>)
    ensures
        e2@.len() != LONG_MESSAGE_LEN ==> r == Err::<Vec<u8>, ProtocolError>(ProtocolError::Decoding),
        r is Ok ==> e2@.len() == LONG_MESSAGE_LEN && e_two_accepted(ca@, opened(key@, e2@))
            && r->Ok_0@ == e_three_of(key@, opened(key@, e2@), r->Ok_0@.take(16))
            && r->Ok_0@.len() == SHORT_MESSAGE_LEN,
        r == Err::<Vec<u8>, ProtocolError>(ProtocolError::Authentication) ==> !e_two_accepted(ca@, opened(key@, e2@)),
        e2@.len() == LONG_MESSAGE_LEN && r is Err ==> r == Err::<Vec<u8>, ProtocolError>(ProtocolError::Authentication)
            || r == Err::<Vec<u8>, ProtocolError>(ProtocolError::Cipher),
{
    let iv = generate_16_bytes();
    let r = e_three_with_iv(key, ca, e2, &iv);
    proof {
        if r is Ok {
            assert(r->Ok_0@.take(16) =~= iv@);
        }
    }
    r
}

/// Responder's decision on E3's plaintext: it must be `cb` exactly.
pub fn accept_e_three(cb: &[u8; 16], plain: &[u8]) -> (r: Result<(), ProtocolError>)
    ensures
        r is Ok <==> plain@ == cb@,
        r is Err ==> r == Err::<(), ProtocolError>(ProtocolError::Authentication),
{
    if bytes_equal(plain, cb.as_slice()) {
        Ok(())
    } else {
        Err(ProtocolError::Authentication)
    }
}

/// Responder, checking E3: `Ok` when it decrypts to `cb`. An `e3` that is
/// not 32 bytes is refused with `Decoding`; one that decrypts to anything
/// else with `Authentication`.
pub fn check_e_three(key: &[u8; 32], cb: &[u8; 16], e3: &[u8]) -> (r: Result<(), ProtocolError>)
    ensures
        e3@.len() != SHORT_MESSAGE_LEN ==> r == Err::<(), ProtocolError>(ProtocolError::Decoding),
        r is Ok ==> e3@.len() == SHORT_MESSAGE_LEN && opened(key@, e3@) == cb@,
        r == Err::<(), ProtocolError>(ProtocolError::Authentication) ==> opened(key@, e3@) != cb@,
        e3@.len() == SHORT_MESSAGE_LEN && r is Err ==> r == Err::<(), ProtocolError>(ProtocolError::Authentication)
            || r == Err::<(), ProtocolError>(ProtocolError::Cipher),
{
    if e3.len() != SHORT_MESSAGE_LEN {
        return Err(ProtocolError::Decoding);
    }
    let e3_iv = slice_subrange(e3, 0, 16);
    let e3_body = slice_subrange(e3, 16, 32);
    assert(e3_iv@ =~= e3@.take(16));
    assert(e3_body@ =~= e3@.skip(16));
    let plain = crypt_with_aes(false, key, e3_iv, e3_body)?;
    accept_e_three(cb, plain.as_slice())
}

/// Decrypting what was encrypted under `key` and `iv` gives `plain` back.
pub open spec fn round_trips(key: Seq<u8>, iv: Seq<u8>, plain: Seq<u8>) -> bool {
    aes_256_cbc_of(false, key, iv, enc(key, iv, plain)) == plain
}

/// With one session key on both sides, the handshake passes on both sides:
/// wherever each of the three encryptions decrypts back to its plaintext
/// (which the cipher gives for every message it produced), the initiator
/// accepts E2, and the E3 it sends decrypts to the responder's nonce.
pub proof fn lemma_handshake_passes(
    key: Seq<u8>,
    ca: Seq<u8>,
    cb: Seq<u8>,
    iv1: Seq<u8>,
    iv2: Seq<u8>,
    iv3: Seq<u8>,
)
    requires
        ca.len() == 16,
        cb.len() == 16,
        iv1.len() == 16,
        iv2.len() == 16,
        iv3.len() == 16,
        round_trips(key, iv1, ca),
        round_trips(key, iv2, cb + opened(key, e_one_of(key, ca, iv1))),
        round_trips(key, iv3, cb),
    ensures
        e_two_accepted(ca, opened(key, e_two_of(key, cb, e_one_of(key, ca, iv1), iv2))),
        opened(key, e_two_of(key, cb, e_one_of(key, ca, iv1), iv2)).take(16) == cb,
        opened(
            key,
            e_three_of(key, opened(key, e_two_of(key, cb, e_one_of(key, ca, iv1), iv2)), iv3),
        ) == cb,
{
    let e1 = e_one_of(key, ca, iv1);
    assert(e1.take(16) =~= iv1);
    assert(e1.skip(16) =~= enc(key, iv1, ca));
    assert(opened(key, e1) == ca);
    let e2 = e_two_of(key, cb, e1, iv2);
    assert(e2.take(16) =~= iv2);
    assert(e2.skip(16) =~= enc(key, iv2, cb + ca));
    let plain = opened(key, e2);
    assert(plain == cb + ca);
    assert(plain.skip(16) =~= ca);
    assert(plain.take(16) =~= cb);
    let e3 = e_three_of(key, plain, iv3);
    assert(e3.take(16) =~= iv3);
    assert(e3.skip(16) =~= enc(key, iv3, cb));
}

} // verus!
