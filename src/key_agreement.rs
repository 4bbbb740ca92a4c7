//! Hashing the password to a base, the exchanged public values, and the
//! session key derived from the peer's value.

use vstd::arithmetic::power::{lemma_pow_mod_noop, lemma_pow_multiplies, pow};
use vstd::prelude::*;

use crate::bignum::{
    be_bytes, be_value, lemma_be_round_trip, mod_pow_be, mod_pow_value, random_below_be,
};
use crate::error::ProtocolError;
use crate::primitives::{base64_decoded, sha256, sha256_of};
use crate::wire::{decode_token, MAX_TOKEN_LEN};

verus! {

/// The base of the exchange: the password's SHA-256 digest read as a
/// big-endian integer.
pub open spec fn base_of(password: Seq<u8>) -> nat {
    be_value(sha256_of(password))
}

/// The public value sent for `exponent`: `base ^ exponent mod modulus`, as
/// the shortest big-endian bytes.
pub open spec fn public_value_of(modulus: Seq<u8>, password: Seq<u8>, exponent: Seq<u8>) -> Seq<u8> {
    be_bytes(mod_pow_value(base_of(password), be_value(exponent), be_value(modulus)))
}

/// The shared secret: `peer ^ exponent mod modulus`, as the shortest
/// big-endian bytes.
pub open spec fn shared_secret_of(modulus: Seq<u8>, peer: Seq<u8>, exponent: Seq<u8>) -> Seq<u8> {
    be_bytes(mod_pow_value(be_value(peer), be_value(exponent), be_value(modulus)))
}

/// The session key: the SHA-256 digest of the shared secret's bytes.
pub open spec fn session_key_of(modulus: Seq<u8>, peer: Seq<u8>, exponent: Seq<u8>) -> Seq<u8> {
    sha256_of(shared_secret_of(modulus, peer, exponent))
}

/// Maps the password to the base element: its SHA-256 digest, whose
/// big-endian value is the base.
pub fn password_base(password: &[u8]) -> (r: [u8; 32])
    ensures
        r@ == sha256_of(password@),
        be_value(r@) == base_of(password@),
{
    sha256(password)
}

/// Draws a fresh private exponent, uniformly below the modulus.
pub fn begin_session(modulus: &[u8]) -> (r: Vec<u8>)
    requires
        be_value(modulus@) > 0,
    ensures
        be_value(r@) < be_value(modulus@),
        r@ == be_bytes(be_value(r@)),
{
    random_below_be(modulus)
}

/// The public value to send: the password's base raised to the private
/// exponent, modulo the modulus.
pub fn generate_x(modulus: &[u8], password: &[u8], exponent: &[u8]) -> (r: Vec<u8>)
    requires
        be_value(modulus@) > 0,
    ensures
        r@ == public_value_of(modulus@, password@, exponent@),
{
    let base = password_base(password);
    mod_pow_be(base.as_slice(), exponent, modulus)
}

/// The session key from the peer's public value (as bytes) and this side's
/// private exponent.
pub fn derive_shared_key(modulus: &[u8], peer: &[u8], exponent: &[u8]) -> (r: [u8; 32])
    requires
        be_value(modulus@) > 0,
    ensures
        r@ == session_key_of(modulus@, peer@, exponent@),
{
    let secret = mod_pow_be(peer, exponent, modulus);
    sha256(secret.as_slice())
}

/// The session key from the peer's base64 token. A token that is not
/// base64 is refused with `Decoding`, before any arithmetic.
pub fn generate_master_key(modulus: &[u8], peer_token: &str, exponent: &[u8]) -> (r: Result<[u8; 32], ProtocolError>)
    requires
        be_value(modulus@) > 0,
        peer_token@.len() <= MAX_TOKEN_LEN,
    ensures
        base64_decoded(peer_token@) is None ==> r == Err::<[u8; 32], ProtocolError>(ProtocolError::Decoding),
        base64_decoded(peer_token@) is Some ==> r is Ok && r->Ok_0@ == session_key_of(
            modulus@,
            base64_decoded(peer_token@)->0,
            exponent@,
        ),
{
    let peer = decode_token(peer_token)?;
    Ok(derive_shared_key(modulus, peer.as_slice(), exponent))
}

/// Both roles derive the same session key: with one password and private
/// exponents `a` and `b`, the key derived from the peer's public value is
/// the same on each side.
pub proof fn lemma_session_key_symmetric(modulus: Seq<u8>, password: Seq<u8>, a: Seq<u8>, b: Seq<u8>)
    requires
        be_value(modulus) > 0,
    ensures
        session_key_of(modulus, public_value_of(modulus, password, b), a) == session_key_of(
            modulus,
            public_value_of(modulus, password, a),
            b,
        ),
{
    let m = be_value(modulus) as int;
    let g = base_of(password) as int;
    let ea = be_value(a);
    let eb = be_value(b);
    lemma_mod_pow_twice(g, eb, ea, m);
    lemma_mod_pow_twice(g, ea, eb, m);
    assert(eb * ea == ea * eb) by (nonlinear_arith);
}

/// `(g ^ e1 mod m) ^ e2 mod m == g ^ (e1 * e2) mod m`, read through bytes.
proof fn lemma_mod_pow_twice(g: int, e1: nat, e2: nat, m: int)
    requires
        g >= 0,
        m > 0,
    ensures
        be_value(be_bytes(mod_pow_value(g as nat, e1, m as nat))) == mod_pow_value(
            g as nat,
            e1,
            m as nat,
        ),
        mod_pow_value(mod_pow_value(g as nat, e1, m as nat), e2, m as nat) == pow(g, e1 * e2) % m,
{
    let r = mod_pow_value(g as nat, e1, m as nat);
    lemma_be_round_trip(r);
    lemma_pow_mod_noop(pow(g, e1), e2, m);
    lemma_pow_multiplies(g, e1, e2);
}

} // verus!
