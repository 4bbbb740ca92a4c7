//! Arbitrary-precision unsigned integers held as big-endian bytes, and the
//! arithmetic the key agreement needs from them.

use vstd::arithmetic::power::pow;
use vstd::prelude::*;

use num_bigint::{BigUint, RandBigInt};

verus! {

/// The integer that a big-endian byte string denotes.
pub open spec fn be_value(s: Seq<u8>) -> nat
    decreases s.len(),
{
    if s.len() == 0 {
        0
    } else {
        be_value(s.drop_last()) * 256 + s.last() as nat
    }
}

/// The shortest big-endian byte string of `n`; zero is the single byte `0`.
pub open spec fn be_bytes(n: nat) -> Seq<u8>
    decreases n,
{
    if n < 256 {
        seq![n as u8]
    } else {
        be_bytes(n / 256).push((n % 256) as u8)
    }
}

/// `base ^ exponent mod modulus`, over integers.
pub open spec fn mod_pow_value(base: nat, exponent: nat, modulus: nat) -> nat
    recommends
        modulus > 0,
{
    (pow(base as int, exponent) % (modulus as int)) as nat
}

/// The last byte of a big-endian string is its value modulo 256.
pub proof fn lemma_be_value_last(s: Seq<u8>)
    requires
        s.len() > 0,
    ensures
        be_value(s) % 256 == s.last() as nat,
        s.last() != 0 ==> be_value(s) > 0,
        be_value(s) % 2 == s.last() as nat % 2,
{
    let q = be_value(s.drop_last());
    assert(be_value(s) == q * 256 + s.last() as nat);
    assert((q * 256 + s.last() as nat) % 256 == s.last() as nat) by (nonlinear_arith)
        requires
            s.last() < 256,
    ;
    assert((q * 256 + s.last() as nat) % 2 == s.last() as nat % 2) by (nonlinear_arith);
}

/// Reading back the shortest big-endian string of `n` gives `n`.
pub proof fn lemma_be_round_trip(n: nat)
    ensures
        be_value(be_bytes(n)) == n,
    decreases n,
{
    if n < 256 {
        let s = seq![n as u8];
        assert(s.drop_last() =~= Seq::<u8>::empty());
        assert(be_value(s) == be_value(s.drop_last()) * 256 + s.last() as nat);
    } else {
        lemma_be_round_trip(n / 256);
        let s = be_bytes(n / 256).push((n % 256) as u8);
        assert(s.drop_last() =~= be_bytes(n / 256));
        assert(be_value(s) == be_value(s.drop_last()) * 256 + s.last() as nat);
        assert(s.last() as nat == n % 256);
        assert((n / 256) * 256 + n % 256 == n) by (nonlinear_arith);
    }
}

/// Relies on `BigUint::modpow` (with `from_bytes_be` and `to_bytes_be` to
/// convert): the residue of `base ^ exponent` modulo a non-zero modulus,
/// written as the shortest big-endian bytes. `modpow` panics on a zero modulus.
#[verifier::external_body]
pub(crate) fn mod_pow_be(base: &[u8], exponent: &[u8], modulus: &[u8]) -> (r: Vec<u8>)
    requires
        be_value(modulus@) > 0,
    ensures
        r@ == be_bytes(mod_pow_value(be_value(base@), be_value(exponent@), be_value(modulus@))),
{
    let b = BigUint::from_bytes_be(base);
    let e = BigUint::from_bytes_be(exponent);
    let m = BigUint::from_bytes_be(modulus);
    b.modpow(&e, &m).to_bytes_be()
}

/// Relies on `RandBigInt::gen_biguint_below` on `rand::thread_rng()`: a
/// number below a non-zero bound, written as the shortest big-endian bytes.
/// It panics on a zero bound.
#[verifier::external_body]
pub(crate) fn random_below_be(bound: &[u8]) -> (r: Vec<u8>)
    requires
        be_value(bound@) > 0,
    ensures
        be_value(r@) < be_value(bound@),
        r@ == be_bytes(be_value(r@)),
{
    let m = BigUint::from_bytes_be(bound);
    rand::thread_rng().gen_biguint_below(&m).to_bytes_be()
}

} // verus!
