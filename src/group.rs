//! The fixed public modulus that both roles reduce against.

use vstd::prelude::*;

use crate::bignum::be_value;

verus! {

/// The modulus as big-endian bytes (2240 bits, odd).
pub open spec fn modulus_bytes() -> Seq<u8> {
    seq![
        0xCE, 0x36, 0x9E, 0x8F, 0x9F, 0x2B, 0x0F, 0x43, 0xC0, 0xE8, 0x37, 0xCC,
        0xEC, 0x78, 0x43, 0x9B, 0x97, 0xFF, 0x11, 0xD2, 0xE8, 0xDD, 0x3D, 0xDC,
        0x57, 0x83, 0x6F, 0x8D, 0xE1, 0x1D, 0xF8, 0x48, 0xD1, 0xCF, 0x99, 0x61,
        0x5C, 0x23, 0xBA, 0xA3, 0xBC, 0xF8, 0x7D, 0x9D, 0x5D, 0xDD, 0xE9, 0x81,
        0xCF, 0xA8, 0x85, 0x64, 0x77, 0x80, 0xFE, 0xFA, 0x21, 0xCB, 0x07, 0x26,
        0x55, 0x61, 0xAF, 0x67, 0x9B, 0xA1, 0x70, 0xE9, 0x54, 0x7E, 0x12, 0x5E,
        0xCC, 0x7B, 0x34, 0x0D, 0xCA, 0xC3, 0xD9, 0xF6, 0xBF, 0x38, 0xAF, 0x24,
        0x3B, 0x01, 0x12, 0x5D, 0x1C, 0xB0, 0xAD, 0xCD, 0xD8, 0x00, 0x24, 0xA2,
        0x35, 0xCF, 0x25, 0xB8, 0xAB, 0xD5, 0xDA, 0xEC, 0x18, 0xAE, 0x0E, 0x06,
        0x36, 0x73, 0xDA, 0xE2, 0xDB, 0xFB, 0x41, 0x6A, 0xF6, 0x0E, 0x12, 0x33,
        0x32, 0x04, 0x90, 0xE1, 0x21, 0x8D, 0xA5, 0xAD, 0x16, 0xC9, 0x15, 0x27,
        0x07, 0x6E, 0x36, 0xA7, 0xDA, 0x96, 0x23, 0x71, 0x54, 0x28, 0xF8, 0x00,
        0x10, 0xBB, 0x9F, 0x30, 0x47, 0x7B, 0xFC, 0xC8, 0x9F, 0x31, 0x83, 0xD3,
        0x43, 0x18, 0x4A, 0x18, 0xE9, 0x38, 0xCA, 0xB6, 0xEF, 0x36, 0x4B, 0xE0,
        0x69, 0xFA, 0x7B, 0xE2, 0x51, 0xAA, 0x26, 0x7C, 0x6B, 0xFE, 0x62, 0xF2,
        0x47, 0xAC, 0x1A, 0x72, 0xBE, 0x78, 0x30, 0xED, 0xB7, 0x69, 0xE1, 0x95,
        0xE3, 0xCD, 0x6B, 0xB1, 0x3D, 0xD6, 0x84, 0xFE, 0x10, 0xDD, 0x9C, 0x04,
        0x2A, 0x46, 0x5A, 0xDF, 0x46, 0xE0, 0xC5, 0xEF, 0x64, 0x58, 0xD0, 0x30,
        0x4D, 0xEE, 0x34, 0x37, 0xB9, 0x40, 0xC9, 0x04, 0xB2, 0x35, 0xDB, 0x66,
        0x9A, 0x40, 0x13, 0x19, 0x8A, 0x81, 0x84, 0xAE, 0x7F, 0x06, 0x0F, 0x90,
        0x3E, 0xAF, 0xAB, 0x31, 0x50, 0xE2, 0x4C, 0x01, 0x1C, 0xBE, 0x57, 0xFA,
        0xD7, 0xBA, 0xA1, 0xB6, 0x2D, 0xEF, 0xB5, 0x3B, 0x2D, 0xF0, 0xF5, 0x10,
        0x19, 0xDC, 0x33, 0x9D, 0x2D, 0x25, 0xAA, 0x00, 0xF9, 0x04, 0xE1, 0xAA,
        0x17, 0xE1, 0x00, 0x5B,
    ]
}

/// The modulus as an integer.
pub open spec fn modulus_value() -> nat {
    be_value(modulus_bytes())
}

/// Returns the shared modulus as big-endian bytes.
pub fn modulus() -> (r: Vec<u8>)
    ensures
        r@ == modulus_bytes(),
        modulus_value() > 1,
        modulus_value() % 2 == 1,
{
    let r: Vec<u8> = vec![
        0xCE, 0x36, 0x9E, 0x8F, 0x9F, 0x2B, 0x0F, 0x43, 0xC0, 0xE8, 0x37, 0xCC,
        0xEC, 0x78, 0x43, 0x9B, 0x97, 0xFF, 0x11, 0xD2, 0xE8, 0xDD, 0x3D, 0xDC,
        0x57, 0x83, 0x6F, 0x8D, 0xE1, 0x1D, 0xF8, 0x48, 0xD1, 0xCF, 0x99, 0x61,
        0x5C, 0x23, 0xBA, 0xA3, 0xBC, 0xF8, 0x7D, 0x9D, 0x5D, 0xDD, 0xE9, 0x81,
        0xCF, 0xA8, 0x85, 0x64, 0x77, 0x80, 0xFE, 0xFA, 0x21, 0xCB, 0x07, 0x26,
        0x55, 0x61, 0xAF, 0x67, 0x9B, 0xA1, 0x70, 0xE9, 0x54, 0x7E, 0x12, 0x5E,
        0xCC, 0x7B, 0x34, 0x0D, 0xCA, 0xC3, 0xD9, 0xF6, 0xBF, 0x38, 0xAF, 0x24,
        0x3B, 0x01, 0x12, 0x5D, 0x1C, 0xB0, 0xAD, 0xCD, 0xD8, 0x00, 0x24, 0xA2,
        0x35, 0xCF, 0x25, 0xB8, 0xAB, 0xD5, 0xDA, 0xEC, 0x18, 0xAE, 0x0E, 0x06,
        0x36, 0x73, 0xDA, 0xE2, 0xDB, 0xFB, 0x41, 0x6A, 0xF6, 0x0E, 0x12, 0x33,
        0x32, 0x04, 0x90, 0xE1, 0x21, 0x8D, 0xA5, 0xAD, 0x16, 0xC9, 0x15, 0x27,
        0x07, 0x6E, 0x36, 0xA7, 0xDA, 0x96, 0x23, 0x71, 0x54, 0x28, 0xF8, 0x00,
        0x10, 0xBB, 0x9F, 0x30, 0x47, 0x7B, 0xFC, 0xC8, 0x9F, 0x31, 0x83, 0xD3,
        0x43, 0x18, 0x4A, 0x18, 0xE9, 0x38, 0xCA, 0xB6, 0xEF, 0x36, 0x4B, 0xE0,
        0x69, 0xFA, 0x7B, 0xE2, 0x51, 0xAA, 0x26, 0x7C, 0x6B, 0xFE, 0x62, 0xF2,
        0x47, 0xAC, 0x1A, 0x72, 0xBE, 0x78, 0x30, 0xED, 0xB7, 0x69, 0xE1, 0x95,
        0xE3, 0xCD, 0x6B, 0xB1, 0x3D, 0xD6, 0x84, 0xFE, 0x10, 0xDD, 0x9C, 0x04,
        0x2A, 0x46, 0x5A, 0xDF, 0x46, 0xE0, 0xC5, 0xEF, 0x64, 0x58, 0xD0, 0x30,
        0x4D, 0xEE, 0x34, 0x37, 0xB9, 0x40, 0xC9, 0x04, 0xB2, 0x35, 0xDB, 0x66,
        0x9A, 0x40, 0x13, 0x19, 0x8A, 0x81, 0x84, 0xAE, 0x7F, 0x06, 0x0F, 0x90,
        0x3E, 0xAF, 0xAB, 0x31, 0x50, 0xE2, 0x4C, 0x01, 0x1C, 0xBE, 0x57, 0xFA,
        0xD7, 0xBA, 0xA1, 0xB6, 0x2D, 0xEF, 0xB5, 0x3B, 0x2D, 0xF0, 0xF5, 0x10,
        0x19, 0xDC, 0x33, 0x9D, 0x2D, 0x25, 0xAA, 0x00, 0xF9, 0x04, 0xE1, 0xAA,
        0x17, 0xE1, 0x00, 0x5B,
    ];
    assert(r@ =~= modulus_bytes());
    proof {
        crate::bignum::lemma_be_value_last(modulus_bytes());
    }
    r
}

} // verus!
