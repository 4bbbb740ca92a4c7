use speke::{
    accept_e_three, accept_e_two, check_e_three, check_e_two, decode_token, e_one_with_iv,
    e_three_with_iv, e_two_with_iv, encode_token, generate_16_bytes, generate_e_one,
    generate_e_two, ProtocolError,
};

fn hex(s: &str) -> Vec<u8> {
    (0..s.len()).step_by(2).map(|i| u8::from_str_radix(&s[i..i + 2], 16).unwrap()).collect()
}

fn key_of(b: u8) -> [u8; 32] {
    [b; 32]
}

/// Runs both roles in order; returns the initiator's and responder's outcome.
fn run(ka: &[u8; 32], kb: &[u8; 32]) -> (Result<(), ProtocolError>, Result<(), ProtocolError>) {
    let ca = generate_16_bytes();
    let cb = generate_16_bytes();
    let e1 = generate_e_one(ka, &ca).unwrap();
    let e2 = generate_e_two(kb, &cb, &e1).unwrap();
    match check_e_two(ka, &ca, &e2) {
        Ok(e3) => (Ok(()), check_e_three(kb, &cb, &e3)),
        Err(e) => (Err(e), Err(ProtocolError::Authentication)),
    }
}

#[test]
fn e_one_matches_aes_vector() {
    let key: [u8; 32] =
        hex("603deb1015ca71be2b73aef0857d77811f352c073b6108d72d9810a30914dff4").try_into().unwrap();
    let iv: [u8; 16] = hex("000102030405060708090a0b0c0d0e0f").try_into().unwrap();
    let ca: [u8; 16] = hex("6bc1bee22e409f96e93d7e117393172a").try_into().unwrap();
    let e1 = e_one_with_iv(&key, &ca, &iv).unwrap();
    let mut expected = iv.to_vec();
    expected.extend(hex("f58c4c04d6e5f1ba779eabfb5f7bfbd6"));
    assert_eq!(e1, expected);
}

#[test]
fn handshake_passes_with_shared_key() {
    let key = key_of(7);
    assert_eq!(run(&key, &key), (Ok(()), Ok(())));
}

#[test]
fn handshake_fails_with_different_keys() {
    let (a, b) = run(&key_of(1), &key_of(2));
    assert!(a.is_err() || b.is_err());
    assert_eq!(a, Err(ProtocolError::Authentication));
}

#[test]
fn responder_echoes_initiator_nonce() {
    let key = key_of(9);
    let ca = [0x11u8; 16];
    let cb = [0x22u8; 16];
    let iv1 = [0x01u8; 16];
    let iv2 = [0x02u8; 16];
    let iv3 = [0x03u8; 16];
    let e1 = e_one_with_iv(&key, &ca, &iv1).unwrap();
    let e2 = e_two_with_iv(&key, &cb, &e1, &iv2).unwrap();
    assert_eq!(&e2[..16], &iv2);
    let e3 = e_three_with_iv(&key, &ca, &e2, &iv3).unwrap();
    assert_eq!(&e3[..16], &iv3);
    assert_eq!(check_e_three(&key, &cb, &e3), Ok(()));
    assert_eq!(check_e_three(&key, &[0x23u8; 16], &e3), Err(ProtocolError::Authentication));
}

#[test]
fn cipher_round_trip_on_one_and_two_blocks() {
    let key = key_of(3);
    let ca: [u8; 16] = *b"0123456789abcdef";
    let e1 = e_one_with_iv(&key, &ca, &[5u8; 16]).unwrap();
    assert_ne!(&e1[16..], &ca);
    let cb: [u8; 16] = *b"fedcba9876543210";
    let e2 = e_two_with_iv(&key, &cb, &e1, &[6u8; 16]).unwrap();
    assert_ne!(&e2[16..32], &cb);
    let e3 = e_three_with_iv(&key, &ca, &e2, &[8u8; 16]).unwrap();
    assert_eq!(check_e_three(&key, &cb, &e3), Ok(()));
}

#[test]
fn initiator_rejects_wrong_echo() {
    let key = key_of(4);
    let e1 = e_one_with_iv(&key, &[1u8; 16], &[0u8; 16]).unwrap();
    let e2 = e_two_with_iv(&key, &[2u8; 16], &e1, &[0u8; 16]).unwrap();
    assert_eq!(e_three_with_iv(&key, &[9u8; 16], &e2, &[0u8; 16]), Err(ProtocolError::Authentication));
}

#[test]
fn accept_decisions() {
    let mut plain = vec![0xAAu8; 16];
    plain.extend([0x55u8; 16]);
    assert_eq!(accept_e_two(&[0x55u8; 16], &plain), Ok(vec![0xAAu8; 16]));
    assert_eq!(accept_e_two(&[0x56u8; 16], &plain), Err(ProtocolError::Authentication));
    assert_eq!(accept_e_three(&[0x55u8; 16], &[0x55u8; 16]), Ok(()));
    assert_eq!(accept_e_three(&[0x55u8; 16], &[0x55u8; 15]), Err(ProtocolError::Authentication));
}

#[test]
fn message_sizes_through_tokens() {
    let key = key_of(5);
    let ca = generate_16_bytes();
    let cb = generate_16_bytes();
    let e1 = decode_token(&encode_token(&generate_e_one(&key, &ca).unwrap())).unwrap();
    assert_eq!(e1.len(), 32);
    let e2 = decode_token(&encode_token(&generate_e_two(&key, &cb, &e1).unwrap())).unwrap();
    assert_eq!(e2.len(), 48);
    let e3 = decode_token(&encode_token(&check_e_two(&key, &ca, &e2).unwrap())).unwrap();
    assert_eq!(e3.len(), 32);
    assert_eq!(check_e_three(&key, &cb, &e3), Ok(()));
}

#[test]
fn wrong_lengths_are_decoding_errors() {
    let key = key_of(6);
    let cb = [0u8; 16];
    let ca = [0u8; 16];
    for n in [0usize, 16, 31, 33, 47, 48, 64] {
        assert_eq!(generate_e_two(&key, &cb, &vec![0u8; n]), Err(ProtocolError::Decoding));
        assert_eq!(check_e_three(&key, &cb, &vec![0u8; n]), Err(ProtocolError::Decoding));
    }
    for n in [0usize, 16, 32, 47, 49, 64] {
        assert_eq!(check_e_two(&key, &ca, &vec![0u8; n]), Err(ProtocolError::Decoding));
    }
}

#[test]
fn nonces_are_fresh() {
    assert_ne!(generate_16_bytes(), generate_16_bytes());
}
