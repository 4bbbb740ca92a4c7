use speke::{
    begin_session, decode_token, derive_shared_key, encode_token, generate_master_key,
    generate_x, modulus, password_base, ProtocolError,
};

fn hex(s: &str) -> Vec<u8> {
    (0..s.len()).step_by(2).map(|i| u8::from_str_radix(&s[i..i + 2], 16).unwrap()).collect()
}

fn session_keys(pw_a: &[u8], pw_b: &[u8]) -> ([u8; 32], [u8; 32]) {
    let m = modulus();
    let a = begin_session(&m);
    let b = begin_session(&m);
    let xa = generate_x(&m, pw_a, &a);
    let xb = generate_x(&m, pw_b, &b);
    (derive_shared_key(&m, &xb, &a), derive_shared_key(&m, &xa, &b))
}

#[test]
fn modulus_is_the_fixed_constant() {
    let m = modulus();
    assert_eq!(m.len(), 280);
    assert_eq!(&m[..4], &[0xCE, 0x36, 0x9E, 0x8F]);
    assert_eq!(m[279], 0x5B);
    assert_eq!(m[279] % 2, 1);
}

#[test]
fn password_base_is_sha256() {
    assert_eq!(
        password_base(b"abc").to_vec(),
        hex("ba7816bf8f01cfea414140de5dae2223b00361a396177a9cb410ff61f20015ad")
    );
}

#[test]
fn public_value_on_small_moduli() {
    assert_eq!(generate_x(&[11], b"abc", &[2]), vec![5]);
    assert_eq!(generate_x(&[251], b"abc", &[5]), vec![123]);
    assert_eq!(generate_x(&[0x01, 0x00, 0x01], b"abc", &[3]), vec![0x37, 0x4C]);
    assert_eq!(generate_x(&[11], b"abc", &[]), vec![1]);
}

#[test]
fn public_value_zero_is_one_byte() {
    assert_eq!(generate_x(&[1], b"abc", &[7]), vec![0]);
}

#[test]
fn shared_key_is_sha256_of_secret() {
    assert_eq!(
        derive_shared_key(&[11], &[3], &[2]).to_vec(),
        hex("2b4c342f5433ebe591a1da77e013d1b72475562d48578dca8b84bac6651c3cb9")
    );
    assert_eq!(
        derive_shared_key(&[11], &[0], &[2]).to_vec(),
        hex("6e340b9cffb37a989ca544e6bb780a2c78901d3fb33738768511a30617afa01d")
    );
}

#[test]
fn exponent_is_below_modulus() {
    let m = modulus();
    for _ in 0..8 {
        let x = begin_session(&m);
        assert!(x.len() < m.len() || (x.len() == m.len() && x < m));
        assert!(x.len() == 1 || x[0] != 0);
    }
    for _ in 0..32 {
        let x = begin_session(&[3]);
        assert_eq!(x.len(), 1);
        assert!(x[0] < 3);
    }
}

#[test]
fn same_password_gives_same_key() {
    for _ in 0..3 {
        let (ka, kb) = session_keys(b"correct horse", b"correct horse");
        assert_eq!(ka, kb);
    }
}

#[test]
fn different_passwords_give_different_keys() {
    let pairs: [(&[u8], &[u8]); 4] = [
        (b"correct horse", b"wrong horse"),
        (b"a", b"b"),
        (b"password", b"Password"),
        (b"", b"x"),
    ];
    for (p, q) in pairs {
        let (ka, kb) = session_keys(p, q);
        assert_ne!(ka, kb);
    }
}

#[test]
fn master_key_through_tokens() {
    let m = modulus();
    let a = begin_session(&m);
    let b = begin_session(&m);
    let xa = encode_token(&generate_x(&m, b"correct horse", &a));
    let xb = encode_token(&generate_x(&m, b"correct horse", &b));
    let ka = generate_master_key(&m, &xb, &a).unwrap();
    let kb = generate_master_key(&m, &xa, &b).unwrap();
    assert_eq!(ka, kb);
}

#[test]
fn master_key_refuses_bad_token() {
    let m = modulus();
    let a = begin_session(&m);
    assert_eq!(generate_master_key(&m, "not base64!", &a), Err(ProtocolError::Decoding));
}

#[test]
fn token_codec() {
    assert_eq!(encode_token(b"hello"), "aGVsbG8=");
    assert_eq!(decode_token("aGVsbG8="), Ok(b"hello".to_vec()));
    assert_eq!(decode_token("a*b="), Err(ProtocolError::Decoding));
}
