//! A password-authenticated key exchange: both roles hash a shared password
//! to a base, exchange powers of it modulo a fixed modulus, derive a session
//! key, and confirm it with a three-message encrypted nonce handshake.

pub mod bignum;
pub mod error;
pub mod group;
pub mod handshake;
pub mod key_agreement;
pub mod primitives;
pub mod wire;

pub use error::ProtocolError;
pub use group::modulus;
pub use handshake::{
    accept_e_three, accept_e_two, check_e_three, check_e_two, e_one_with_iv, e_three_with_iv,
    e_two_with_iv, generate_e_one, generate_e_two,
};
pub use key_agreement::{
    begin_session, derive_shared_key, generate_master_key, generate_x, password_base,
};
pub use primitives::generate_16_bytes;
pub use wire::{decode_token, encode_token};
