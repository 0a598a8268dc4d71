//! Authenticated envelope that carries a public key and a pre-shared key
//! between two peers holding a pair of mirrored secrets.

mod buffer;
pub mod sodium;
pub mod envelope;

pub use envelope::{
    decode_key_and_psk, derive_key, encode_key_and_psk, open_payload, parse_plaintext,
    seal_envelope, split_envelope,
};
