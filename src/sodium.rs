//! Calls into sodiumoxide: random nonces, the secret box, and the password hash.

use vstd::prelude::*;
use sodiumoxide::crypto::pwhash;
use sodiumoxide::crypto::secretbox;

verus! {

/// Length of a secret-box key.
pub const KEY_LEN: usize = 32;

/// Length of a secret-box nonce.
pub const NONCE_LEN: usize = 24;

/// Length of the authentication tag that sealing adds.
pub const MAC_LEN: usize = 16;

/// Length of a password-hash salt.
pub const SALT_LEN: usize = 32;

/// The ciphertext that sealing `m` under nonce `n` and key `k` yields.
pub uninterp spec fn seal_of(m: Seq<u8>, n: Seq<u8>, k: Seq<u8>) -> Seq<u8>;

/// What opening ciphertext `c` under nonce `n` and key `k` yields:
/// the plaintext, or `None` where authentication fails.
pub uninterp spec fn open_of(c: Seq<u8>, n: Seq<u8>, k: Seq<u8>) -> Option<Seq<u8>>;

/// The key that the interactive-cost password hash derives from
/// password `p` and salt `s`.
pub uninterp spec fn interactive_key_of(p: Seq<u8>, s: Seq<u8>) -> Seq<u8>;

/// Relies on sodiumoxide::crypto::secretbox::gen_nonce: a nonce drawn from
/// the system's random source. Nothing is known of its bytes.
#[verifier::external_body]
pub(crate) fn random_nonce() -> (r: [u8; NONCE_LEN]) {
    secretbox::gen_nonce().0
}

/// Relies on sodiumoxide::crypto::secretbox::seal: the ciphertext is a
/// function of message, nonce and key, is the tag's length longer than the
/// message, and opens under the same nonce and key to the message. The
/// ciphertext's vector is allocated up front, so it must fit in `isize`.
#[verifier::external_body]
pub(crate) fn seal_message(m: &[u8], n: &[u8; NONCE_LEN], k: &[u8; KEY_LEN]) -> (r: Vec<u8>)
    requires
        m@.len() + MAC_LEN <= isize::MAX,
    ensures
        r@ == seal_of(m@, n@, k@),
        r@.len() == m@.len() + MAC_LEN,
        open_of(r@, n@, k@) == Some(m@),
{
    secretbox::seal(m, &secretbox::Nonce(*n), &secretbox::Key(*k))
}

/// Relies on sodiumoxide::crypto::secretbox::open: the plaintext, or an
/// error where the ciphertext does not authenticate, as a function of
/// ciphertext, nonce and key.
#[verifier::external_body]
pub(crate) fn open_message(c: &[u8], n: &[u8; NONCE_LEN], k: &[u8; KEY_LEN]) -> (r: Option<
    Vec<u8>,
>)
    ensures
        r.deep_view() == open_of(c@, n@, k@),
{
    secretbox::open(c, &secretbox::Nonce(*n), &secretbox::Key(*k)).ok()
}

/// Relies on sodiumoxide::crypto::pwhash::derive_key_interactive: where the
/// hash succeeds, the key it writes is a function of password and salt. It
/// may fail, for instance when memory runs out.
#[verifier::external_body]
pub(crate) fn derive_interactive_key(p: &[u8], s: &[u8; SALT_LEN]) -> (r: Option<[u8; KEY_LEN]>)
    ensures
        r matches Some(k) ==> k@ == interactive_key_of(p@, s@),
{
    let mut k: [u8; KEY_LEN] = [0u8; KEY_LEN];
    let done = pwhash::derive_key_interactive(&mut k, p, &pwhash::Salt(*s)).is_ok();
    if done { Some(k) } else { None }
}

} // verus!
