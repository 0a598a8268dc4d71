//! Framing of the envelope and of the plaintext it seals, and the encode
//! and decode directions built on it.

use vstd::prelude::*;
use bytes::BytesMut;
use crate::buffer::{buffer_bytes, buffer_contents, buffer_into_vec, new_buffer, put_bytes};
use crate::sodium::{
    derive_interactive_key, interactive_key_of, open_message, open_of, random_nonce,
    seal_message, seal_of, KEY_LEN, MAC_LEN, NONCE_LEN, SALT_LEN,
};

verus! {

/// Length of the format tag that opens the plaintext.
pub const MAGIC_LEN: usize = 13;

/// Length of the public key carried in the plaintext.
pub const PUBLIC_KEY_LEN: usize = 32;

/// Length of the pre-shared key carried in the plaintext.
pub const PSK_LEN: usize = 32;

/// Length of a well-formed plaintext: tag, public key, pre-shared key.
pub const PLAINTEXT_LEN: usize = MAGIC_LEN + PUBLIC_KEY_LEN + PSK_LEN;

/// Length of the clear header of an envelope: nonce, then salt.
pub const HEADER_LEN: usize = NONCE_LEN + SALT_LEN;

/// Capacity reserved for the buffers that frames are assembled in.
const FRAME_CAPACITY: usize = 512;

/// The format tag, the ASCII text `wg-p2p-key-v3`.
pub open spec fn magic() -> Seq<u8> {
    seq![119u8, 103, 45, 112, 50, 112, 45, 107, 101, 121, 45, 118, 51]
}

/// The plaintext that carries public key `pk` and pre-shared key `psk`.
pub open spec fn plaintext(pk: Seq<u8>, psk: Seq<u8>) -> Seq<u8> {
    magic() + pk + psk
}

/// The nonce at the head of envelope `e`.
pub open spec fn nonce_part(e: Seq<u8>) -> Seq<u8> {
    e.subrange(0, NONCE_LEN as int)
}

/// The salt that follows the nonce in envelope `e`.
pub open spec fn salt_part(e: Seq<u8>) -> Seq<u8> {
    e.subrange(NONCE_LEN as int, HEADER_LEN as int)
}

/// The ciphertext after the header of envelope `e`.
pub open spec fn ciphertext_part(e: Seq<u8>) -> Seq<u8> {
    e.subrange(HEADER_LEN as int, e.len() as int)
}

/// The envelope that seals `pk` and `psk` under `key` and `nonce`, with
/// `salt` sent in clear.
pub open spec fn sealed_envelope(
    key: Seq<u8>,
    nonce: Seq<u8>,
    salt: Seq<u8>,
    pk: Seq<u8>,
    psk: Seq<u8>,
) -> Seq<u8> {
    nonce + salt + seal_of(plaintext(pk, psk), nonce, key)
}

/// What an opened plaintext carries: the public key and the pre-shared key,
/// where it is long enough and opens with the format tag. Bytes past the
/// pre-shared key are ignored.
pub open spec fn payload_of(msg: Seq<u8>) -> Option<(Seq<u8>, Seq<u8>)> {
    if msg.len() >= PLAINTEXT_LEN && msg.subrange(0, MAGIC_LEN as int) == magic() {
        Some(
            (
                msg.subrange(MAGIC_LEN as int, MAGIC_LEN + PUBLIC_KEY_LEN),
                msg.subrange(MAGIC_LEN + PUBLIC_KEY_LEN, PLAINTEXT_LEN as int),
            ),
        )
    } else {
        None
    }
}

/// What ciphertext `c` carries when opened under nonce `n` and key `k`.
pub open spec fn opened_payload(c: Seq<u8>, n: Seq<u8>, k: Seq<u8>) -> Option<(Seq<u8>, Seq<u8>)> {
    match open_of(c, n, k) {
        Some(m) => payload_of(m),
        None => None,
    }
}

/// What envelope `e` carries for the peer that holds `local` and `remote`:
/// the key is derived from the remote secret followed by the local one.
pub open spec fn decoded(local: Seq<u8>, remote: Seq<u8>, e: Seq<u8>) -> Option<(Seq<u8>, Seq<u8>)> {
    if e.len() < HEADER_LEN {
        None
    } else {
        opened_payload(
            ciphertext_part(e),
            nonce_part(e),
            interactive_key_of(remote + local, salt_part(e)),
        )
    }
}

/// Envelope `e` seals `pk` and `psk` under `key`, with `salt` in clear and
/// the nonce at its head, and its ciphertext opens under that nonce and key
/// to the plaintext again.
pub open spec fn encodes(e: Seq<u8>, key: Seq<u8>, salt: Seq<u8>, pk: Seq<u8>, psk: Seq<u8>) -> bool {
    &&& e.len() >= HEADER_LEN
    &&& e == sealed_envelope(key, nonce_part(e), salt, pk, psk)
    &&& open_of(ciphertext_part(e), nonce_part(e), key) == Some(plaintext(pk, psk))
}

fn magic_tag() -> (r: [u8; MAGIC_LEN])
    ensures
        r@ == magic(),
{
    let r: [u8; MAGIC_LEN] = [119u8, 103, 45, 112, 50, 112, 45, 107, 101, 121, 45, 118, 51];
    assert(r@ =~= magic());
    r
}

/// Copies `N` bytes of `s` from `start` on into an array.
fn read_array<const N: usize>(s: &[u8], start: usize) -> (r: [u8; N])
    requires
        start + N <= s@.len(),
    ensures
        r@ == s@.subrange(start as int, start + N),
{
    let mut r: [u8; N] = [0u8; N];
    let len: usize = s.len();
    let mut i: usize = 0;
    while i < N
        invariant
            len == s@.len(),
            start + N <= s@.len(),
            i <= N,
            r@.len() == N,
            forall|j: int| 0 <= j < i ==> r@[j] == s@[start + j],
        decreases N - i,
    {
        r[i] = s[start + i];
        i = i + 1;
    }
    assert(r@ =~= s@.subrange(start as int, start + N));
    r
}

/// Appends the bytes of `s` from `start` on to `v`.
fn append_from(v: &mut Vec<u8>, s: &[u8], start: usize)
    requires
        start <= s@.len(),
    ensures
        final(v)@ == old(v)@ + s@.subrange(start as int, s@.len() as int),
{
    let mut i: usize = start;
    while i < s.len()
        invariant
            start <= i <= s@.len(),
            v@ == old(v)@ + s@.subrange(start as int, i as int),
        decreases s@.len() - i,
    {
        v.push(s[i]);
        i = i + 1;
        assert(v@ =~= old(v)@ + s@.subrange(start as int, i as int));
    }
}

fn bytes_equal(a: &[u8], b: &[u8]) -> (r: bool)
    ensures
        r == (a@ == b@),
{
    if a.len() != b.len() {
        return false;
    }
    let mut i: usize = 0;
    while i < a.len()
        invariant
            a@.len() == b@.len(),
            i <= a@.len(),
            forall|j: int| 0 <= j < i ==> a@[j] == b@[j],
        decreases a@.len() - i,
    {
        if a[i] != b[i] {
            return false;
        }
        i = i + 1;
    }
    assert(a@ =~= b@);
    true
}

/// Reads the public key and the pre-shared key out of an opened plaintext.
/// The whole layout is read before the format tag is judged.
pub fn parse_plaintext(msg: &[u8]) -> (r: Option<([u8; PUBLIC_KEY_LEN], [u8; PSK_LEN])>)
    ensures
        r.deep_view() == payload_of(msg@),
{
    if msg.len() < PLAINTEXT_LEN {
        return None;
    }
    let expected = magic_tag();
    let actual: [u8; MAGIC_LEN] = read_array(msg, 0);
    let tag_matches = bytes_equal(actual.as_slice(), expected.as_slice());
    let public_key: [u8; PUBLIC_KEY_LEN] = read_array(msg, MAGIC_LEN);
    let psk: [u8; PSK_LEN] = read_array(msg, MAGIC_LEN + PUBLIC_KEY_LEN);
    if !tag_matches {
        return None;
    }
    Some((public_key, psk))
}

/// Splits an envelope into its nonce, its salt and its ciphertext; `None`
/// where it is shorter than the header.
pub fn split_envelope(value: &[u8]) -> (r: Option<([u8; NONCE_LEN], [u8; SALT_LEN], Vec<u8>)>)
    ensures
        r is None <==> value@.len() < HEADER_LEN,
        r matches Some((n, s, c)) ==> n@ == nonce_part(value@) && s@ == salt_part(value@) && c@
            == ciphertext_part(value@),
{
    if value.len() < HEADER_LEN {
        return None;
    }
    let nonce: [u8; NONCE_LEN] = read_array(value, 0);
    let salt: [u8; SALT_LEN] = read_array(value, NONCE_LEN);
    let mut ciphertext: Vec<u8> = Vec::new();
    append_from(&mut ciphertext, value, HEADER_LEN);
    assert(ciphertext@ =~= ciphertext_part(value@));
    Some((nonce, salt, ciphertext))
}

/// Opens `ciphertext` under `nonce` and `key` and reads the public key and
/// the pre-shared key out of the plaintext.
pub fn open_payload(
    key: &[u8; KEY_LEN],
    nonce: &[u8; NONCE_LEN],
    ciphertext: &[u8],
) -> (r: Option<([u8; PUBLIC_KEY_LEN], [u8; PSK_LEN])>)
    ensures
        r.deep_view() == opened_payload(ciphertext@, nonce@, key@),
{
    match open_message(ciphertext, nonce, key) {
        Some(msg) => {
            assert(msg.deep_view() =~= msg@);
            parse_plaintext(msg.as_slice())
        },
        None => None,
    }
}

/// Derives the shared key from `secret_a` followed by `secret_b`, and the
/// salt, with the interactive-cost password hash; `None` where the hash
/// fails.
pub fn derive_key(secret_a: &[u8], secret_b: &[u8], salt: &[u8; SALT_LEN]) -> (r: Option<
    [u8; KEY_LEN],
>)
    ensures
        r matches Some(k) ==> k@ == interactive_key_of(secret_a@ + secret_b@, salt@),
{
    let mut passwd: Vec<u8> = Vec::new();
    append_from(&mut passwd, secret_a, 0);
    append_from(&mut passwd, secret_b, 0);
    assert(secret_a@.subrange(0, secret_a@.len() as int) =~= secret_a@);
    assert(secret_b@.subrange(0, secret_b@.len() as int) =~= secret_b@);
    derive_interactive_key(passwd.as_slice(), salt)
}

/// Seals `public_key` and `local_psk` under `key` and `nonce`, and frames
/// the result behind the nonce and the salt. The pre-shared key is written
/// as it is, whatever its length.
pub fn seal_envelope(
    key: &[u8; KEY_LEN],
    nonce: &[u8; NONCE_LEN],
    salt: &[u8; SALT_LEN],
    public_key: &[u8; PUBLIC_KEY_LEN],
    local_psk: &[u8],
) -> (r: Vec<u8>)
    requires
        HEADER_LEN + PLAINTEXT_LEN - PSK_LEN + local_psk@.len() + MAC_LEN <= isize::MAX / 2,
    ensures
        r@ == sealed_envelope(key@, nonce@, salt@, public_key@, local_psk@),
        r@.len() == HEADER_LEN + PLAINTEXT_LEN - PSK_LEN + local_psk@.len() + MAC_LEN,
        encodes(r@, key@, salt@, public_key@, local_psk@),
{
    let tag = magic_tag();
    let mut msg: BytesMut = new_buffer(FRAME_CAPACITY);
    put_bytes(&mut msg, tag.as_slice());
    put_bytes(&mut msg, public_key.as_slice());
    put_bytes(&mut msg, local_psk);
    let ciphertext = seal_message(buffer_bytes(&msg), nonce, key);
    let ghost pt = plaintext(public_key@, local_psk@);
    assert(buffer_contents(msg) =~= pt);

    let mut value: BytesMut = new_buffer(FRAME_CAPACITY);
    put_bytes(&mut value, nonce.as_slice());
    put_bytes(&mut value, salt.as_slice());
    put_bytes(&mut value, ciphertext.as_slice());
    let r = buffer_into_vec(value);
    assert(r@ =~= nonce@ + salt@ + ciphertext@);
    assert(nonce_part(r@) =~= nonce@);
    assert(ciphertext_part(r@) =~= ciphertext@);
    r
}

/// Builds the envelope that carries `public_key` and `local_psk` to the
/// peer, under `key` and a fresh random nonce, with `salt` in clear.
pub fn encode_key_and_psk(
    key: &[u8; KEY_LEN],
    salt: &[u8; SALT_LEN],
    public_key: &[u8; PUBLIC_KEY_LEN],
    local_psk: &[u8],
) -> (r: Vec<u8>)
    requires
        HEADER_LEN + PLAINTEXT_LEN - PSK_LEN + local_psk@.len() + MAC_LEN <= isize::MAX / 2,
    ensures
        encodes(r@, key@, salt@, public_key@, local_psk@),
        r@.len() == HEADER_LEN + PLAINTEXT_LEN - PSK_LEN + local_psk@.len() + MAC_LEN,
{
    let nonce = random_nonce();
    seal_envelope(key, &nonce, salt, public_key, local_psk)
}

/// Reads the public key and the pre-shared key out of an envelope from the
/// peer, with the key derived from `remote_secret` followed by
/// `local_secret` and the salt that the envelope carries. `None` where the
/// envelope is too short, does not authenticate, or lacks the format tag,
/// and where the key derivation fails.
pub fn decode_key_and_psk(local_secret: &[u8], remote_secret: &[u8], value: Vec<u8>) -> (r: Option<
    ([u8; PUBLIC_KEY_LEN], [u8; PSK_LEN]),
>)
    ensures
        value@.len() < HEADER_LEN ==> r is None,
        r is Some ==> r.deep_view() == decoded(local_secret@, remote_secret@, value@),
{
    let (nonce, salt, ciphertext) = match split_envelope(value.as_slice()) {
        Some(parts) => parts,
        None => return None,
    };
    let shared_key = match derive_key(remote_secret, local_secret, &salt) {
        Some(k) => k,
        None => return None,
    };
    open_payload(&shared_key, &nonce, ciphertext.as_slice())
}

/// An envelope that encoding produced under the key derived from `a`
/// followed by `b` is read back, by the peer whose local secret is `b` and
/// whose remote secret is `a`, as the public key and the pre-shared key
/// that went in.
pub proof fn lemma_round_trip(
    a: Seq<u8>,
    b: Seq<u8>,
    salt: Seq<u8>,
    pk: Seq<u8>,
    psk: Seq<u8>,
    e: Seq<u8>,
)
    requires
        salt.len() == SALT_LEN,
        pk.len() == PUBLIC_KEY_LEN,
        psk.len() == PSK_LEN,
        encodes(e, interactive_key_of(a + b, salt), salt, pk, psk),
    ensures
        decoded(b, a, e) == Some((pk, psk)),
{
    let key = interactive_key_of(a + b, salt);
    let nonce = nonce_part(e);
    let c = seal_of(plaintext(pk, psk), nonce, key);
    assert(e == nonce + salt + c);
    assert(salt_part(e) =~= salt);
    let pt = plaintext(pk, psk);
    assert(pt.subrange(0, MAGIC_LEN as int) =~= magic());
    assert(pt.subrange(MAGIC_LEN as int, MAGIC_LEN + PUBLIC_KEY_LEN) =~= pk);
    assert(pt.subrange(MAGIC_LEN + PUBLIC_KEY_LEN, PLAINTEXT_LEN as int) =~= psk);
}

/// An envelope whose ciphertext opens, under the key that the reading peer
/// derives, to a plaintext whose leading tag is not the format tag carries
/// nothing, however the rest of the plaintext reads.
pub proof fn lemma_wrong_tag_rejected(local: Seq<u8>, remote: Seq<u8>, e: Seq<u8>, msg: Seq<u8>)
    requires
        e.len() >= HEADER_LEN,
        open_of(
            ciphertext_part(e),
            nonce_part(e),
            interactive_key_of(remote + local, salt_part(e)),
        ) == Some(msg),
        msg.len() >= MAGIC_LEN,
        msg.subrange(0, MAGIC_LEN as int) != magic(),
    ensures
        decoded(local, remote, e) is None,
{
}

} // verus!
