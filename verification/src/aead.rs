//! Authenticated encryption of deposit payloads.
//!
//! A deposit's ciphertext travels as `cipher || tag || iv`: the AES-256-GCM
//! sealed bytes followed by the 12-byte nonce used to seal them.  The
//! underlying primitive is an external collaborator; the split of the
//! travelling format into its parts is verified here.

use vstd::prelude::*;
use crate::bytes::append_bytes;

verus! {

/// The AES-256-GCM sealing of `msg` under `key` and the nonce `iv`:
/// the ciphertext with a 16-byte authentication tag appended.
pub uninterp spec fn seal_of(msg: Seq<u8>, key: Seq<u8>, iv: Seq<u8>) -> Seq<u8>;

/// Relies on `ring::aead::LessSafeKey::seal_in_place_append_tag` with
/// `AES_256_GCM` and no associated data, with `UnboundKey::new` and
/// `Nonce::try_assume_unique_for_key` converting the arguments.  Sealing is
/// a function of `(msg, key, iv)` alone and appends the 16-byte tag.
#[verifier::external_body]
pub(crate) fn aead_seal(msg: &[u8], key: &[u8], iv: &[u8]) -> (r: Vec<u8>)
    requires
        key@.len() == 32,
        iv@.len() == 12,
        msg@.len() < 0x100000000,
    ensures
        r@ == seal_of(msg@, key@, iv@),
        r@.len() == msg@.len() + 16,
{
    let unbound = ring::aead::UnboundKey::new(&ring::aead::AES_256_GCM, key).unwrap();
    let sealing_key = ring::aead::LessSafeKey::new(unbound);
    let nonce = ring::aead::Nonce::try_assume_unique_for_key(iv).unwrap();
    let mut in_out = msg.to_vec();
    sealing_key.seal_in_place_append_tag(nonce, ring::aead::Aad::empty(), &mut in_out).unwrap();
    in_out
}

/// The AES-256-GCM opening of `cipher` (ciphertext with trailing tag) under
/// `key` and the nonce `iv`; `None` when authentication fails or the input
/// is shorter than one tag.
pub uninterp spec fn open_of(cipher: Seq<u8>, key: Seq<u8>, iv: Seq<u8>) -> Option<Seq<u8>>;

/// Relies on `ring::aead::LessSafeKey::open_in_place` with `AES_256_GCM`
/// and no associated data, with `UnboundKey::new` and
/// `Nonce::try_assume_unique_for_key` converting the arguments.  Opening is
/// a function of `(cipher, key, iv)` alone; on success the plaintext is the
/// input minus the 16-byte tag.
#[verifier::external_body]
pub(crate) fn aead_open(cipher: &[u8], key: &[u8], iv: &[u8]) -> (r: Option<Vec<u8>>)
    requires
        key@.len() == 32,
        iv@.len() == 12,
    ensures
        match r {
            Some(p) => open_of(cipher@, key@, iv@) == Some(p@) && p@.len() + 16 == cipher@.len(),
            None => open_of(cipher@, key@, iv@) is None,
        },
{
    let unbound = ring::aead::UnboundKey::new(&ring::aead::AES_256_GCM, key).unwrap();
    let opening_key = ring::aead::LessSafeKey::new(unbound);
    let nonce = ring::aead::Nonce::try_assume_unique_for_key(iv).unwrap();
    let mut in_out = cipher.to_vec();
    match opening_key.open_in_place(nonce, ring::aead::Aad::empty(), &mut in_out) {
        Ok(plain) => Some(plain.to_vec()),
        Err(_) => None,
    }
}

/// What decrypting a travelling ciphertext yields: the last 12 bytes are
/// taken as the nonce and the rest is opened under it.
pub open spec fn decrypt_of(cipheriv: Seq<u8>, key: Seq<u8>) -> Option<Seq<u8>> {
    if cipheriv.len() >= 12 {
        open_of(
            cipheriv.take(cipheriv.len() - 12),
            key,
            cipheriv.skip(cipheriv.len() - 12),
        )
    } else {
        None
    }
}

/// Decrypts a travelling ciphertext (`cipher || tag || iv`) under `key`.
pub fn decrypt(cipheriv: &[u8], key: &[u8]) -> (r: Option<Vec<u8>>)
    requires
        key@.len() == 32,
    ensures
        match r {
            Some(p) => decrypt_of(cipheriv@, key@) == Some(p@) && p@.len() + 28 == cipheriv@.len(),
            None => decrypt_of(cipheriv@, key@) is None,
        },
{
    if cipheriv.len() < 12 {
        return None;
    }
    let split = cipheriv.len() - 12;
    let (cipher, iv) = cipheriv.split_at(split);
    proof {
        assert(cipher@ =~= cipheriv@.take(cipheriv@.len() - 12));
        assert(iv@ =~= cipheriv@.skip(cipheriv@.len() - 12));
    }
    aead_open(cipher, key, iv)
}

/// Encrypts `message` under `key` with the caller-chosen nonce `iv`: the
/// bare sealing, ciphertext followed by the 16-byte authentication tag.
/// The nonce is not part of the result; `encrypt_for_deposit` builds the
/// travelling format that `decrypt` expects.
pub fn encrypt_with_nonce(message: &[u8], key: &[u8], iv: &[u8]) -> (r: Vec<u8>)
    requires
        key@.len() == 32,
        iv@.len() == 12,
        message@.len() < 0x100000000,
    ensures
        r@ == seal_of(message@, key@, iv@),
        r@.len() == message@.len() + 16,
{
    aead_seal(message, key, iv)
}

/// What encrypting a deposit under a chosen nonce yields: the sealed bytes
/// with the nonce appended, as `decrypt` expects them.
pub open spec fn encrypt_of(msg: Seq<u8>, key: Seq<u8>, iv: Seq<u8>) -> Seq<u8> {
    seal_of(msg, key, iv) + iv
}

/// Encrypts a deposit payload under `key` with the caller-chosen nonce
/// `iv`, producing the travelling format `cipher || tag || iv`.
pub fn encrypt_for_deposit(message: &[u8], key: &[u8], iv: &[u8]) -> (r: Vec<u8>)
    requires
        key@.len() == 32,
        iv@.len() == 12,
        message@.len() < 0x100000000,
    ensures
        r@ == encrypt_of(message@, key@, iv@),
        r@.len() == message@.len() + 28,
{
    let mut out = encrypt_with_nonce(message, key, iv);
    append_bytes(&mut out, iv);
    out
}

} // verus!
