//! Elliptic-curve operations on secp256k1: signer recovery, Diffie-Hellman
//! key agreement, and public-key derivation.
//!
//! Each operation is a deterministic function of its byte arguments; its
//! result is named by an uninterpreted spec function, and the verified
//! pipeline is proved against those names.

use vstd::prelude::*;

verus! {

/// The public key (64 bytes, uncompressed, without prefix) recovered from a
/// 32-byte message hash, a 64-byte `r || s` signature body, and a recovery
/// byte `v`; `None` when the signature, the recovery byte, or the recovery
/// itself is invalid.
pub uninterp spec fn recover_of(hash: Seq<u8>, rs: Seq<u8>, v: u8) -> Option<Seq<u8>>;

/// Relies on `libsecp256k1::recover`, with `Message::parse_slice`,
/// `Signature::parse_standard_slice` and `RecoveryId::parse_rpc` converting
/// the arguments and `PublicKey::serialize` (65 bytes led by a `0x04` tag,
/// dropped here) converting the result.  The outcome is a function of
/// `(hash, rs, v)` alone.
#[verifier::external_body]
pub(crate) fn secp_recover(hash: &[u8], rs: &[u8], v: u8) -> (r: Option<Vec<u8>>)
    requires
        hash@.len() == 32,
        rs@.len() == 64,
    ensures
        match r {
            Some(pk) => recover_of(hash@, rs@, v) == Some(pk@) && pk@.len() == 64,
            None => recover_of(hash@, rs@, v) is None,
        },
{
    let message = libsecp256k1::Message::parse_slice(hash).ok()?;
    let signature = libsecp256k1::Signature::parse_standard_slice(rs).ok()?;
    let recovery_id = libsecp256k1::RecoveryId::parse_rpc(v).ok()?;
    let pubkey = libsecp256k1::recover(&message, &signature, &recovery_id).ok()?;
    Some(pubkey.serialize()[1..65].to_vec())
}

/// The 32-byte shared key derived from a 32-byte secret key and a 64-byte
/// public key: the x coordinate of the public point multiplied by the secret
/// scalar.  `None` when either key is invalid.
pub uninterp spec fn ecdh_of(seckey: Seq<u8>, pubkey: Seq<u8>) -> Option<Seq<u8>>;

/// Relies on `libsecp256k1::PublicKey::tweak_mul_assign` for the
/// Diffie-Hellman point multiplication, with `SecretKey::parse_slice` and
/// `PublicKey::parse_slice` (raw 64-byte format) converting the arguments
/// and `PublicKey::serialize` converting the result, of which the x
/// coordinate (bytes 1..33) is kept.  The outcome is a function of the two
/// keys alone.
#[verifier::external_body]
pub(crate) fn secp_derive_key(seckey: &[u8], pubkey: &[u8]) -> (r: Option<Vec<u8>>)
    requires
        seckey@.len() == 32,
        pubkey@.len() == 64,
    ensures
        match r {
            Some(k) => ecdh_of(seckey@, pubkey@) == Some(k@) && k@.len() == 32,
            None => ecdh_of(seckey@, pubkey@) is None,
        },
{
    let sk = libsecp256k1::SecretKey::parse_slice(seckey).ok()?;
    let raw = Some(libsecp256k1::PublicKeyFormat::Raw);
    let mut point = libsecp256k1::PublicKey::parse_slice(pubkey, raw).ok()?;
    point.tweak_mul_assign(&sk).ok()?;
    Some(point.serialize()[1..33].to_vec())
}

/// The 64-byte uncompressed public key (without prefix) belonging to a
/// 32-byte secret key; `None` when the secret key is invalid.
pub uninterp spec fn pubkey_of(seckey: Seq<u8>) -> Option<Seq<u8>>;

/// Relies on `libsecp256k1::PublicKey::from_secret_key`, with
/// `SecretKey::parse_slice` converting the argument and
/// `PublicKey::serialize` (65 bytes led by a `0x04` tag, dropped here)
/// converting the result.  The outcome is a function of the secret key
/// alone.
#[verifier::external_body]
pub(crate) fn secp_pubkey(seckey: &[u8]) -> (r: Option<Vec<u8>>)
    requires
        seckey@.len() == 32,
    ensures
        match r {
            Some(pk) => pubkey_of(seckey@) == Some(pk@) && pk@.len() == 64,
            None => pubkey_of(seckey@) is None,
        },
{
    let sk = libsecp256k1::SecretKey::parse_slice(seckey).ok()?;
    let pubkey = libsecp256k1::PublicKey::from_secret_key(&sk);
    Some(pubkey.serialize()[1..65].to_vec())
}

} // verus!
