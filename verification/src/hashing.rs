//! The 256-bit collision-resistant hash and hex rendering of byte strings.

use vstd::prelude::*;

verus! {

/// The Keccak-256 digest of a byte string.  The digest takes pages to state,
/// so it is left uninterpreted; `keccak256` is the only way to obtain it.
pub uninterp spec fn keccak_of(data: Seq<u8>) -> Seq<u8>;

/// Relies on `tiny_keccak::Keccak::v256` (with `Hasher::update` and
/// `Hasher::finalize`) for the Keccak-256 digest: a 32-byte value that is a
/// function of the input bytes alone.
#[verifier::external_body]
pub(crate) fn keccak256(data: &[u8]) -> (r: Vec<u8>)
    ensures
        r@ == keccak_of(data@),
        r@.len() == 32,
{
    let mut hasher = tiny_keccak::Keccak::v256();
    let mut out = [0u8; 32];
    tiny_keccak::Hasher::update(&mut hasher, data);
    tiny_keccak::Hasher::finalize(hasher, &mut out);
    out.to_vec()
}

/// The lower-case character for one hex digit value below 16.
pub open spec fn hex_digit(n: u8) -> char {
    if n == 0 {
        '0'
    } else if n == 1 {
        '1'
    } else if n == 2 {
        '2'
    } else if n == 3 {
        '3'
    } else if n == 4 {
        '4'
    } else if n == 5 {
        '5'
    } else if n == 6 {
        '6'
    } else if n == 7 {
        '7'
    } else if n == 8 {
        '8'
    } else if n == 9 {
        '9'
    } else if n == 10 {
        'a'
    } else if n == 11 {
        'b'
    } else if n == 12 {
        'c'
    } else if n == 13 {
        'd'
    } else if n == 14 {
        'e'
    } else {
        'f'
    }
}

/// The lower-case hex rendering of a byte string: two characters per byte,
/// high nibble first.
pub open spec fn hex_of(data: Seq<u8>) -> Seq<char> {
    Seq::new(
        data.len() * 2,
        |i: int|
            if i % 2 == 0 {
                hex_digit(data[i / 2] >> 4u8)
            } else {
                hex_digit(data[i / 2] & 0xfu8)
            },
    )
}

/// Relies on `rustc_hex::ToHex` for `[u8]`: renders each byte as two
/// lower-case hex characters, high nibble first, from the digit table
/// `0123456789abcdef`.
#[verifier::external_body]
pub(crate) fn to_hex_string(data: &[u8]) -> (r: String)
    ensures
        r@ == hex_of(data@),
{
    rustc_hex::ToHex::to_hex(data)
}

} // verus!
