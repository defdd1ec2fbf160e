//! The data model: addresses, 256-bit words, and the error taxonomy.

use vstd::prelude::*;
use crate::bytes::{append_be_bytes8, append_zero_bytes, be_bytes8, bytes_eq, zero_bytes};

verus! {

/// Why an in-flight call was aborted.  Every failure voids the whole batch;
/// no partial settlement is ever produced.
#[derive(Clone, Copy, Debug, PartialEq, Eq, Structural)]
pub enum MixError {
    /// The parallel input sequences of a batch do not share one length.
    LengthMismatch,
    /// A presented public key is not 64 bytes long.
    MalformedPublicKey,
    /// A signature is not 65 bytes long.
    MalformedSignature,
    /// No shared key could be derived from the stored key material and a
    /// depositor's public key.
    KeyDerivationFailed,
    /// Authenticated decryption of an encrypted recipient failed, or the
    /// plaintext is too short to hold an address.
    DecryptionFailed,
    /// No public key could be recovered from a signature.
    RecoveryFailed,
    /// The address recovered from a signature differs from the claimed
    /// sender.
    SignerMismatch,
}

/// A 20-byte account address.
pub struct Address {
    pub bytes: Vec<u8>,
}

impl View for Address {
    type V = Seq<u8>;

    open spec fn view(&self) -> Seq<u8> {
        self.bytes@
    }
}

impl Address {
    /// A well-formed address holds exactly 20 bytes.
    pub open spec fn wf(&self) -> bool {
        self@.len() == 20
    }

    /// Wraps 20 raw bytes as an address; rejects any other length.
    pub fn from_bytes(bytes: Vec<u8>) -> (r: Option<Address>)
        ensures
            match r {
                Some(a) => bytes@.len() == 20 && a@ == bytes@ && a.wf(),
                None => bytes@.len() != 20,
            },
    {
        if bytes.len() == 20 {
            Some(Address { bytes })
        } else {
            None
        }
    }

    /// Copies the address.
    pub fn dup(&self) -> (r: Address)
        ensures
            r@ == self@,
    {
        let b = self.bytes.clone();
        proof {
            assert(b@ =~= self.bytes@);
        }
        Address { bytes: b }
    }

    /// Compares two addresses by their bytes.
    pub fn eq_addr(&self, other: &Address) -> (r: bool)
        ensures
            r == (self@ == other@),
    {
        bytes_eq(self.bytes.as_slice(), other.bytes.as_slice())
    }
}

/// A 256-bit unsigned integer, held as its 32-byte big-endian encoding.
pub struct Uint256 {
    pub bytes: Vec<u8>,
}

impl View for Uint256 {
    type V = Seq<u8>;

    open spec fn view(&self) -> Seq<u8> {
        self.bytes@
    }
}

/// The 32-byte big-endian encoding of a 64-bit value.
pub open spec fn u256_bytes_of_u64(n: u64) -> Seq<u8> {
    zero_bytes(24) + be_bytes8(n)
}

impl Uint256 {
    /// A well-formed word holds exactly 32 bytes.
    pub open spec fn wf(&self) -> bool {
        self@.len() == 32
    }

    /// Wraps 32 raw bytes as a word; rejects any other length.
    pub fn from_bytes(bytes: Vec<u8>) -> (r: Option<Uint256>)
        ensures
            match r {
                Some(w) => bytes@.len() == 32 && w@ == bytes@ && w.wf(),
                None => bytes@.len() != 32,
            },
    {
        if bytes.len() == 32 {
            Some(Uint256 { bytes })
        } else {
            None
        }
    }

    /// Embeds a 64-bit value as a zero-extended 256-bit word.
    pub fn from_u64(n: u64) -> (r: Uint256)
        ensures
            r@ == u256_bytes_of_u64(n),
            r.wf(),
    {
        let mut bytes: Vec<u8> = Vec::new();
        append_zero_bytes(&mut bytes, 24);
        append_be_bytes8(&mut bytes, n);
        Uint256 { bytes }
    }

    /// Copies the word.
    pub fn dup(&self) -> (r: Uint256)
        ensures
            r@ == self@,
    {
        let b = self.bytes.clone();
        proof {
            assert(b@ =~= self.bytes@);
        }
        Uint256 { bytes: b }
    }
}

} // verus!
