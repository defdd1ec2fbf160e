//! Canonical byte encodings: the domain-separated typed message that a
//! depositor signs, and the length-prefixed batch encoding that the deal
//! identifier is the hash of.
//!
//! Every size or count field of the deal encoding is a twelve-byte marker:
//! four zero bytes of padding, then the value as an 8-byte big-endian word;
//! the tests recompute this layout independently, and its injectivity is
//! proved below.

use vstd::prelude::*;
use vstd::string::StringSliceAdditionalSpecFns;
use crate::bytes::{append_be_bytes8, append_bytes, append_zero_bytes, be_bytes8, zero_bytes};
use crate::hashing::{keccak256, keccak_of};
use crate::types::{Address, Uint256};

verus! {

/// The type descriptor of the signing domain.
pub open spec fn domain_type_bytes() -> Seq<u8> {
    "EIP712Domain(string name,string version,uint256 chainId)".spec_bytes()
}

/// The protocol name bound into the signing domain.
pub open spec fn domain_name_bytes() -> Seq<u8> {
    "Salad Deposit".spec_bytes()
}

/// The protocol version bound into the signing domain.
pub open spec fn domain_version_bytes() -> Seq<u8> {
    "1".spec_bytes()
}

/// The type descriptor of a deposit.
pub open spec fn deposit_type_bytes() -> Seq<u8> {
    "Deposit(address sender,uint256 amount,bytes encRecipient,bytes pubKey)".spec_bytes()
}

/// The domain part of the typed message: the hashes of the domain type
/// descriptor, the protocol name and the protocol version, then the chain
/// identifier as a 32-byte word.
pub open spec fn domain_message_bytes(chain_id: Seq<u8>) -> Seq<u8> {
    keccak_of(domain_type_bytes()) + keccak_of(domain_name_bytes()) + keccak_of(
        domain_version_bytes(),
    ) + chain_id
}

/// The struct part of the typed message: the hash of the deposit type
/// descriptor, the sender address left-padded to 32 bytes, the amount as a
/// 32-byte word, and the hashes of the ciphertext and of the presented
/// public key.
pub open spec fn deposit_message_bytes(
    sender: Seq<u8>,
    amount: Seq<u8>,
    enc_recipient: Seq<u8>,
    pubkey: Seq<u8>,
) -> Seq<u8> {
    keccak_of(deposit_type_bytes()) + zero_bytes(12) + sender + amount + keccak_of(enc_recipient)
        + keccak_of(pubkey)
}

/// The full typed message a depositor signs: the two-byte `0x19 0x01`
/// prefix, the hash of the domain part and the hash of the struct part.
pub open spec fn typed_data_bytes(
    sender: Seq<u8>,
    amount: Seq<u8>,
    enc_recipient: Seq<u8>,
    pubkey: Seq<u8>,
    chain_id: Seq<u8>,
) -> Seq<u8> {
    seq![0x19u8, 0x01u8] + keccak_of(domain_message_bytes(chain_id)) + keccak_of(
        deposit_message_bytes(sender, amount, enc_recipient, pubkey),
    )
}

/// Builds the typed message for one deposit.
pub fn encode_typed_data(
    sender: &Address,
    amount: &Uint256,
    enc_recipient: &Vec<u8>,
    user_pubkey: &Vec<u8>,
    chain_id: &Uint256,
) -> (r: Vec<u8>)
    ensures
        r@ == typed_data_bytes(sender@, amount@, enc_recipient@, user_pubkey@, chain_id@),
{
    let mut domain: Vec<u8> = Vec::new();
    let domain_type_hash = keccak256(
        "EIP712Domain(string name,string version,uint256 chainId)".as_bytes(),
    );
    append_bytes(&mut domain, domain_type_hash.as_slice());
    let name_hash = keccak256("Salad Deposit".as_bytes());
    append_bytes(&mut domain, name_hash.as_slice());
    let version_hash = keccak256("1".as_bytes());
    append_bytes(&mut domain, version_hash.as_slice());
    append_bytes(&mut domain, chain_id.bytes.as_slice());
    proof {
        assert(domain@ =~= domain_message_bytes(chain_id@));
    }

    let mut deposit: Vec<u8> = Vec::new();
    let deposit_type_hash = keccak256(
        "Deposit(address sender,uint256 amount,bytes encRecipient,bytes pubKey)".as_bytes(),
    );
    append_bytes(&mut deposit, deposit_type_hash.as_slice());
    append_zero_bytes(&mut deposit, 12);
    append_bytes(&mut deposit, sender.bytes.as_slice());
    append_bytes(&mut deposit, amount.bytes.as_slice());
    let enc_hash = keccak256(enc_recipient.as_slice());
    append_bytes(&mut deposit, enc_hash.as_slice());
    let pubkey_hash = keccak256(user_pubkey.as_slice());
    append_bytes(&mut deposit, pubkey_hash.as_slice());
    proof {
        assert(deposit@ =~= deposit_message_bytes(sender@, amount@, enc_recipient@, user_pubkey@));
    }

    let mut message: Vec<u8> = Vec::new();
    message.push(0x19u8);
    message.push(0x01u8);
    let domain_hash = keccak256(domain.as_slice());
    append_bytes(&mut message, domain_hash.as_slice());
    let deposit_hash = keccak256(deposit.as_slice());
    append_bytes(&mut message, deposit_hash.as_slice());
    proof {
        assert(message@ =~= typed_data_bytes(
            sender@,
            amount@,
            enc_recipient@,
            user_pubkey@,
            chain_id@,
        ));
    }
    message
}

/// A length marker of the deal encoding: four zero bytes of padding, then
/// the size as an 8-byte big-endian count.
pub open spec fn length_marker(n: u64) -> Seq<u8> {
    zero_bytes(4) + be_bytes8(n)
}

/// Appends a length marker to `dst`.
pub fn append_length_marker(dst: &mut Vec<u8>, n: u64)
    ensures
        final(dst)@ == old(dst)@ + length_marker(n),
{
    append_zero_bytes(dst, 4);
    append_be_bytes8(dst, n);
    proof {
        assert(dst@ =~= old(dst)@ + length_marker(n));
    }
}

/// The participant part of the deal encoding: each address preceded by a
/// marker of its 20-byte size, in submission order.
pub open spec fn participants_bytes(parts: Seq<Seq<u8>>) -> Seq<u8>
    decreases parts.len(),
{
    if parts.len() == 0 {
        Seq::empty()
    } else {
        participants_bytes(parts.drop_last()) + length_marker(20) + parts.last()
    }
}

/// The canonical deal encoding: amount, participant count and participants
/// in submission order, operator address, operator nonce, each value
/// preceded by a marker of its size or count.
pub open spec fn deal_id_message_bytes(
    amount: Seq<u8>,
    parts: Seq<Seq<u8>>,
    operator: Seq<u8>,
    nonce: Seq<u8>,
) -> Seq<u8> {
    length_marker(32) + amount + length_marker(parts.len() as u64) + participants_bytes(parts)
        + length_marker(20) + operator + length_marker(32) + nonce
}

/// The deal identifier: the hash of the canonical deal encoding.  It is
/// recomputed from its fields on every call and never stored, so identical
/// inputs always yield the identical identifier.
pub open spec fn deal_id_of(
    amount: Seq<u8>,
    parts: Seq<Seq<u8>>,
    operator: Seq<u8>,
    nonce: Seq<u8>,
) -> Seq<u8> {
    keccak_of(deal_id_message_bytes(amount, parts, operator, nonce))
}

/// The view of a participant list: each address as its byte sequence.
pub open spec fn addresses_view(parts: Seq<Address>) -> Seq<Seq<u8>> {
    parts.map(|i: int, a: Address| a@)
}

/// Builds the canonical deal encoding.
pub fn encode_deal_id_message(
    amount: &Uint256,
    participants: &Vec<Address>,
    operator: &Address,
    nonce: &Uint256,
) -> (r: Vec<u8>)
    ensures
        r@ == deal_id_message_bytes(amount@, addresses_view(participants@), operator@, nonce@),
{
    let mut message: Vec<u8> = Vec::new();
    append_length_marker(&mut message, 32);
    append_bytes(&mut message, amount.bytes.as_slice());
    append_length_marker(&mut message, participants.len() as u64);
    let ghost head = message@;
    let mut i: usize = 0;
    while i < participants.len()
        invariant
            i <= participants@.len(),
            message@ == head + participants_bytes(addresses_view(participants@.take(i as int))),
        decreases participants@.len() - i,
    {
        append_length_marker(&mut message, 20);
        append_bytes(&mut message, participants[i].bytes.as_slice());
        proof {
            let parts = addresses_view(participants@.take(i + 1));
            assert(parts.drop_last() =~= addresses_view(participants@.take(i as int)));
            assert(parts.last() == participants@[i as int]@);
            assert(message@ =~= head + participants_bytes(parts));
        }
        i = i + 1;
    }
    proof {
        assert(participants@.take(participants@.len() as int) =~= participants@);
    }
    append_length_marker(&mut message, 20);
    append_bytes(&mut message, operator.bytes.as_slice());
    append_length_marker(&mut message, 32);
    append_bytes(&mut message, nonce.bytes.as_slice());
    proof {
        assert(message@ =~= deal_id_message_bytes(
            amount@,
            addresses_view(participants@),
            operator@,
            nonce@,
        ));
    }
    message
}

/// The deal identifier is a pure function of `(amount, ordered participant
/// list, operator address, operator nonce)`: it is recomputed fresh from
/// those fields alone, so identical inputs always yield the identical
/// identifier.
pub proof fn lemma_deal_id_deterministic(
    amount1: Seq<u8>,
    parts1: Seq<Seq<u8>>,
    operator1: Seq<u8>,
    nonce1: Seq<u8>,
    amount2: Seq<u8>,
    parts2: Seq<Seq<u8>>,
    operator2: Seq<u8>,
    nonce2: Seq<u8>,
)
    requires
        amount1 == amount2,
        parts1 == parts2,
        operator1 == operator2,
        nonce1 == nonce2,
    ensures
        deal_id_of(amount1, parts1, operator1, nonce1) == deal_id_of(
            amount2,
            parts2,
            operator2,
            nonce2,
        ),
{
}

/// A participant list of 20-byte addresses encodes to 32 bytes per entry.
pub proof fn lemma_participants_bytes_len(parts: Seq<Seq<u8>>)
    requires
        forall|k: int| 0 <= k < parts.len() ==> (#[trigger] parts[k]).len() == 20,
    ensures
        participants_bytes(parts).len() == 32 * parts.len(),
    decreases parts.len(),
{
    if parts.len() > 0 {
        assert forall|k: int| 0 <= k < parts.drop_last().len() implies (#[trigger] parts.drop_last()[k]).len()
            == 20 by {
            assert(parts.drop_last()[k] == parts[k]);
        }
        lemma_participants_bytes_len(parts.drop_last());
        assert(parts.last().len() == 20);
    }
}

/// The participant encoding is injective over lists of 20-byte addresses
/// of one length.
pub proof fn lemma_participants_bytes_injective(p1: Seq<Seq<u8>>, p2: Seq<Seq<u8>>)
    requires
        p1.len() == p2.len(),
        forall|k: int| 0 <= k < p1.len() ==> (#[trigger] p1[k]).len() == 20,
        forall|k: int| 0 <= k < p2.len() ==> (#[trigger] p2[k]).len() == 20,
        participants_bytes(p1) == participants_bytes(p2),
    ensures
        p1 == p2,
    decreases p1.len(),
{
    if p1.len() == 0 {
        assert(p1 =~= p2);
    } else {
        assert forall|k: int| 0 <= k < p1.drop_last().len() implies (#[trigger] p1.drop_last()[k]).len()
            == 20 by {
            assert(p1.drop_last()[k] == p1[k]);
        }
        assert forall|k: int| 0 <= k < p2.drop_last().len() implies (#[trigger] p2.drop_last()[k]).len()
            == 20 by {
            assert(p2.drop_last()[k] == p2[k]);
        }
        let a1 = participants_bytes(p1.drop_last());
        let a2 = participants_bytes(p2.drop_last());
        lemma_participants_bytes_len(p1.drop_last());
        lemma_participants_bytes_len(p2.drop_last());
        assert(p1.last().len() == 20);
        assert(p2.last().len() == 20);
        crate::bytes::lemma_concat_cancel(
            a1 + length_marker(20),
            p1.last(),
            a2 + length_marker(20),
            p2.last(),
        );
        crate::bytes::lemma_concat_cancel(a1, length_marker(20), a2, length_marker(20));
        lemma_participants_bytes_injective(p1.drop_last(), p2.drop_last());
        assert forall|k: int| 0 <= k < p1.len() implies p1[k] == p2[k] by {
            if k < p1.len() - 1 {
                assert(p1.drop_last()[k] == p1[k]);
                assert(p2.drop_last()[k] == p2[k]);
            }
        }
        assert(p1 =~= p2);
    }
}

/// The canonical deal encoding is injective: two well-formed field tuples
/// that encode to the same bytes are the same tuple.  The deal identifier
/// is therefore a pure function of `(amount, participant list, operator
/// address, operator nonce)` that separates any two distinct tuples
/// wherever the hash of their distinct encodings does.
pub proof fn lemma_deal_id_message_injective(
    amount1: Seq<u8>,
    parts1: Seq<Seq<u8>>,
    operator1: Seq<u8>,
    nonce1: Seq<u8>,
    amount2: Seq<u8>,
    parts2: Seq<Seq<u8>>,
    operator2: Seq<u8>,
    nonce2: Seq<u8>,
)
    requires
        amount1.len() == 32,
        amount2.len() == 32,
        operator1.len() == 20,
        operator2.len() == 20,
        nonce1.len() == 32,
        nonce2.len() == 32,
        forall|k: int| 0 <= k < parts1.len() ==> (#[trigger] parts1[k]).len() == 20,
        forall|k: int| 0 <= k < parts2.len() ==> (#[trigger] parts2[k]).len() == 20,
        deal_id_message_bytes(amount1, parts1, operator1, nonce1) == deal_id_message_bytes(
            amount2,
            parts2,
            operator2,
            nonce2,
        ),
    ensures
        amount1 == amount2,
        parts1 == parts2,
        operator1 == operator2,
        nonce1 == nonce2,
{
    let m32 = length_marker(32);
    let m20 = length_marker(20);
    let mc1 = length_marker(parts1.len() as u64);
    let mc2 = length_marker(parts2.len() as u64);
    let pb1 = participants_bytes(parts1);
    let pb2 = participants_bytes(parts2);
    lemma_participants_bytes_len(parts1);
    lemma_participants_bytes_len(parts2);
    assert(deal_id_message_bytes(amount1, parts1, operator1, nonce1).len() == 132 + 32
        * parts1.len());
    assert(deal_id_message_bytes(amount2, parts2, operator2, nonce2).len() == 132 + 32
        * parts2.len());
    assert(parts1.len() == parts2.len());
    crate::bytes::lemma_concat_cancel(
        m32 + amount1 + mc1 + pb1 + m20 + operator1 + m32,
        nonce1,
        m32 + amount2 + mc2 + pb2 + m20 + operator2 + m32,
        nonce2,
    );
    crate::bytes::lemma_concat_cancel(
        m32 + amount1 + mc1 + pb1 + m20 + operator1,
        m32,
        m32 + amount2 + mc2 + pb2 + m20 + operator2,
        m32,
    );
    crate::bytes::lemma_concat_cancel(
        m32 + amount1 + mc1 + pb1 + m20,
        operator1,
        m32 + amount2 + mc2 + pb2 + m20,
        operator2,
    );
    crate::bytes::lemma_concat_cancel(
        m32 + amount1 + mc1 + pb1,
        m20,
        m32 + amount2 + mc2 + pb2,
        m20,
    );
    crate::bytes::lemma_concat_cancel(m32 + amount1 + mc1, pb1, m32 + amount2 + mc2, pb2);
    crate::bytes::lemma_concat_cancel(m32 + amount1, mc1, m32 + amount2, mc2);
    crate::bytes::lemma_concat_cancel(m32, amount1, m32, amount2);
    lemma_participants_bytes_injective(parts1, parts2);
}

/// The struct part of the typed message binds the sender and the amount:
/// for one ciphertext, presented key and field widths, equal struct parts
/// force equal senders and equal amounts.
pub proof fn lemma_deposit_message_binds_fields(
    sender1: Seq<u8>,
    amount1: Seq<u8>,
    sender2: Seq<u8>,
    amount2: Seq<u8>,
    enc_recipient: Seq<u8>,
    pubkey: Seq<u8>,
)
    requires
        sender1.len() == sender2.len(),
        amount1.len() == amount2.len(),
        deposit_message_bytes(sender1, amount1, enc_recipient, pubkey) == deposit_message_bytes(
            sender2,
            amount2,
            enc_recipient,
            pubkey,
        ),
    ensures
        sender1 == sender2,
        amount1 == amount2,
{
    let h = keccak_of(deposit_type_bytes());
    let z = zero_bytes(12);
    let he = keccak_of(enc_recipient);
    let hp = keccak_of(pubkey);
    crate::bytes::lemma_concat_cancel(
        h + z + sender1 + amount1 + he,
        hp,
        h + z + sender2 + amount2 + he,
        hp,
    );
    crate::bytes::lemma_concat_cancel(h + z + sender1 + amount1, he, h + z + sender2 + amount2, he);
    crate::bytes::lemma_concat_cancel(h + z + sender1, amount1, h + z + sender2, amount2);
    crate::bytes::lemma_concat_cancel(h + z, sender1, h + z, sender2);
}

/// A signature is bound to its deposit's amount: tampering with the amount
/// (at its 32-byte width) changes the struct part of the typed message, so
/// the signed hash covers a different encoding than the tampered call
/// presents.
pub proof fn lemma_deposit_message_binds_amount(
    sender: Seq<u8>,
    amount1: Seq<u8>,
    amount2: Seq<u8>,
    enc_recipient: Seq<u8>,
    pubkey: Seq<u8>,
)
    requires
        amount1.len() == amount2.len(),
        amount1 != amount2,
    ensures
        deposit_message_bytes(sender, amount1, enc_recipient, pubkey) != deposit_message_bytes(
            sender,
            amount2,
            enc_recipient,
            pubkey,
        ),
{
    if deposit_message_bytes(sender, amount1, enc_recipient, pubkey) == deposit_message_bytes(
        sender,
        amount2,
        enc_recipient,
        pubkey,
    ) {
        lemma_deposit_message_binds_fields(
            sender,
            amount1,
            sender,
            amount2,
            enc_recipient,
            pubkey,
        );
    }
}

/// Computes the deal identifier of a batch.
pub fn generate_deal_id(
    amount: &Uint256,
    participants: &Vec<Address>,
    operator: &Address,
    nonce: &Uint256,
) -> (r: Vec<u8>)
    ensures
        r@ == deal_id_of(amount@, addresses_view(participants@), operator@, nonce@),
        r@.len() == 32,
{
    let message = encode_deal_id_message(amount, participants, operator, nonce);
    keccak256(message.as_slice())
}

} // verus!
