//! The contract instance: persisted key material and the mix-and-settle
//! pipeline over a batch of deposits.

use vstd::prelude::*;
use crate::aead::{decrypt, decrypt_of};
use crate::bytes::append_bytes;
use crate::ecc::{ecdh_of, pubkey_of, recover_of, secp_derive_key, secp_pubkey, secp_recover};
use crate::encoding::{
    addresses_view, deal_id_of, encode_typed_data, generate_deal_id, typed_data_bytes,
};
use crate::hashing::{hex_of, keccak256, keccak_of, to_hex_string};
use crate::shuffle::{shuffle, shuffle_spec};
use crate::types::{Address, MixError, Uint256};

verus! {

/// The fixed seed of the reordering pass.
pub const DEAL_SEED: u64 = 10;

/// The view of a list of byte vectors: each as its byte sequence.
pub open spec fn bytes_view(v: Seq<Vec<u8>>) -> Seq<Seq<u8>> {
    v.map(|i: int, b: Vec<u8>| b@)
}

/// The signer address recovered from a 65-byte signature (`r || s || v`)
/// over the typed message of one deposit: the low 20 bytes of the hash of
/// the recovered public key; `None` when recovery fails.
pub open spec fn recovered_signer(
    sender: Seq<u8>,
    amount: Seq<u8>,
    enc_recipient: Seq<u8>,
    pubkey: Seq<u8>,
    chain_id: Seq<u8>,
    signature: Seq<u8>,
) -> Option<Seq<u8>> {
    match recover_of(
        keccak_of(typed_data_bytes(sender, amount, enc_recipient, pubkey, chain_id)),
        signature.take(64),
        signature[64],
    ) {
        Some(signer_key) => Some(keccak_of(signer_key).subrange(12, 32)),
        None => None,
    }
}

/// The payout address carried by one deposit: the first 20 bytes of the
/// plaintext that the depositor's ciphertext opens to under the shared key.
/// Meaningful only where `deposit_outcome` is `Ok`.
pub open spec fn deposit_recipient(key: Seq<u8>, pubkey: Seq<u8>, enc_recipient: Seq<u8>) -> Seq<
    u8,
> {
    match ecdh_of(key, pubkey) {
        Some(shared) => match decrypt_of(enc_recipient, shared) {
            Some(plaintext) => plaintext.take(20),
            None => Seq::empty(),
        },
        None => Seq::empty(),
    }
}

/// What validating one deposit yields: its payout address, or the first
/// failure in the fixed order of checks - public-key shape, key agreement,
/// decryption, plaintext length, signature shape, recovery, signer match.
pub open spec fn deposit_outcome(
    key: Seq<u8>,
    amount: Seq<u8>,
    chain_id: Seq<u8>,
    pubkey: Seq<u8>,
    enc_recipient: Seq<u8>,
    sender: Seq<u8>,
    signature: Seq<u8>,
) -> Result<Seq<u8>, MixError> {
    if pubkey.len() != 64 {
        Err(MixError::MalformedPublicKey)
    } else {
        match ecdh_of(key, pubkey) {
            None => Err(MixError::KeyDerivationFailed),
            Some(shared) => match decrypt_of(enc_recipient, shared) {
                None => Err(MixError::DecryptionFailed),
                Some(plaintext) => if plaintext.len() < 20 {
                    Err(MixError::DecryptionFailed)
                } else if signature.len() != 65 {
                    Err(MixError::MalformedSignature)
                } else {
                    match recovered_signer(
                        sender,
                        amount,
                        enc_recipient,
                        pubkey,
                        chain_id,
                        signature,
                    ) {
                        None => Err(MixError::RecoveryFailed),
                        Some(signer) => if signer != sender {
                            Err(MixError::SignerMismatch)
                        } else {
                            Ok(plaintext.take(20))
                        },
                    }
                },
            },
        }
    }
}

/// The outcome of the deposit at index `k` of a batch.
pub open spec fn batch_outcome_at(
    key: Seq<u8>,
    amount: Seq<u8>,
    chain_id: Seq<u8>,
    pubkeys: Seq<Seq<u8>>,
    enc_recipients: Seq<Seq<u8>>,
    senders: Seq<Seq<u8>>,
    signatures: Seq<Seq<u8>>,
    k: int,
) -> Result<Seq<u8>, MixError> {
    deposit_outcome(
        key,
        amount,
        chain_id,
        pubkeys[k],
        enc_recipients[k],
        senders[k],
        signatures[k],
    )
}

/// Whether the parallel sequences of a batch share one length.
pub open spec fn batch_lengths_ok(
    pubkeys: Seq<Seq<u8>>,
    enc_recipients: Seq<Seq<u8>>,
    senders: Seq<Seq<u8>>,
    signatures: Seq<Seq<u8>>,
) -> bool {
    &&& pubkeys.len() == enc_recipients.len()
    &&& senders.len() == enc_recipients.len()
    &&& signatures.len() == enc_recipients.len()
}

/// The ordered payout list of a valid batch, in submission order.
pub open spec fn batch_recipients(
    key: Seq<u8>,
    pubkeys: Seq<Seq<u8>>,
    enc_recipients: Seq<Seq<u8>>,
) -> Seq<Seq<u8>> {
    Seq::new(enc_recipients.len(), |k: int| deposit_recipient(key, pubkeys[k], enc_recipients[k]))
}

/// A contract instance: the address of the external settlement contract and
/// the enclave's persisted key material.  Created once at construction and
/// never mutated afterward.
pub struct Contract {
    mixer_eth_addr: Address,
    encryption_key: Vec<u8>,
}

/// What a successful deal yields: the batch identifier handed to the
/// settlement step, and the reordered payout list.
pub struct DealResult {
    pub deal_id: Vec<u8>,
    pub recipients: Vec<Address>,
}

impl Contract {
    /// A well-formed instance holds a 20-byte settlement address and
    /// 32-byte key material.
    pub closed spec fn wf(&self) -> bool {
        &&& self.mixer_eth_addr.wf()
        &&& self.encryption_key@.len() == 32
    }

    /// The stored key material.
    pub closed spec fn key_view(&self) -> Seq<u8> {
        self.encryption_key@
    }

    /// The stored settlement contract address.
    pub closed spec fn addr_view(&self) -> Seq<u8> {
        self.mixer_eth_addr@
    }

    /// One-time constructor: persists the settlement contract address
    /// together with freshly generated key material.  The key is injected
    /// by the hosting layer, which owns the source of randomness.
    pub fn construct(mixer_eth_addr: Address, encryption_key: Vec<u8>) -> (r: Contract)
        requires
            mixer_eth_addr.wf(),
            encryption_key@.len() == 32,
        ensures
            r.wf(),
            r.addr_view() == mixer_eth_addr@,
            r.key_view() == encryption_key@,
    {
        Contract { mixer_eth_addr, encryption_key }
    }

    /// The stored settlement contract address, rendered as lower-case hex.
    pub fn get_mixer_eth_addr(&self) -> (r: String)
        ensures
            r@ == hex_of(self.addr_view()),
    {
        to_hex_string(self.mixer_eth_addr.bytes.as_slice())
    }

    /// The public half of the stored key material, so outside parties can
    /// derive a matching shared key before depositing.
    pub fn get_pub_key(&self) -> (r: Result<Vec<u8>, MixError>)
        requires
            self.wf(),
        ensures
            match r {
                Ok(pk) => pubkey_of(self.key_view()) == Some(pk@) && pk@.len() == 64,
                Err(e) => e == MixError::KeyDerivationFailed && pubkey_of(self.key_view()) is None,
            },
    {
        match secp_pubkey(self.encryption_key.as_slice()) {
            Some(pk) => Ok(pk),
            None => Err(MixError::KeyDerivationFailed),
        }
    }

    /// Recovers the signer address of one deposit from its signature over
    /// the typed message of the deposit's exact parameters.  The caller
    /// compares the result against the claimed sender.
    pub fn verify_signature(
        signature: &Vec<u8>,
        sender: &Address,
        amount: &Uint256,
        enc_recipient: &Vec<u8>,
        user_pubkey: &Vec<u8>,
        chain_id: &Uint256,
    ) -> (r: Result<Address, MixError>)
        requires
            signature@.len() == 65,
        ensures
            match r {
                Ok(a) => {
                    &&& recovered_signer(
                        sender@,
                        amount@,
                        enc_recipient@,
                        user_pubkey@,
                        chain_id@,
                        signature@,
                    ) == Some(a@)
                    &&& a.wf()
                },
                Err(e) => {
                    &&& e == MixError::RecoveryFailed
                    &&& recovered_signer(
                        sender@,
                        amount@,
                        enc_recipient@,
                        user_pubkey@,
                        chain_id@,
                        signature@,
                    ) is None
                },
            },
    {
        let message = encode_typed_data(sender, amount, enc_recipient, user_pubkey, chain_id);
        let hash = keccak256(message.as_slice());
        let rs = &signature.as_slice()[0..64];
        let v = signature[64];
        proof {
            assert(rs@ =~= signature@.take(64));
        }
        match secp_recover(hash.as_slice(), rs, v) {
            None => Err(MixError::RecoveryFailed),
            Some(signer_key) => {
                let signer_hash = keccak256(signer_key.as_slice());
                let tail = &signer_hash.as_slice()[12..32];
                let mut addr_bytes: Vec<u8> = Vec::new();
                append_bytes(&mut addr_bytes, tail);
                proof {
                    assert(addr_bytes@ =~= keccak_of(signer_key@).subrange(12, 32));
                }
                Ok(Address { bytes: addr_bytes })
            },
        }
    }

    /// Validates a whole batch: checks that the parallel sequences share
    /// one length, then walks the deposits in submission order, decrypting
    /// each payout address and checking each signature against its claimed
    /// sender.  The first failure aborts the whole batch; on success the
    /// payout list is returned in submission order.
    pub fn verify_deposits_internal(
        &self,
        amount: &Uint256,
        pub_keys: &Vec<Vec<u8>>,
        enc_recipients: &Vec<Vec<u8>>,
        senders: &Vec<Address>,
        signatures: &Vec<Vec<u8>>,
        chain_id: &Uint256,
    ) -> (r: Result<Vec<Address>, MixError>)
        requires
            self.wf(),
        ensures
            verify_outcome_matches(
                r,
                self.key_view(),
                amount@,
                chain_id@,
                bytes_view(pub_keys@),
                bytes_view(enc_recipients@),
                addresses_view(senders@),
                bytes_view(signatures@),
            ),
            match r {
                Ok(recipients) => {
                    &&& recipients@.len() == enc_recipients@.len()
                    &&& forall|k: int|
                        0 <= k < enc_recipients@.len() ==> #[trigger] batch_outcome_at(
                            self.key_view(),
                            amount@,
                            chain_id@,
                            bytes_view(pub_keys@),
                            bytes_view(enc_recipients@),
                            addresses_view(senders@),
                            bytes_view(signatures@),
                            k,
                        ) == Ok::<Seq<u8>, MixError>(recipients@[k]@)
                },
                Err(_) => true,
            },
    {
        let ghost key = self.key_view();
        let ghost pks = bytes_view(pub_keys@);
        let ghost encs = bytes_view(enc_recipients@);
        let ghost snds = addresses_view(senders@);
        let ghost sigs = bytes_view(signatures@);
        let n = enc_recipients.len();
        if senders.len() != n || pub_keys.len() != n || signatures.len() != n {
            return Err(MixError::LengthMismatch);
        }
        let mut recipients: Vec<Address> = Vec::new();
        let mut i: usize = 0;
        while i < n
            invariant
                self.wf(),
                key == self.key_view(),
                pks == bytes_view(pub_keys@),
                encs == bytes_view(enc_recipients@),
                snds == addresses_view(senders@),
                sigs == bytes_view(signatures@),
                n == encs.len(),
                pks.len() == n,
                snds.len() == n,
                sigs.len() == n,
                i <= n,
                recipients@.len() == i,
                forall|k: int|
                    0 <= k < i ==> #[trigger] batch_outcome_at(
                        key,
                        amount@,
                        chain_id@,
                        pks,
                        encs,
                        snds,
                        sigs,
                        k,
                    ) == Ok::<Seq<u8>, MixError>(recipients@[k]@),
            decreases n - i,
        {
            let pubkey = &pub_keys[i];
            if pubkey.len() != 64 {
                proof {
                    assert(batch_outcome_at(key, amount@, chain_id@, pks, encs, snds, sigs, i as int)
                        == Err::<Seq<u8>, MixError>(MixError::MalformedPublicKey));
                }
                return Err(MixError::MalformedPublicKey);
            }
            let shared = match secp_derive_key(
                self.encryption_key.as_slice(),
                pubkey.as_slice(),
            ) {
                Some(s) => s,
                None => {
                    proof {
                        assert(batch_outcome_at(key, amount@, chain_id@, pks, encs, snds, sigs, i as int)
                            == Err::<Seq<u8>, MixError>(MixError::KeyDerivationFailed));
                    }
                    return Err(MixError::KeyDerivationFailed);
                },
            };
            let plaintext = match decrypt(enc_recipients[i].as_slice(), shared.as_slice()) {
                Some(p) => p,
                None => {
                    proof {
                        assert(batch_outcome_at(key, amount@, chain_id@, pks, encs, snds, sigs, i as int)
                            == Err::<Seq<u8>, MixError>(MixError::DecryptionFailed));
                    }
                    return Err(MixError::DecryptionFailed);
                },
            };
            if plaintext.len() < 20 {
                proof {
                    assert(batch_outcome_at(key, amount@, chain_id@, pks, encs, snds, sigs, i as int)
                        == Err::<Seq<u8>, MixError>(MixError::DecryptionFailed));
                }
                return Err(MixError::DecryptionFailed);
            }
            let signature = &signatures[i];
            if signature.len() != 65 {
                proof {
                    assert(batch_outcome_at(key, amount@, chain_id@, pks, encs, snds, sigs, i as int)
                        == Err::<Seq<u8>, MixError>(MixError::MalformedSignature));
                }
                return Err(MixError::MalformedSignature);
            }
            let recovered = match Self::verify_signature(
                signature,
                &senders[i],
                amount,
                &enc_recipients[i],
                pubkey,
                chain_id,
            ) {
                Ok(a) => a,
                Err(e) => {
                    proof {
                        assert(batch_outcome_at(key, amount@, chain_id@, pks, encs, snds, sigs, i as int)
                            == Err::<Seq<u8>, MixError>(MixError::RecoveryFailed));
                    }
                    return Err(e);
                },
            };
            if !recovered.eq_addr(&senders[i]) {
                proof {
                    assert(batch_outcome_at(key, amount@, chain_id@, pks, encs, snds, sigs, i as int)
                        == Err::<Seq<u8>, MixError>(MixError::SignerMismatch));
                }
                return Err(MixError::SignerMismatch);
            }
            let head = &plaintext.as_slice()[0..20];
            let mut recipient_bytes: Vec<u8> = Vec::new();
            append_bytes(&mut recipient_bytes, head);
            proof {
                assert(recipient_bytes@ =~= plaintext@.take(20));
                assert(batch_outcome_at(key, amount@, chain_id@, pks, encs, snds, sigs, i as int)
                    == Ok::<Seq<u8>, MixError>(plaintext@.take(20)));
            }
            recipients.push(Address { bytes: recipient_bytes });
            i = i + 1;
        }
        Ok(recipients)
    }

    /// Runs the validation pipeline without settlement or reordering.
    /// Returns `true` on success; a failing batch aborts with its error,
    /// so `false` is never produced.
    pub fn verify_deposits(
        &self,
        amount: &Uint256,
        pub_keys: &Vec<Vec<u8>>,
        enc_recipients: &Vec<Vec<u8>>,
        senders: &Vec<Address>,
        signatures: &Vec<Vec<u8>>,
        chain_id: &Uint256,
    ) -> (r: Result<bool, MixError>)
        requires
            self.wf(),
        ensures
            match r {
                Ok(b) => b,
                Err(_) => true,
            },
            verify_outcome_matches(
                match r {
                    Ok(_) => Ok(()),
                    Err(e) => Err(e),
                },
                self.key_view(),
                amount@,
                chain_id@,
                bytes_view(pub_keys@),
                bytes_view(enc_recipients@),
                addresses_view(senders@),
                bytes_view(signatures@),
            ),
    {
        match self.verify_deposits_internal(
            amount,
            pub_keys,
            enc_recipients,
            senders,
            signatures,
            chain_id,
        ) {
            Ok(_) => Ok(true),
            Err(e) => Err(e),
        }
    }

    /// Validates a batch, reorders the payout list with the fixed seed,
    /// and derives the deal identifier over the unshuffled participant
    /// list; the result carries everything the settlement step is given.
    pub fn execute_deal(
        &self,
        operator_address: &Address,
        operator_nonce: &Uint256,
        amount: &Uint256,
        pub_keys: &Vec<Vec<u8>>,
        enc_recipients: &Vec<Vec<u8>>,
        senders: &Vec<Address>,
        signatures: &Vec<Vec<u8>>,
        chain_id: &Uint256,
    ) -> (r: Result<DealResult, MixError>)
        requires
            self.wf(),
        ensures
            match r {
                Ok(d) => {
                    &&& batch_lengths_ok(
                        bytes_view(pub_keys@),
                        bytes_view(enc_recipients@),
                        addresses_view(senders@),
                        bytes_view(signatures@),
                    )
                    &&& forall|k: int|
                        0 <= k < enc_recipients@.len() ==> (#[trigger] batch_outcome_at(
                            self.key_view(),
                            amount@,
                            chain_id@,
                            bytes_view(pub_keys@),
                            bytes_view(enc_recipients@),
                            addresses_view(senders@),
                            bytes_view(signatures@),
                            k,
                        )) is Ok
                    &&& addresses_view(d.recipients@) == shuffle_spec(
                        DEAL_SEED,
                        batch_recipients(
                            self.key_view(),
                            bytes_view(pub_keys@),
                            bytes_view(enc_recipients@),
                        ),
                    )
                    &&& d.deal_id@ == deal_id_of(
                        amount@,
                        addresses_view(senders@),
                        operator_address@,
                        operator_nonce@,
                    )
                    &&& d.deal_id@.len() == 32
                },
                Err(e) => verify_outcome_matches::<Vec<Address>>(
                    Err(e),
                    self.key_view(),
                    amount@,
                    chain_id@,
                    bytes_view(pub_keys@),
                    bytes_view(enc_recipients@),
                    addresses_view(senders@),
                    bytes_view(signatures@),
                ),
            },
    {
        let mut recipients = match self.verify_deposits_internal(
            amount,
            pub_keys,
            enc_recipients,
            senders,
            signatures,
            chain_id,
        ) {
            Ok(rs) => rs,
            Err(e) => {
                return Err(e);
            },
        };
        proof {
            lemma_ok_batch_recipients(
                recipients@,
                self.key_view(),
                amount@,
                chain_id@,
                bytes_view(pub_keys@),
                bytes_view(enc_recipients@),
                addresses_view(senders@),
                bytes_view(signatures@),
            );
        }
        shuffle(&mut recipients, DEAL_SEED);
        let deal_id = generate_deal_id(amount, senders, operator_address, operator_nonce);
        Ok(DealResult { deal_id, recipients })
    }
}

/// Whether a pipeline result is the one the batch's inputs dictate: `Ok`
/// exactly when the sequences share one length and every deposit validates,
/// each `Ok` payout the decrypted address at its index, and each error the
/// first failure the fixed processing order meets.
pub open spec fn verify_outcome_matches<T>(
    r: Result<T, MixError>,
    key: Seq<u8>,
    amount: Seq<u8>,
    chain_id: Seq<u8>,
    pubkeys: Seq<Seq<u8>>,
    enc_recipients: Seq<Seq<u8>>,
    senders: Seq<Seq<u8>>,
    signatures: Seq<Seq<u8>>,
) -> bool {
    match r {
        Ok(_) => {
            &&& batch_lengths_ok(pubkeys, enc_recipients, senders, signatures)
            &&& forall|k: int|
                0 <= k < enc_recipients.len() ==> (#[trigger] batch_outcome_at(
                    key,
                    amount,
                    chain_id,
                    pubkeys,
                    enc_recipients,
                    senders,
                    signatures,
                    k,
                )) is Ok
        },
        Err(e) => {
            if !batch_lengths_ok(pubkeys, enc_recipients, senders, signatures) {
                e == MixError::LengthMismatch
            } else {
                exists|k: int|
                    0 <= k < enc_recipients.len() && #[trigger] batch_outcome_at(
                        key,
                        amount,
                        chain_id,
                        pubkeys,
                        enc_recipients,
                        senders,
                        signatures,
                        k,
                    ) == Err::<Seq<u8>, MixError>(e) && forall|m: int|
                        0 <= m < k ==> (#[trigger] batch_outcome_at(
                            key,
                            amount,
                            chain_id,
                            pubkeys,
                            enc_recipients,
                            senders,
                            signatures,
                            m,
                        )) is Ok
            }
        },
    }
}

/// A batch whose parallel sequences do not share one length aborts with
/// the length-mismatch error, whatever its cryptographic fields hold: no
/// other outcome is possible for such a batch.
pub proof fn lemma_length_mismatch_aborts<T>(
    r: Result<T, MixError>,
    key: Seq<u8>,
    amount: Seq<u8>,
    chain_id: Seq<u8>,
    pubkeys: Seq<Seq<u8>>,
    enc_recipients: Seq<Seq<u8>>,
    senders: Seq<Seq<u8>>,
    signatures: Seq<Seq<u8>>,
)
    requires
        verify_outcome_matches(
            r,
            key,
            amount,
            chain_id,
            pubkeys,
            enc_recipients,
            senders,
            signatures,
        ),
        !batch_lengths_ok(pubkeys, enc_recipients, senders, signatures),
    ensures
        r is Err,
        r->Err_0 == MixError::LengthMismatch,
{
}

/// One failing deposit voids the whole batch: where any index fails to
/// validate - in particular where the signer recovered at that index
/// differs from the claimed sender - the pipeline returns an error and no
/// recipient list, whatever the other deposits hold.
pub proof fn lemma_failing_deposit_aborts<T>(
    r: Result<T, MixError>,
    key: Seq<u8>,
    amount: Seq<u8>,
    chain_id: Seq<u8>,
    pubkeys: Seq<Seq<u8>>,
    enc_recipients: Seq<Seq<u8>>,
    senders: Seq<Seq<u8>>,
    signatures: Seq<Seq<u8>>,
    i: int,
)
    requires
        verify_outcome_matches(
            r,
            key,
            amount,
            chain_id,
            pubkeys,
            enc_recipients,
            senders,
            signatures,
        ),
        0 <= i < enc_recipients.len(),
        batch_outcome_at(
            key,
            amount,
            chain_id,
            pubkeys,
            enc_recipients,
            senders,
            signatures,
            i,
        ) is Err,
    ensures
        r is Err,
{
}

/// For a batch where every signature recovers its claimed sender and every
/// ciphertext decrypts, the executed deal's payout list holds exactly the
/// decrypted payout addresses: its length and its multiset of addresses
/// equal those of the submission-order list, though their order may
/// differ.
pub proof fn lemma_deal_output_is_rearrangement(
    key: Seq<u8>,
    pubkeys: Seq<Seq<u8>>,
    enc_recipients: Seq<Seq<u8>>,
)
    ensures
        shuffle_spec(DEAL_SEED, batch_recipients(key, pubkeys, enc_recipients)).to_multiset()
            == batch_recipients(key, pubkeys, enc_recipients).to_multiset(),
        shuffle_spec(DEAL_SEED, batch_recipients(key, pubkeys, enc_recipients)).len()
            == enc_recipients.len(),
{
    crate::shuffle::lemma_shuffle_permutes(
        DEAL_SEED,
        batch_recipients(key, pubkeys, enc_recipients),
    );
}

/// Where every deposit of a batch validates and the returned list matches
/// the outcomes index by index, that list is the batch's payout list.
proof fn lemma_ok_batch_recipients(
    recipients: Seq<Address>,
    key: Seq<u8>,
    amount: Seq<u8>,
    chain_id: Seq<u8>,
    pubkeys: Seq<Seq<u8>>,
    enc_recipients: Seq<Seq<u8>>,
    senders: Seq<Seq<u8>>,
    signatures: Seq<Seq<u8>>,
)
    requires
        recipients.len() == enc_recipients.len(),
        forall|k: int|
            0 <= k < enc_recipients.len() ==> #[trigger] batch_outcome_at(
                key,
                amount,
                chain_id,
                pubkeys,
                enc_recipients,
                senders,
                signatures,
                k,
            ) == Ok::<Seq<u8>, MixError>(recipients[k]@),
    ensures
        addresses_view(recipients) == batch_recipients(key, pubkeys, enc_recipients),
{
    assert forall|k: int| 0 <= k < enc_recipients.len() implies addresses_view(recipients)[k]
        == batch_recipients(key, pubkeys, enc_recipients)[k] by {
        assert(batch_outcome_at(
            key,
            amount,
            chain_id,
            pubkeys,
            enc_recipients,
            senders,
            signatures,
            k,
        ) == Ok::<Seq<u8>, MixError>(recipients[k]@));
    }
    assert(addresses_view(recipients) =~= batch_recipients(key, pubkeys, enc_recipients));
}

} // verus!
