//! End-to-end exercises of the mix-and-settle pipeline with real
//! cryptography: a known key pair, a known payout address, and a signature
//! over the typed message.

use salad::aead::encrypt_for_deposit;
use salad::contract::Contract;
use salad::encoding::encode_typed_data;
use salad::types::{Address, MixError, Uint256};
use tiny_keccak::Hasher;

const CONTRACT_SK: [u8; 32] = [0x11; 32];
const USER_SK: [u8; 32] = [0x22; 32];
const USER2_SK: [u8; 32] = [0x33; 32];
const MIXER_ADDR: [u8; 20] = [0xAA; 20];
const OPERATOR: [u8; 20] = [0x05; 20];
const IV: [u8; 12] = [0, 1, 2, 3, 4, 5, 6, 7, 8, 9, 10, 11];

fn keccak(data: &[u8]) -> [u8; 32] {
    let mut hasher = tiny_keccak::Keccak::v256();
    let mut out = [0u8; 32];
    hasher.update(data);
    hasher.finalize(&mut out);
    out
}

fn addr(bytes: [u8; 20]) -> Address {
    Address::from_bytes(bytes.to_vec()).unwrap()
}

fn pubkey64(sk: &[u8; 32]) -> Vec<u8> {
    let sk = libsecp256k1::SecretKey::parse(sk).unwrap();
    libsecp256k1::PublicKey::from_secret_key(&sk).serialize()[1..65].to_vec()
}

fn sender_of(pubkey: &[u8]) -> [u8; 20] {
    let mut out = [0u8; 20];
    out.copy_from_slice(&keccak(pubkey)[12..32]);
    out
}

/// The shared key as the depositor computes it: the contract's public key
/// multiplied by the depositor's secret scalar, x coordinate kept.
fn user_side_shared_key(contract_pub: &[u8], user_sk: &[u8; 32]) -> Vec<u8> {
    let sk = libsecp256k1::SecretKey::parse(user_sk).unwrap();
    let mut point = libsecp256k1::PublicKey::parse_slice(
        contract_pub,
        Some(libsecp256k1::PublicKeyFormat::Raw),
    )
    .unwrap();
    point.tweak_mul_assign(&sk).unwrap();
    point.serialize()[1..33].to_vec()
}

fn sign_deposit(
    sender: &Address,
    amount: &Uint256,
    enc_recipient: &Vec<u8>,
    user_pubkey: &Vec<u8>,
    chain_id: &Uint256,
    user_sk: &[u8; 32],
) -> Vec<u8> {
    let message = encode_typed_data(sender, amount, enc_recipient, user_pubkey, chain_id);
    let hash = keccak(&message);
    let sk = libsecp256k1::SecretKey::parse(user_sk).unwrap();
    let (sig, recid) = libsecp256k1::sign(&libsecp256k1::Message::parse(&hash), &sk);
    let mut out = sig.serialize().to_vec();
    out.push(recid.serialize() + 27);
    out
}

struct Deposit {
    pubkey: Vec<u8>,
    enc_recipient: Vec<u8>,
    sender: Address,
    signature: Vec<u8>,
}

/// Builds one valid deposit of `payout` for the given depositor key.
fn make_deposit(
    contract: &Contract,
    user_sk: &[u8; 32],
    payout: [u8; 20],
    amount: &Uint256,
    chain_id: &Uint256,
) -> Deposit {
    let contract_pub = contract.get_pub_key().unwrap();
    let shared = user_side_shared_key(&contract_pub, user_sk);
    let enc_recipient = encrypt_for_deposit(&payout, &shared, &IV);
    let pubkey = pubkey64(user_sk);
    let sender = addr(sender_of(&pubkey));
    let signature = sign_deposit(&sender, amount, &enc_recipient, &pubkey, chain_id, user_sk);
    Deposit { pubkey, enc_recipient, sender, signature }
}

fn new_contract() -> Contract {
    Contract::construct(addr(MIXER_ADDR), CONTRACT_SK.to_vec())
}

fn marker(n: u64) -> Vec<u8> {
    let mut out = vec![0u8; 4];
    out.extend_from_slice(&n.to_be_bytes());
    out
}

/// The canonical deal encoding, built independently of the library.
fn expected_deal_id(
    amount: &Uint256,
    participants: &[[u8; 20]],
    operator: &[u8; 20],
    nonce: &Uint256,
) -> [u8; 32] {
    let mut message = marker(32);
    message.extend_from_slice(&amount.bytes);
    message.extend_from_slice(&marker(participants.len() as u64));
    for p in participants {
        message.extend_from_slice(&marker(20));
        message.extend_from_slice(p);
    }
    message.extend_from_slice(&marker(20));
    message.extend_from_slice(operator);
    message.extend_from_slice(&marker(32));
    message.extend_from_slice(&nonce.bytes);
    keccak(&message)
}

#[test]
fn single_deposit_end_to_end() {
    let contract = new_contract();
    let amount = Uint256::from_u64(100);
    let chain_id = Uint256::from_u64(1);
    let payout = [0xBB; 20];
    let d = make_deposit(&contract, &USER_SK, payout, &amount, &chain_id);
    let nonce = Uint256::from_u64(7);
    let result = contract
        .execute_deal(
            &addr(OPERATOR),
            &nonce,
            &amount,
            &vec![d.pubkey],
            &vec![d.enc_recipient],
            &vec![d.sender.dup()],
            &vec![d.signature],
            &chain_id,
        )
        .unwrap();
    assert_eq!(result.recipients.len(), 1);
    assert_eq!(result.recipients[0].bytes, payout.to_vec());
    let sender_bytes = sender_of(&pubkey64(&USER_SK));
    let expected = expected_deal_id(&amount, &[sender_bytes], &OPERATOR, &nonce);
    assert_eq!(result.deal_id, expected.to_vec());
}

#[test]
fn two_deposits_multiset_preserved() {
    let contract = new_contract();
    let amount = Uint256::from_u64(100);
    let chain_id = Uint256::from_u64(5);
    let payout1 = [0xC1; 20];
    let payout2 = [0xC2; 20];
    let d1 = make_deposit(&contract, &USER_SK, payout1, &amount, &chain_id);
    let d2 = make_deposit(&contract, &USER2_SK, payout2, &amount, &chain_id);
    let nonce = Uint256::from_u64(9);
    let run = || {
        contract
            .execute_deal(
                &addr(OPERATOR),
                &nonce,
                &amount,
                &vec![d1.pubkey.clone(), d2.pubkey.clone()],
                &vec![d1.enc_recipient.clone(), d2.enc_recipient.clone()],
                &vec![d1.sender.dup(), d2.sender.dup()],
                &vec![d1.signature.clone(), d2.signature.clone()],
                &chain_id,
            )
            .unwrap()
    };
    let first = run();
    assert_eq!(first.recipients.len(), 2);
    // seed 10 over two entries exchanges positions 1 and 0
    assert_eq!(first.recipients[0].bytes, payout2.to_vec());
    assert_eq!(first.recipients[1].bytes, payout1.to_vec());
    // repeated calls with the same inputs give the same order
    let second = run();
    assert_eq!(first.recipients[0].bytes, second.recipients[0].bytes);
    assert_eq!(first.recipients[1].bytes, second.recipients[1].bytes);
}

#[test]
fn verify_deposits_returns_true() {
    let contract = new_contract();
    let amount = Uint256::from_u64(42);
    let chain_id = Uint256::from_u64(1);
    let d = make_deposit(&contract, &USER_SK, [0xCC; 20], &amount, &chain_id);
    let r = contract.verify_deposits(
        &amount,
        &vec![d.pubkey],
        &vec![d.enc_recipient],
        &vec![d.sender],
        &vec![d.signature],
        &chain_id,
    );
    assert_eq!(r, Ok(true));
}

#[test]
fn tampered_amount_rejected() {
    let contract = new_contract();
    let signed_amount = Uint256::from_u64(100);
    let presented_amount = Uint256::from_u64(200);
    let chain_id = Uint256::from_u64(1);
    let d = make_deposit(&contract, &USER_SK, [0xBB; 20], &signed_amount, &chain_id);
    let r = contract.execute_deal(
        &addr(OPERATOR),
        &Uint256::from_u64(7),
        &presented_amount,
        &vec![d.pubkey],
        &vec![d.enc_recipient],
        &vec![d.sender],
        &vec![d.signature],
        &chain_id,
    );
    assert_eq!(r.err(), Some(MixError::SignerMismatch));
}

#[test]
fn length_mismatch_aborts() {
    // three senders, two signatures: the batch is rejected before any
    // cryptographic work, whatever the other fields hold
    let contract = new_contract();
    let amount = Uint256::from_u64(1);
    let chain_id = Uint256::from_u64(1);
    let r = contract.verify_deposits(
        &amount,
        &vec![vec![], vec![], vec![]],
        &vec![vec![], vec![], vec![]],
        &vec![addr([1; 20]), addr([2; 20]), addr([3; 20])],
        &vec![vec![], vec![]],
        &chain_id,
    );
    assert_eq!(r, Err(MixError::LengthMismatch));
}

#[test]
fn malformed_public_key_rejected() {
    let contract = new_contract();
    let amount = Uint256::from_u64(1);
    let chain_id = Uint256::from_u64(1);
    let r = contract.verify_deposits(
        &amount,
        &vec![vec![0u8; 63]],
        &vec![vec![0u8; 48]],
        &vec![addr([1; 20])],
        &vec![vec![0u8; 65]],
        &chain_id,
    );
    assert_eq!(r, Err(MixError::MalformedPublicKey));
}

#[test]
fn off_curve_public_key_rejected() {
    let contract = new_contract();
    let amount = Uint256::from_u64(1);
    let chain_id = Uint256::from_u64(1);
    let r = contract.verify_deposits(
        &amount,
        &vec![vec![0xFF; 64]],
        &vec![vec![0u8; 48]],
        &vec![addr([1; 20])],
        &vec![vec![0u8; 65]],
        &chain_id,
    );
    assert_eq!(r, Err(MixError::KeyDerivationFailed));
}

#[test]
fn tampered_ciphertext_rejected() {
    let contract = new_contract();
    let amount = Uint256::from_u64(100);
    let chain_id = Uint256::from_u64(1);
    let mut d = make_deposit(&contract, &USER_SK, [0xBB; 20], &amount, &chain_id);
    d.enc_recipient[0] ^= 1;
    let r = contract.verify_deposits(
        &amount,
        &vec![d.pubkey],
        &vec![d.enc_recipient],
        &vec![d.sender],
        &vec![d.signature],
        &chain_id,
    );
    assert_eq!(r, Err(MixError::DecryptionFailed));
}

#[test]
fn malformed_signature_rejected() {
    let contract = new_contract();
    let amount = Uint256::from_u64(100);
    let chain_id = Uint256::from_u64(1);
    let mut d = make_deposit(&contract, &USER_SK, [0xBB; 20], &amount, &chain_id);
    d.signature.pop();
    let r = contract.verify_deposits(
        &amount,
        &vec![d.pubkey],
        &vec![d.enc_recipient],
        &vec![d.sender],
        &vec![d.signature],
        &chain_id,
    );
    assert_eq!(r, Err(MixError::MalformedSignature));
}

#[test]
fn unrecoverable_signature_rejected() {
    let contract = new_contract();
    let amount = Uint256::from_u64(100);
    let chain_id = Uint256::from_u64(1);
    let mut d = make_deposit(&contract, &USER_SK, [0xBB; 20], &amount, &chain_id);
    // a recovery byte outside the accepted range makes recovery fail
    let last = d.signature.len() - 1;
    d.signature[last] = 99;
    let r = contract.verify_deposits(
        &amount,
        &vec![d.pubkey],
        &vec![d.enc_recipient],
        &vec![d.sender],
        &vec![d.signature],
        &chain_id,
    );
    assert_eq!(r, Err(MixError::RecoveryFailed));
}

#[test]
fn wrong_claimed_sender_rejected() {
    let contract = new_contract();
    let amount = Uint256::from_u64(100);
    let chain_id = Uint256::from_u64(1);
    let d = make_deposit(&contract, &USER_SK, [0xBB; 20], &amount, &chain_id);
    // the signature still recovers the real signer, which is not the claim
    let r = contract.verify_deposits(
        &amount,
        &vec![d.pubkey],
        &vec![d.enc_recipient],
        &vec![addr([0x77; 20])],
        &vec![d.signature],
        &chain_id,
    );
    assert_eq!(r, Err(MixError::SignerMismatch));
}

#[test]
fn wrong_chain_id_rejected() {
    let contract = new_contract();
    let amount = Uint256::from_u64(100);
    let chain_id = Uint256::from_u64(1);
    let other_chain = Uint256::from_u64(2);
    let d = make_deposit(&contract, &USER_SK, [0xBB; 20], &amount, &chain_id);
    let r = contract.verify_deposits(
        &amount,
        &vec![d.pubkey],
        &vec![d.enc_recipient],
        &vec![d.sender],
        &vec![d.signature],
        &other_chain,
    );
    assert_eq!(r, Err(MixError::SignerMismatch));
}

#[test]
fn empty_batch_settles_nobody() {
    let contract = new_contract();
    let amount = Uint256::from_u64(1);
    let chain_id = Uint256::from_u64(1);
    let nonce = Uint256::from_u64(0);
    let result = contract
        .execute_deal(
            &addr(OPERATOR),
            &nonce,
            &amount,
            &Vec::new(),
            &Vec::new(),
            &Vec::new(),
            &Vec::new(),
            &chain_id,
        )
        .unwrap();
    assert!(result.recipients.is_empty());
    assert_eq!(
        result.deal_id,
        expected_deal_id(&amount, &[], &OPERATOR, &nonce).to_vec()
    );
}

#[test]
fn get_pub_key_matches_secret() {
    let contract = new_contract();
    assert_eq!(contract.get_pub_key().unwrap(), pubkey64(&CONTRACT_SK));
}
