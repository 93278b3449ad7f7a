use web3_wallet_security::errors::WalletError;
use web3_wallet_security::transaction::{
    build_transaction, encode_transaction, hash_transaction, sign_transaction_hash,
};
use web3_wallet_security::typed_data::{encode_eip712, sign_typed_data, ExampleData};
use web3_wallet_security::WalletSdk;

fn keccak256(data: &[u8]) -> [u8; 32] {
    ethers::core::utils::keccak256(data)
}

fn verify_prehash_ok(key: &[u8], digest: &[u8], sig: &[u8]) -> bool {
    let signing = ethers::core::k256::ecdsa::SigningKey::from_slice(key).unwrap();
    let verifier = signing.verifying_key();
    let parsed = ethers::core::k256::ecdsa::Signature::from_slice(sig).unwrap();
    ethers::core::k256::ecdsa::signature::hazmat::PrehashVerifier::verify_prehash(
        verifier, digest, &parsed,
    )
    .is_ok()
}

const TO: &str = "0x1111111111111111111111111111111111111111";

fn sample_tx() -> web3_wallet_security::transaction::TransactionIntent {
    build_transaction(TO, 1_000_000, 21_000, 5_000_000_000, 0).unwrap()
}

#[test]
fn build_transaction_keeps_fields() {
    let tx = sample_tx();
    assert_eq!(tx.to, vec![0x11u8; 20]);
    assert_eq!(tx.value, 1_000_000);
    assert_eq!(tx.gas, 21_000);
    assert_eq!(tx.gas_price, 5_000_000_000);
    assert_eq!(tx.nonce, 0);
}

#[test]
fn build_transaction_rejects_bad_recipient() {
    assert!(matches!(
        build_transaction("1111111111111111111111111111111111111111", 1, 1, 1, 1),
        Err(WalletError::InvalidAddress)
    ));
    assert!(matches!(
        build_transaction("0x11", 1, 1, 1, 1),
        Err(WalletError::InvalidAddress)
    ));
    assert!(matches!(
        build_transaction("0x111111111111111111111111111111111111111g", 1, 1, 1, 1),
        Err(WalletError::InvalidAddress)
    ));
}

#[test]
fn transaction_encoding_matches_expected_bytes() {
    let tx = sample_tx();
    let encoded = encode_transaction(&tx);
    assert_eq!(
        hex::encode(&encoded),
        "e3941111111111111111111111111111111111111111830f424082520885012a05f20080"
    );
}

#[test]
fn transaction_encoding_matches_rlp_crate() {
    let tx = sample_tx();
    let encoded = encode_transaction(&tx);
    let mut stream = rlp::RlpStream::new_list(5);
    stream.append(&tx.to.as_slice());
    stream.append(&tx.value);
    stream.append(&tx.gas);
    stream.append(&tx.gas_price);
    stream.append(&tx.nonce);
    assert_eq!(encoded, stream.out().to_vec());
}

#[test]
fn transaction_encoding_is_deterministic() {
    let a = encode_transaction(&sample_tx());
    let b = encode_transaction(&sample_tx());
    assert_eq!(a, b);
}

#[test]
fn transaction_digest_is_keccak_of_encoding() {
    let tx = sample_tx();
    let digest = hash_transaction(&tx);
    let expected = keccak256(&encode_transaction(&tx));
    assert_eq!(digest, expected.to_vec());
}

#[test]
fn transaction_hash_signature_verifies_over_the_digest_itself() {
    let key = [7u8; 32];
    let tx = sample_tx();
    let digest = hash_transaction(&tx);
    let sig = sign_transaction_hash(&digest, &key).unwrap();
    assert_eq!(sig.len(), 64);
    // The digest is signed as it stands: verification against the digest
    // succeeds, so no second hashing pass was applied before signing.
    assert!(verify_prehash_ok(&key, &digest, &sig));
}

#[test]
fn transaction_hash_signing_is_deterministic() {
    let key = [7u8; 32];
    let digest = hash_transaction(&sample_tx());
    let a = sign_transaction_hash(&digest, &key).unwrap();
    let b = sign_transaction_hash(&digest, &key).unwrap();
    assert_eq!(a, b);
}

#[test]
fn transaction_hash_signing_rejects_invalid_key() {
    let digest = hash_transaction(&sample_tx());
    assert!(matches!(
        sign_transaction_hash(&digest, &[0u8; 32]),
        Err(WalletError::InvalidPrivateKey)
    ));
    assert!(matches!(
        sign_transaction_hash(&digest, &[1u8; 8]),
        Err(WalletError::InvalidPrivateKey)
    ));
    assert!(matches!(
        sign_transaction_hash(&digest, &[1u8; 33]),
        Err(WalletError::InvalidPrivateKey)
    ));
}

fn sample_data() -> ExampleData {
    ExampleData {
        from: vec![0xaau8; 20],
        to: vec![0xbbu8; 20],
        amount: 1_000,
        nonce: 7,
    }
}

fn be32(n: u64) -> [u8; 32] {
    let mut w = [0u8; 32];
    w[24..].copy_from_slice(&n.to_be_bytes());
    w
}

fn pad32(a: &[u8]) -> [u8; 32] {
    let mut w = [0u8; 32];
    w[12..].copy_from_slice(a);
    w
}

#[test]
fn typed_data_digest_matches_standard_formula() {
    let data = sample_data();
    let digest = encode_eip712(&data).unwrap();

    let domain_type =
        b"EIP712Domain(string name,string version,uint256 chainId,address verifyingContract)";
    let mut dom = Vec::new();
    dom.extend_from_slice(&keccak256(domain_type));
    dom.extend_from_slice(&keccak256(b"MyDApp"));
    dom.extend_from_slice(&keccak256(b"1.0"));
    dom.extend_from_slice(&be32(1));
    dom.extend_from_slice(&pad32(&[0xccu8; 20]));
    let domain_separator = keccak256(&dom);

    let struct_type = b"ExampleData(address from,address to,uint64 amount,uint64 nonce)";
    let mut enc = Vec::new();
    enc.extend_from_slice(&keccak256(struct_type));
    enc.extend_from_slice(&pad32(&data.from));
    enc.extend_from_slice(&pad32(&data.to));
    enc.extend_from_slice(&be32(data.amount));
    enc.extend_from_slice(&be32(data.nonce));
    let struct_hash = keccak256(&enc);

    let mut fin = vec![0x19u8, 0x01u8];
    fin.extend_from_slice(&domain_separator);
    fin.extend_from_slice(&struct_hash);
    assert_eq!(digest, keccak256(&fin).to_vec());
}

#[test]
fn typed_data_digest_is_stable() {
    let a = encode_eip712(&sample_data()).unwrap();
    let b = encode_eip712(&sample_data()).unwrap();
    assert_eq!(a, b);
}

#[test]
fn changing_any_field_changes_the_digest() {
    let base = encode_eip712(&sample_data()).unwrap();

    let mut d = sample_data();
    d.from[19] ^= 1;
    assert_ne!(encode_eip712(&d).unwrap(), base);

    let mut d = sample_data();
    d.to[0] ^= 1;
    assert_ne!(encode_eip712(&d).unwrap(), base);

    let mut d = sample_data();
    d.amount += 1;
    assert_ne!(encode_eip712(&d).unwrap(), base);

    let mut d = sample_data();
    d.nonce += 1;
    assert_ne!(encode_eip712(&d).unwrap(), base);
}

#[test]
fn typed_data_rejects_malformed_address_fields() {
    let mut d = sample_data();
    d.from = vec![0xaau8; 19];
    assert!(matches!(
        encode_eip712(&d),
        Err(WalletError::Eip712EncodingError)
    ));
    assert!(matches!(
        sign_typed_data(&[7u8; 32], d),
        Err(WalletError::Eip712EncodingError)
    ));
}

#[test]
fn typed_data_signature_verifies_over_its_digest() {
    let key = [7u8; 32];
    let data = sample_data();
    let digest = encode_eip712(&data).unwrap();
    let sig = WalletSdk::sign_eip712(&key, data).unwrap();
    assert_eq!(sig.len(), 64);
    assert!(verify_prehash_ok(&key, &digest, &sig));
}

#[test]
fn typed_data_signing_rejects_invalid_key() {
    assert!(matches!(
        sign_typed_data(&[0u8; 32], sample_data()),
        Err(WalletError::InvalidPrivateKey)
    ));
}
