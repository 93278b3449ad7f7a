use web3_wallet_security::errors::WalletError;
use web3_wallet_security::hexutil::{hex_decode_chars, hex_encode_lower};
use web3_wallet_security::utils::{
    addresses_are_equal, derive_tx_id, derive_tx_id_at, generate_random_hex, is_valid_address,
    private_key_to_address, sha256_hash, to_checksum_address, SecretString,
};

const LOWER_ADDR: &str = "0x52908400098527886e0f7030069857d2e4169ee7";

#[test]
fn hex_encoding_matches_reference_crate() {
    let bytes: Vec<u8> = (0u8..=255).collect();
    assert_eq!(hex_encode_lower(&bytes), hex::encode(&bytes));
    assert_eq!(hex_encode_lower(&[]), "");
}

#[test]
fn hex_decoding_matches_reference_crate() {
    let s = "00ff10ab9C";
    assert_eq!(hex_decode_chars(s).unwrap(), hex::decode(s).unwrap());
    assert_eq!(hex_decode_chars("abc"), None);
    assert_eq!(hex_decode_chars("zz"), None);
    assert_eq!(hex_decode_chars("").unwrap(), Vec::<u8>::new());
}

#[test]
fn sha256_hash_matches_known_vector() {
    assert_eq!(
        sha256_hash("abc"),
        "ba7816bf8f01cfea414140de5dae2223b00361a396177a9cb410ff61f20015ad"
    );
}

#[test]
fn tx_id_matches_known_vector() {
    assert_eq!(
        derive_tx_id_at(1234567890, "payment"),
        "f862f619d5c090fbf8c543f01e3697f98421214a2a3f1be60311eb2f7c572ff4"
    );
}

#[test]
fn tx_id_is_a_hex_digest() {
    let id = derive_tx_id("payment");
    assert_eq!(id.len(), 64);
    assert!(id.chars().all(|c| c.is_ascii_hexdigit()));
}

#[test]
fn random_hex_is_64_hex_characters() {
    let a = generate_random_hex();
    let b = generate_random_hex();
    assert_eq!(a.len(), 64);
    assert!(a.chars().all(|c| c.is_ascii_hexdigit()));
    assert_ne!(a, b);
}

#[test]
fn checksum_address_matches_known_vector() {
    let checksummed = to_checksum_address(LOWER_ADDR).unwrap();
    assert_eq!(checksummed, "0x52908400098527886E0f7030069857d2e4169eE7");
}

#[test]
fn checksum_address_keeps_given_upper_case_letters() {
    let input = "0x52908400098527886E0F7030069857D2E4169EE7";
    let checksummed = to_checksum_address(input).unwrap();
    assert_eq!(checksummed, input);
}

#[test]
fn checksum_address_rejects_invalid_input() {
    assert!(matches!(
        to_checksum_address("0x123"),
        Err(WalletError::InvalidAddress)
    ));
    assert!(matches!(
        to_checksum_address(""),
        Err(WalletError::InvalidAddress)
    ));
}

#[test]
fn address_validation_accepts_and_rejects() {
    assert!(is_valid_address(LOWER_ADDR));
    assert!(is_valid_address("0x52908400098527886E0F7030069857D2E4169EE7"));
    // wrong length
    assert!(!is_valid_address("0x52908400098527886e0f7030069857d2e4169ee"));
    assert!(!is_valid_address("0x52908400098527886e0f7030069857d2e4169ee70"));
    // missing prefix
    assert!(!is_valid_address("5290840009852788060f7030069857d2e4169ee7ab"));
    // non-hex character after the prefix
    assert!(!is_valid_address("0x52908400098527886e0f7030069857d2e4169eg7"));
    assert!(!is_valid_address(""));
}

#[test]
fn address_equality_ignores_case() {
    assert!(addresses_are_equal(
        LOWER_ADDR,
        "0x52908400098527886E0F7030069857D2E4169EE7"
    ));
    assert!(!addresses_are_equal(
        LOWER_ADDR,
        "0x52908400098527886e0f7030069857d2e4169ee8"
    ));
}

#[test]
fn private_key_to_address_matches_known_vector() {
    let key = SecretString::new(format!("{:064x}", 1u32));
    let address = private_key_to_address(&key).unwrap();
    assert_eq!(
        hex::encode(address),
        "b46a7a1a23f3897cc83a94521a96da5c23bc58db"
    );
}

#[test]
fn private_key_to_address_rejects_bad_keys() {
    let not_hex = SecretString::new(String::from("zz"));
    assert!(matches!(
        private_key_to_address(&not_hex),
        Err(WalletError::InvalidPrivateKey)
    ));
    let zero = SecretString::new(format!("{:064x}", 0u32));
    assert!(matches!(
        private_key_to_address(&zero),
        Err(WalletError::InvalidPrivateKey)
    ));
    let short = SecretString::new(String::from("0102"));
    assert!(matches!(
        private_key_to_address(&short),
        Err(WalletError::InvalidPrivateKey)
    ));
}
