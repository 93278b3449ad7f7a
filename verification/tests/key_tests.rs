use web3_wallet_security::errors::WalletError;
use web3_wallet_security::key_management::{verify_signature, KeyManager};
use web3_wallet_security::WalletSdk;

const RFC8032_SECRET: &str = "9d61b19deffd5a60ba844af492ec2cc44449c5697b326919703bac031cae7f60";
const RFC8032_PUBLIC: &str = "d75a980182b10ab7d54bfed3c964073a0ee172f3daa62325af021a68f707511a";

#[test]
fn load_rejects_truncated_key_file() {
    let truncated = [7u8; 10];
    let r = KeyManager::load(&truncated);
    assert!(matches!(r, Err(WalletError::KeyDeserializationError)));
}

#[test]
fn load_rejects_oversized_key_file() {
    let oversized = [7u8; 33];
    let r = KeyManager::load(&oversized);
    assert!(matches!(r, Err(WalletError::KeyDeserializationError)));
}

#[test]
fn load_rejects_empty_key_file() {
    let r = WalletSdk::load_key(&[]);
    assert!(matches!(r, Err(WalletError::KeyDeserializationError)));
}

#[test]
fn load_derives_known_public_key() {
    let secret = hex::decode(RFC8032_SECRET).unwrap();
    let km = KeyManager::load(&secret).unwrap();
    assert_eq!(km.public_key(), RFC8032_PUBLIC);
}

#[test]
fn public_key_derivation_is_deterministic() {
    let secret = [42u8; 32];
    let a = KeyManager::load(&secret).unwrap();
    let b = WalletSdk::load_key(&secret).unwrap();
    assert_eq!(a.public_key(), b.public_key());
    assert_eq!(a.public_key_bytes(), b.public_key_bytes());
}

#[test]
fn generated_key_signs_verifiably() {
    let km = WalletSdk::generate_key();
    let message = b"Hello, Web3!";
    let sig = km.sign_message(message).unwrap();
    assert_eq!(sig.len(), 64);
    let pk = km.public_key_bytes();
    assert!(verify_signature(&pk, message, &sig));
}

#[test]
fn signing_is_deterministic() {
    let secret = [9u8; 32];
    let km = KeyManager::load(&secret).unwrap();
    let s1 = km.sign_message(b"same message").unwrap();
    let s2 = km.sign_message(b"same message").unwrap();
    assert_eq!(s1, s2);
}

#[test]
fn flipping_any_signature_bit_breaks_verification() {
    let secret = [3u8; 32];
    let km = KeyManager::load(&secret).unwrap();
    let message = b"tamper target";
    let sig = km.sign_message(message).unwrap();
    let pk = km.public_key_bytes();
    assert!(verify_signature(&pk, message, &sig));
    for byte in 0..sig.len() {
        for bit in 0..8 {
            let mut bad = sig.clone();
            bad[byte] ^= 1 << bit;
            assert!(!verify_signature(&pk, message, &bad));
        }
    }
}

#[test]
fn flipping_any_message_bit_breaks_verification() {
    let secret = [4u8; 32];
    let km = KeyManager::load(&secret).unwrap();
    let message = *b"short msg";
    let sig = km.sign_message(&message).unwrap();
    let pk = km.public_key_bytes();
    for byte in 0..message.len() {
        for bit in 0..8 {
            let mut bad = message;
            bad[byte] ^= 1 << bit;
            assert!(!verify_signature(&pk, &bad, &sig));
        }
    }
}

#[test]
fn verify_rejects_malformed_inputs() {
    let secret = [5u8; 32];
    let km = KeyManager::load(&secret).unwrap();
    let message = b"msg";
    let sig = km.sign_message(message).unwrap();
    let pk = km.public_key_bytes();
    assert!(!verify_signature(&pk, message, &sig[..63]));
    assert!(!verify_signature(&pk[..31], message, &sig));
    assert!(!verify_signature(&pk, message, &[]));
}
