//! Trusted bindings to the cryptographic crates.
//!
//! Each executable item here is `external_body`: its contract states what the
//! named crate documents, and everything built on top is verified against
//! these contracts. Digests and signatures are deterministic functions of
//! their inputs, so they are named by uninterpreted spec functions.

use vstd::prelude::*;

use crate::errors::WalletError;

verus! {

/// The Ed25519 verifying key derived from 32 secret-key bytes.
pub uninterp spec fn ed25519_public_of(secret: Seq<u8>) -> Seq<u8>;

/// The Ed25519 signature over a message by a 32-byte secret key.
pub uninterp spec fn ed25519_signature_of(secret: Seq<u8>, message: Seq<u8>) -> Seq<u8>;

/// Whether Ed25519 verification accepts the triple.
pub uninterp spec fn ed25519_verifies(public: Seq<u8>, message: Seq<u8>, signature: Seq<u8>) -> bool;

/// Whether the ECDSA signer accepts these bytes as a secret key: 24 to 32
/// bytes that, left-padded with zeros to 32, hold a nonzero scalar below the
/// secp256k1 curve order.
pub uninterp spec fn k256_key_ok(secret: Seq<u8>) -> bool;

/// The deterministic (RFC 6979) ECDSA/secp256k1 signature over a 32-byte
/// digest; `None` in the astronomically rare case the signer reports failure.
pub uninterp spec fn k256_sig_of(secret: Seq<u8>, digest: Seq<u8>) -> Option<Seq<u8>>;

/// Whether the secp256k1 crate accepts these bytes as a secret key.
pub uninterp spec fn secp_key_ok(secret: Seq<u8>) -> bool;

/// The 65-byte SEC1 uncompressed encoding of the public key derived from a
/// secp256k1 secret key.
pub uninterp spec fn secp_uncompressed_of(secret: Seq<u8>) -> Seq<u8>;

/// The 32-byte SHA-256 digest of a byte sequence.
pub uninterp spec fn sha256_of(data: Seq<u8>) -> Seq<u8>;

/// The 32-byte Keccak-256 digest of a byte sequence.
pub uninterp spec fn keccak_of(data: Seq<u8>) -> Seq<u8>;

/// Relies on ed25519_dalek::SigningKey::from_bytes and
/// VerifyingKey::to_bytes: the 32-byte verifying key is derived from the 32
/// secret bytes alone.
#[verifier::external_body]
pub(crate) fn ed25519_derive_public(secret: &[u8]) -> (r: Vec<u8>)
    requires
        secret@.len() == 32,
    ensures
        r@ == ed25519_public_of(secret@),
        r@.len() == 32,
{
    let mut sk = [0u8; 32];
    sk.copy_from_slice(secret);
    ed25519_dalek::SigningKey::from_bytes(&sk).verifying_key().to_bytes().to_vec()
}

/// Relies on ed25519_dalek's Signer::sign: deterministic RFC 8032 signing,
/// producing a 64-byte signature that the verifying key derived from the same
/// secret accepts for the same message.
#[verifier::external_body]
pub(crate) fn ed25519_sign(secret: &[u8], message: &[u8]) -> (r: Vec<u8>)
    requires
        secret@.len() == 32,
    ensures
        r@ == ed25519_signature_of(secret@, message@),
        r@.len() == 64,
        ed25519_verifies(ed25519_public_of(secret@), message@, r@),
{
    let mut sk = [0u8; 32];
    sk.copy_from_slice(secret);
    let signature = ed25519_dalek::Signer::sign(&ed25519_dalek::SigningKey::from_bytes(&sk), message);
    signature.to_bytes().to_vec()
}

/// Relies on ed25519_dalek's Verifier::verify: acceptance depends on the
/// triple alone, and a key that is not 32 bytes, or a signature that is not
/// 64 bytes, never parses and so never verifies.
#[verifier::external_body]
pub(crate) fn ed25519_verify(public: &[u8], message: &[u8], signature: &[u8]) -> (r: bool)
    ensures
        r == ed25519_verifies(public@, message@, signature@),
        public@.len() != 32 ==> !r,
        signature@.len() != 64 ==> !r,
{
    let pk: [u8; 32] = match public.try_into() {
        Ok(a) => a,
        Err(_) => return false,
    };
    let vk = match ed25519_dalek::VerifyingKey::from_bytes(&pk) {
        Ok(k) => k,
        Err(_) => return false,
    };
    let sig = match ed25519_dalek::Signature::from_slice(signature) {
        Ok(s) => s,
        Err(_) => return false,
    };
    ed25519_dalek::Verifier::verify(&vk, message, &sig).is_ok()
}

/// Relies on rand's OsRng: fills a buffer from the operating system's entropy
/// source. Nothing is promised of the value; an entropy failure aborts, as
/// the crate documents.
#[verifier::external_body]
pub(crate) fn os_random_32() -> (r: Vec<u8>)
    ensures
        r@.len() == 32,
{
    let mut buf = [0u8; 32];
    rand::RngCore::fill_bytes(&mut rand::rngs::OsRng, &mut buf);
    buf.to_vec()
}

/// Relies on k256's ECDSA (reached through ethers): SigningKey::from_slice
/// accepts the byte strings of 24 to 32 bytes that, left-padded with zeros,
/// hold a nonzero scalar below the curve order, and sign_prehash signs a
/// digest deterministically per RFC 6979, yielding a 64-byte signature.
#[verifier::external_body]
pub(crate) fn ecdsa_sign_prehash(secret: &[u8], digest: &[u8]) -> (r: Result<Vec<u8>, WalletError>)
    requires
        digest@.len() == 32,
    ensures
        r is Ok <==> (k256_key_ok(secret@) && k256_sig_of(secret@, digest@) is Some),
        r matches Ok(v) ==> k256_sig_of(secret@, digest@) == Some(v@) && v@.len() == 64,
        r matches Err(e) ==> e == WalletError::InvalidPrivateKey,
        secret@.len() < 24 || secret@.len() > 32 ==> r is Err,
{
    let key = match ethers::core::k256::ecdsa::SigningKey::from_slice(secret) {
        Ok(k) => k,
        Err(_) => return Err(WalletError::InvalidPrivateKey),
    };
    let sig: ethers::core::k256::ecdsa::Signature =
        match ethers::core::k256::ecdsa::signature::hazmat::PrehashSigner::sign_prehash(&key, digest) {
            Ok(s) => s,
            Err(_) => return Err(WalletError::InvalidPrivateKey),
        };
    Ok(sig.to_bytes().to_vec())
}

/// Relies on secp256k1: SecretKey::from_secret_bytes accepts exactly the
/// 32-byte strings holding a nonzero scalar below the curve order, and
/// serialize_uncompressed renders the derived public key as 65 SEC1 bytes.
#[verifier::external_body]
pub(crate) fn secp_derive_uncompressed(secret: &[u8]) -> (r: Result<Vec<u8>, WalletError>)
    ensures
        r is Ok <==> secp_key_ok(secret@),
        r matches Ok(v) ==> v@ == secp_uncompressed_of(secret@) && v@.len() == 65,
        r matches Err(e) ==> e == WalletError::InvalidPrivateKey,
        secret@.len() != 32 ==> r is Err,
{
    let arr: [u8; 32] = match secret.try_into() {
        Ok(a) => a,
        Err(_) => return Err(WalletError::InvalidPrivateKey),
    };
    let sk = match secp256k1::SecretKey::from_secret_bytes(arr) {
        Ok(k) => k,
        Err(_) => return Err(WalletError::InvalidPrivateKey),
    };
    Ok(secp256k1::PublicKey::from_secret_key(&sk).serialize_uncompressed().to_vec())
}

/// Relies on sha2::Sha256: the 32-byte SHA-256 digest of the input alone.
#[verifier::external_body]
pub(crate) fn sha256_digest(data: &[u8]) -> (r: Vec<u8>)
    ensures
        r@ == sha256_of(data@),
        r@.len() == 32,
{
    <sha2::Sha256 as sha2::Digest>::digest(data).to_vec()
}

/// Relies on ethers' keccak256: the 32-byte Keccak-256 digest of the input
/// alone.
#[verifier::external_body]
pub(crate) fn keccak256_digest(data: &[u8]) -> (r: Vec<u8>)
    ensures
        r@ == keccak_of(data@),
        r@.len() == 32,
{
    ethers::core::utils::keccak256(data).to_vec()
}

} // verus!
