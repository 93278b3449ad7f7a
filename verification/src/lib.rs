//! A small wallet toolkit: one signing keypair, threshold authorization over
//! a fixed owner set, and signing of raw messages, transaction digests and
//! typed-data payloads. File reading and writing is the caller's concern:
//! key material enters and leaves as plain bytes.

pub mod crypto;
pub mod errors;
pub mod hexutil;
pub mod key_management;
pub mod multi_sig;
pub mod transaction;
pub mod typed_data;
pub mod utils;

use vstd::prelude::*;

use crate::crypto::{ed25519_public_of, k256_key_ok, k256_sig_of};
use crate::errors::WalletError;
use crate::key_management::KeyManager;
use crate::multi_sig::{MultiSigWallet, PublicKeyBytes};
use crate::typed_data::{spec_typed_data_digest, ExampleData};

verus! {

/// The toolkit's facade: thin entry points over the key store, the
/// multi-signature group and typed-data signing.
pub struct WalletSdk;

impl WalletSdk {
    /// Generates a fresh keypair. Persisting the secret bytes is the
    /// caller's concern.
    pub fn generate_key() -> (km: KeyManager)
        ensures
            km.wf(),
    {
        KeyManager::generate()
    }

    /// Builds a keypair from the raw content of a key file: exactly the 32
    /// secret-key bytes.
    pub fn load_key(key_data: &[u8]) -> (r: Result<KeyManager, WalletError>)
        ensures
            r is Ok <==> key_data@.len() == 32,
            r matches Ok(km) ==> km.wf() && km.spec_secret() == key_data@ && km.spec_public()
                == ed25519_public_of(key_data@),
            r matches Err(e) ==> e == WalletError::KeyDeserializationError,
    {
        KeyManager::load(key_data)
    }

    /// Forms a multi-signature group from owners and a threshold.
    pub fn create_multi_sig_wallet(owners: Vec<PublicKeyBytes>, threshold: usize) -> (r: Result<
        MultiSigWallet,
        WalletError,
    >)
        ensures
            r is Ok <==> 0 < threshold <= owners@.len(),
            r matches Ok(w) ==> w.owners@ == owners@ && w.threshold == threshold && w.wf(),
            r matches Err(e) ==> e == WalletError::InvalidThreshold,
    {
        MultiSigWallet::new(owners, threshold)
    }

    /// Signs the typed-data digest of a payload with an ECDSA private key.
    pub fn sign_eip712(private_key: &[u8], data: ExampleData) -> (r: Result<Vec<u8>, WalletError>)
        ensures
            r is Ok <==> (data.wf() && k256_key_ok(private_key@) && k256_sig_of(
                private_key@,
                spec_typed_data_digest(data),
            ) is Some),
            r matches Ok(sig) ==> k256_sig_of(private_key@, spec_typed_data_digest(data)) == Some(
                sig@,
            ) && sig@.len() == 64,
            r matches Err(e) ==> (e == WalletError::Eip712EncodingError <==> !data.wf()) && (e
                == WalletError::Eip712EncodingError || e == WalletError::InvalidPrivateKey),
    {
        crate::typed_data::sign_typed_data(private_key, data)
    }
}

} // verus!
