//! The signing keypair: generation, loading from raw secret bytes, public-key
//! rendering and raw-message signing.

use vstd::prelude::*;

use crate::crypto::{
    ed25519_derive_public, ed25519_public_of, ed25519_sign, ed25519_signature_of,
    ed25519_verifies, os_random_32,
};
use crate::errors::WalletError;
use crate::hexutil::{hex_encode_lower, spec_hex_lower};

verus! {

/// Secret bytes behind an explicit accessor.
///
/// The type has no Debug or Display and no serialization, so the secret
/// cannot reach a log or an error message by accident; reading it requires
/// the clearly named `expose_secret`.
pub struct SecretBytes {
    bytes: Vec<u8>,
}

impl View for SecretBytes {
    type V = Seq<u8>;

    closed spec fn view(&self) -> Seq<u8> {
        self.bytes@
    }
}

impl SecretBytes {
    /// Wraps secret bytes.
    pub fn new(bytes: Vec<u8>) -> (s: Self)
        ensures
            s@ == bytes@,
    {
        SecretBytes { bytes }
    }

    /// The only way to read the wrapped secret.
    pub fn expose_secret(&self) -> (r: &Vec<u8>)
        ensures
            r@ == self@,
    {
        &self.bytes
    }
}

/// Owns exactly one Ed25519 keypair. The public half is always the
/// deterministic derivation of the secret half.
pub struct KeyManager {
    secret: SecretBytes,
    public: Vec<u8>,
}

impl KeyManager {
    /// The 32 secret-key bytes.
    pub closed spec fn spec_secret(self) -> Seq<u8> {
        self.secret@
    }

    /// The 32 public-key bytes.
    pub closed spec fn spec_public(self) -> Seq<u8> {
        self.public@
    }

    /// The keypair invariant: the public key is derived from the secret.
    pub open spec fn wf(self) -> bool {
        &&& self.spec_secret().len() == 32
        &&& self.spec_public() == ed25519_public_of(self.spec_secret())
        &&& self.spec_public().len() == 32
    }

    /// Creates a fresh keypair from the operating system's entropy source.
    /// Persisting it to disk is the caller's concern.
    pub fn generate() -> (km: KeyManager)
        ensures
            km.wf(),
    {
        let secret = os_random_32();
        let public = ed25519_derive_public(secret.as_slice());
        KeyManager { secret: SecretBytes::new(secret), public }
    }

    /// Builds a keypair from the raw content of a key file: exactly the 32
    /// secret-key bytes. The public key is re-derived, never read from the
    /// file; any other length is rejected.
    pub fn load(key_data: &[u8]) -> (r: Result<KeyManager, WalletError>)
        ensures
            r is Ok <==> key_data@.len() == 32,
            r matches Ok(km) ==> km.wf() && km.spec_secret() == key_data@,
            r matches Err(e) ==> e == WalletError::KeyDeserializationError,
    {
        if key_data.len() != 32 {
            return Err(WalletError::KeyDeserializationError);
        }
        let public = ed25519_derive_public(key_data);
        let secret = vstd::slice::slice_to_vec(key_data);
        Ok(KeyManager { secret: SecretBytes::new(secret), public })
    }

    /// The public key as lower-case hex.
    pub fn public_key(&self) -> (r: String)
        requires
            self.wf(),
        ensures
            r@ == spec_hex_lower(ed25519_public_of(self.spec_secret())),
    {
        hex_encode_lower(self.public.as_slice())
    }

    /// The wrapped secret half, for callers that persist it. Reading the
    /// bytes still requires the explicit accessor on the wrapper.
    pub fn expose_secret(&self) -> (r: &SecretBytes)
        ensures
            r@ == self.spec_secret(),
    {
        &self.secret
    }

    /// The raw public-key bytes.
    pub fn public_key_bytes(&self) -> (r: Vec<u8>)
        ensures
            r@ == self.spec_public(),
    {
        vstd::slice::slice_to_vec(self.public.as_slice())
    }

    /// Signs a message with the held secret key. The signature verifies
    /// against this keypair's public key for exactly these message bytes.
    pub fn sign_message(&self, message: &[u8]) -> (r: Result<Vec<u8>, WalletError>)
        requires
            self.wf(),
        ensures
            r is Ok,
            r matches Ok(sig) ==> {
                &&& sig@ == ed25519_signature_of(self.spec_secret(), message@)
                &&& sig@.len() == 64
                &&& ed25519_verifies(self.spec_public(), message@, sig@)
            },
    {
        Ok(ed25519_sign(self.secret.expose_secret().as_slice(), message))
    }
}

/// Verifies a (public key, message, signature) triple. Pure: a failing or
/// malformed signature, or a key of the wrong shape, answers false, never an
/// error.
pub fn verify_signature(public_key: &[u8], message: &[u8], signature: &[u8]) -> (r: bool)
    ensures
        r == ed25519_verifies(public_key@, message@, signature@),
        public_key@.len() != 32 ==> !r,
        signature@.len() != 64 ==> !r,
{
    crate::crypto::ed25519_verify(public_key, message, signature)
}

/// Key derivation is deterministic: two key stores over the same secret bytes
/// always present the same public key.
pub proof fn lemma_public_key_deterministic(a: KeyManager, b: KeyManager)
    requires
        a.wf(),
        b.wf(),
        a.spec_secret() == b.spec_secret(),
    ensures
        a.spec_public() == b.spec_public(),
{
}

} // verus!
