use vstd::prelude::*;

verus! {

/// Every failure the wallet toolkit reports to a caller.
///
/// Verification failures of signatures are never errors: `verify_signatures`
/// answers them with `Ok(false)`.
#[derive(Debug, Clone, Copy, PartialEq, Eq, Structural)]
pub enum WalletError {
    /// A key file could not be read or written.
    KeyFileError,
    /// Key material had the wrong length or structure.
    KeyDeserializationError,
    /// A private key was outside the valid range for its curve.
    InvalidPrivateKey,
    /// A recipient address was not `0x` followed by 40 hex digits.
    InvalidAddress,
    /// A threshold was zero or larger than the owner set.
    InvalidThreshold,
    /// A typed-data field could not be encoded.
    Eip712EncodingError,
}

} // verus!
