//! Errors of the weapi encryption.
use vstd::prelude::*;

verus! {

/// Why a weapi encryption failed.
#[derive(Debug, Clone, Copy, PartialEq, Eq, Structural)]
pub enum WeapiError {
    /// The AES-128-CBC cipher refused the key or the IV (not 16 bytes each).
    AesCipher,
    /// The padded plaintext did not fit the output buffer.
    AesEncrypt,
    /// The RSA public key could not be loaded from its PEM text.
    PublicKey,
    /// RSA PKCS#1 v1.5 encryption of the secret key failed.
    RsaEncrypt,
    /// The request text is too long for its encrypted form to fit in memory.
    InputTooLong,
}

} // verus!
