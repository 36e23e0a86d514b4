//! RSA PKCS#1 v1.5 encryption under the fixed weapi public key, through the
//! `rsa` crate.
use rsa::pkcs8::DecodePublicKey;
use vstd::prelude::*;

verus! {

/// The PEM text of the RSA public key (1024-bit modulus) that encrypts the
/// secret key of every weapi request. Its Base64 body is wrapped at 64
/// characters per line, as RFC 7468 requires and the `rsa` crate's PEM reader
/// enforces.
pub const PUBLIC_KEY_PEM: &'static str = "-----BEGIN PUBLIC KEY-----\nMIGfMA0GCSqGSIb3DQEBAQUAA4GNADCBiQKBgQDgtQn2JZ34ZC28NWYpAUd98iZ3\n7BUrX/aKzmFbt7clFSs6sXqHauqKWqdtLkF2KexO40H1YTX8z2lSgBBOAxLsvakl\nV8k4cBFK9snQXE9/DDaFt6Rr7iVZMldczhC0JNgTz+SHXT6CBHuX3e9SdB1Ua44o\nncaTWz7OBGLbCiK45wIDAQAB\n-----END PUBLIC KEY-----";

/// Whether `rsa::RsaPublicKey::from_public_key_pem` accepts `pem` as an RSA
/// public key.
pub uninterp spec fn pem_public_key_accepted(pem: Seq<char>) -> bool;

/// The size in bytes of the modulus of the RSA public key in `pem`
/// (`PublicKeyParts::size`).
pub uninterp spec fn rsa_modulus_len(pem: Seq<char>) -> nat;

/// Whether `ciphertext` is an RSA PKCS#1 v1.5 encryption of `msg` under the
/// public key in `pem`, for some choice of the random padding bytes: that is,
/// decrypting it with the matching private key and removing the padding gives
/// `msg` back.
pub uninterp spec fn pkcs1v15_ciphertext_of(pem: Seq<char>, msg: Seq<u8>, ciphertext: Seq<u8>) -> bool;

/// How the RSA step failed.
pub enum RsaFailure {
    /// The PEM text was not accepted as an RSA public key.
    KeyRejected,
    /// `encrypt` refused the message as too long for the key.
    EncryptFailed,
}

/// `rsa::RsaPublicKey::from_public_key_pem(pem)` followed by
/// `encrypt(&mut rand::thread_rng(), rsa::Pkcs1v15Encrypt, msg)`.
/// Claimed, as the sources of `spki` and `rsa` show it: the key is refused
/// exactly when the PEM text is not accepted. An accepted key has passed
/// `RsaPublicKey::new`'s checks (modulus of at most 4096 bits, valid
/// exponent), so `encrypt` fails exactly when `msg.len() + 11` exceeds the
/// modulus size `k`; otherwise the result is a PKCS#1 v1.5 encryption of `msg`
/// under that key, left-padded to exactly `k <= 512` bytes. Which of the
/// possible ciphertexts comes out depends on the random padding and is not
/// stated. `msg.len() + 11` must not overflow.
#[verifier::external_body]
pub(crate) fn pkcs1v15_encrypt_with_pem_key(pem: &str, msg: &[u8]) -> (r: Result<Vec<u8>, RsaFailure>)
    requires
        msg@.len() + 11 <= usize::MAX,
    ensures
        (r matches Err(RsaFailure::KeyRejected)) <==> !pem_public_key_accepted(pem@),
        (r matches Err(RsaFailure::EncryptFailed)) <==> (pem_public_key_accepted(pem@) && msg@.len() + 11 > rsa_modulus_len(pem@)),
        r matches Ok(c) ==> pkcs1v15_ciphertext_of(pem@, msg@, c@),
        r matches Ok(c) ==> c@.len() == rsa_modulus_len(pem@) && c@.len() <= 512,
{
    let key = match rsa::RsaPublicKey::from_public_key_pem(pem) {
        Ok(key) => key,
        Err(_) => return Err(RsaFailure::KeyRejected),
    };
    match key.encrypt(&mut rand::thread_rng(), rsa::Pkcs1v15Encrypt, msg) {
        Ok(ciphertext) => Ok(ciphertext),
        Err(_) => Err(RsaFailure::EncryptFailed),
    }
}

} // verus!
