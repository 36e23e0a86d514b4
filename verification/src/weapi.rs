//! The NetEase "weapi" encryption of a request text.
//!
//! The text is AES-128-CBC encrypted under a fixed preset key, the result is
//! encrypted again under a fresh random secret key, and the ciphertext is sent
//! Base64 encoded as `params`. The secret key, reversed, is RSA encrypted under
//! a fixed public key and sent hex encoded as `encSecKey`.
use vstd::prelude::*;
use vstd::string::{StringExecFns, StringSliceAdditionalSpecFns};

use crate::aes_cbc::{aes128_cbc_pkcs7, aes_encrypt, pkcs7_padded_len};
use crate::encoding::{
    base64_encode, base64_len, base64_standard, hex_encode, hex_lower, is_base64_char,
    is_lower_hex_char, lemma_base64_shape, lemma_hex_lower_shape,
};
use crate::error::WeapiError;
use crate::laws::{law_weapi_form_recoverable, weapi_form_recoverable};
use crate::rsa_key::{
    pem_public_key_accepted, pkcs1v15_ciphertext_of, pkcs1v15_encrypt_with_pem_key,
    rsa_modulus_len, RsaFailure, PUBLIC_KEY_PEM,
};
use crate::secret::{is_secret_key, lemma_reversed_secret_key, random_secret_key, reversed};

verus! {

/// The fixed AES key of the first encryption: the ASCII text `0CoJUm6Qyw8W8jud`.
pub const PRESET_KEY: [u8; 16] = [48, 67, 111, 74, 85, 109, 54, 81, 121, 119, 56, 87, 56, 106, 117, 100];

/// The AES IV of both encryptions: the ASCII text `0102030405060708`.
pub const IV: [u8; 16] = [48, 49, 48, 50, 48, 51, 48, 52, 48, 53, 48, 54, 48, 55, 48, 56];

/// The encrypted form of a request: the two form fields that are posted.
#[derive(Debug, Clone)]
pub struct WeapiForm {
    /// Base64 of the doubly AES encrypted request text.
    pub params: String,
    /// Lowercase hex of the RSA encrypted, reversed secret key.
    pub enc_sec_key: String,
}

/// The ciphertext sent as `params`: the text encrypted under the preset key,
/// then under the secret key, both with the fixed IV.
pub open spec fn params_cipher(text: Seq<u8>, secret_key: Seq<u8>) -> Seq<u8> {
    aes128_cbc_pkcs7(secret_key, IV@, aes128_cbc_pkcs7(PRESET_KEY@, IV@, text))
}

/// Length of `params_cipher` for a text of `n` bytes.
pub open spec fn params_cipher_len(n: int) -> int {
    pkcs7_padded_len(pkcs7_padded_len(n))
}

/// Whether the Base64 `params` of a text of `n` bytes fits in a `String`.
pub open spec fn weapi_text_fits(n: int) -> bool {
    base64_len(params_cipher_len(n)) <= isize::MAX
}

/// What a weapi encryption of `text` may give: for some well-formed secret
/// key, `params` is the Base64 of the text encrypted under the preset key and
/// then under the secret key, and `enc_sec_key` is the hex of an RSA PKCS#1
/// v1.5 encryption, under the fixed public key, of the secret key reversed.
pub open spec fn is_weapi_form_of(text: Seq<u8>, params: Seq<char>, enc_sec_key: Seq<char>) -> bool {
    exists|secret_key: Seq<u8>, rsa_cipher: Seq<u8>|
        #![trigger params_cipher(text, secret_key), hex_lower(rsa_cipher)]
        {
            &&& is_secret_key(secret_key)
            &&& pkcs1v15_ciphertext_of(PUBLIC_KEY_PEM@, secret_key.reverse(), rsa_cipher)
            &&& rsa_cipher.len() == rsa_modulus_len(PUBLIC_KEY_PEM@)
            &&& params == base64_standard(params_cipher(text, secret_key))
            &&& enc_sec_key == hex_lower(rsa_cipher)
        }
}

/// Whether the fixed public key can encrypt a reversed secret key: it is
/// accepted, and its modulus has room for 16 bytes plus the 11 bytes of
/// PKCS#1 v1.5 padding.
pub open spec fn public_key_usable() -> bool {
    pem_public_key_accepted(PUBLIC_KEY_PEM@) && rsa_modulus_len(PUBLIC_KEY_PEM@) >= 27
}

/// Whether a text of `n` bytes can be encrypted: the executable form of
/// `weapi_text_fits`.
pub fn weapi_accepts_len(n: usize) -> (b: bool)
    ensures
        b == weapi_text_fits(n as int),
{
    let n_wide = n as u128;
    let padded_twice: u128 = (n_wide / 16 + 2) * 16;
    let encoded: u128 = 4 * ((padded_twice + 2) / 3);
    assert(pkcs7_padded_len(pkcs7_padded_len(n as int)) == padded_twice);
    encoded <= isize::MAX as u128
}

/// The `params` ciphertext of `text` under `secret_key`. The secret key must be
/// 16 bytes long, else the AES cipher refuses it.
pub fn weapi_params(text: &[u8], secret_key: &[u8]) -> (r: Result<Vec<u8>, WeapiError>)
    requires
        weapi_text_fits(text@.len() as int),
    ensures
        match r {
            Ok(cipher) => {
                &&& secret_key@.len() == 16
                &&& cipher@ == params_cipher(text@, secret_key@)
                &&& cipher@.len() == params_cipher_len(text@.len() as int)
            },
            Err(e) => e == WeapiError::AesCipher && secret_key@.len() != 16,
        },
{
    let first = match aes_encrypt(text, &PRESET_KEY, &IV) {
        Ok(c) => c,
        Err(e) => return Err(e),
    };
    aes_encrypt(&first, secret_key, &IV)
}

/// The form of an encryption whose `params` ciphertext and RSA ciphertext are
/// given: Base64 of the first, lowercase hex of the second.
pub fn encrypted_form(params_cipher: &[u8], rsa_cipher: &[u8]) -> (form: WeapiForm)
    requires
        base64_len(params_cipher@.len() as int) <= isize::MAX,
        rsa_cipher@.len() <= usize::MAX / 4,
    ensures
        form.params@ == base64_standard(params_cipher@),
        form.enc_sec_key@ == hex_lower(rsa_cipher@),
{
    WeapiForm { params: base64_encode(params_cipher), enc_sec_key: hex_encode(rsa_cipher) }
}

/// Encrypts a request text (the JSON of a request) with the weapi scheme.
///
/// A fresh random secret key is drawn for every call. The only failures are
/// those of the RSA step: the public key is refused exactly when its PEM text
/// is not accepted, and encryption fails exactly when the key's modulus is too
/// small for the padded secret key. Otherwise the encryption succeeds.
pub fn weapi(text: &str) -> (r: Result<WeapiForm, WeapiError>)
    requires
        weapi_text_fits(text.spec_bytes().len() as int),
    ensures
        r matches Ok(form) ==> is_weapi_form_of(text.spec_bytes(), form.params@, form.enc_sec_key@),
        r matches Ok(form) ==> weapi_form_recoverable(text.spec_bytes(), form.params@, form.enc_sec_key@),
        r matches Ok(form) ==> {
            &&& form.params@.len() == base64_len(params_cipher_len(text.spec_bytes().len() as int))
            &&& forall|i: int| 0 <= i < form.params@.len() ==> is_base64_char(#[trigger] form.params@[i])
            &&& form.enc_sec_key@.len() == 2 * rsa_modulus_len(PUBLIC_KEY_PEM@)
            &&& form.enc_sec_key@.len() <= 1024
            &&& forall|i: int| 0 <= i < form.enc_sec_key@.len() ==> is_lower_hex_char(#[trigger] form.enc_sec_key@[i])
        },
        r matches Err(e) ==> e == WeapiError::PublicKey || e == WeapiError::RsaEncrypt,
        (r matches Err(WeapiError::PublicKey)) <==> !pem_public_key_accepted(PUBLIC_KEY_PEM@),
        (r matches Err(WeapiError::RsaEncrypt)) <==> pem_public_key_accepted(PUBLIC_KEY_PEM@)
            && rsa_modulus_len(PUBLIC_KEY_PEM@) < 27,
        r is Ok <==> public_key_usable(),
{
    let secret_key = random_secret_key();
    let text_bytes = text.as_bytes();
    let params = match weapi_params(text_bytes, &secret_key) {
        Ok(c) => c,
        Err(e) => return Err(e),
    };
    let reversed_key = reversed(&secret_key);
    let rsa_cipher = match pkcs1v15_encrypt_with_pem_key(PUBLIC_KEY_PEM, &reversed_key) {
        Ok(c) => c,
        Err(RsaFailure::KeyRejected) => return Err(WeapiError::PublicKey),
        Err(RsaFailure::EncryptFailed) => return Err(WeapiError::RsaEncrypt),
    };
    let form = encrypted_form(&params, &rsa_cipher);
    proof {
        lemma_base64_shape(params@);
        lemma_hex_lower_shape(rsa_cipher@);
        lemma_reversed_secret_key(secret_key@);
        assert(params_cipher(text_bytes@, secret_key@) == params@);
        assert(hex_lower(rsa_cipher@) == form.enc_sec_key@);
        law_weapi_form_recoverable(text_bytes@, form.params@, form.enc_sec_key@);
    }
    Ok(form)
}

impl WeapiForm {
    /// The form fields to post, in order: `params`, then `encSecKey`.
    pub fn form_fields(&self) -> (fields: Vec<(String, String)>)
        ensures
            fields@.len() == 2,
            fields@[0].0@ == "params"@,
            fields@[0].1@ == self.params@,
            fields@[1].0@ == "encSecKey"@,
            fields@[1].1@ == self.enc_sec_key@,
    {
        let mut fields: Vec<(String, String)> = Vec::new();
        fields.push((String::from_str("params"), self.params.clone()));
        fields.push((String::from_str("encSecKey"), self.enc_sec_key.clone()));
        fields
    }
}

} // verus!
