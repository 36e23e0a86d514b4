//! What a weapi form and a request body are for, stated from the side that
//! reads them: the service hex-decodes `encSecKey`, RSA-decrypts it, reverses
//! the result to get the secret key, and uses that key as the outer AES layer
//! of `params` over the preset-key layer. These laws state that from the
//! encryption names and the encodings alone, apart from the definitions the
//! functions are checked against, and prove that those definitions meet them.
use vstd::prelude::*;

use crate::aes_cbc::aes128_cbc_pkcs7;
use crate::encoding::{hex_digit, hex_lower, base64_standard};
use crate::login_cellphone::country_code_or_default;
use crate::rsa_key::{pkcs1v15_ciphertext_of, PUBLIC_KEY_PEM};
use crate::secret::is_secret_key;
use crate::weapi::{is_weapi_form_of, IV, PRESET_KEY};

verus! {

/// The value of a lowercase hexadecimal digit.
pub open spec fn hex_value(c: char) -> int {
    if c <= '9' {
        c as int - 48
    } else {
        c as int - 87
    }
}

/// Decoding of lowercase hexadecimal text: each pair of digits, high nibble
/// first, gives one byte.
pub open spec fn hex_decode(text: Seq<char>) -> Seq<u8> {
    Seq::new(text.len() / 2, |i: int| (16 * hex_value(text[2 * i]) + hex_value(text[2 * i + 1])) as u8)
}

/// Hex encoding loses nothing: decoding gives the bytes back.
pub proof fn law_hex_round_trip(bytes: Seq<u8>)
    ensures
        hex_decode(hex_lower(bytes)) == bytes,
{
    let h = hex_lower(bytes);
    assert forall|i: int| 0 <= i < bytes.len() implies #[trigger] hex_decode(h)[i] == bytes[i] by {
        let b = bytes[i] as int;
        let hi = b / 16;
        let lo = b % 16;
        assert(h[2 * i] == hex_digit(hi));
        assert(h[2 * i + 1] == hex_digit(lo));
        assert(hex_value(hex_digit(hi)) == hi);
        assert(hex_value(hex_digit(lo)) == lo);
    }
    assert(hex_decode(h) =~= bytes);
}

/// What the service can do with a form of `text`: `encSecKey` is lowercase hex
/// of an RSA PKCS#1 v1.5 ciphertext under the fixed public key; the message
/// under it, read backwards, is a secret key; and `params` is the Base64 of the
/// text encrypted under the preset key and then, as the outer layer, under that
/// secret key.
pub open spec fn weapi_form_recoverable(text: Seq<u8>, params: Seq<char>, enc_sec_key: Seq<char>) -> bool {
    &&& enc_sec_key == hex_lower(hex_decode(enc_sec_key))
    &&& exists|rsa_plain: Seq<u8>|
        #![trigger pkcs1v15_ciphertext_of(PUBLIC_KEY_PEM@, rsa_plain, hex_decode(enc_sec_key))]
        {
            &&& pkcs1v15_ciphertext_of(PUBLIC_KEY_PEM@, rsa_plain, hex_decode(enc_sec_key))
            &&& is_secret_key(rsa_plain.reverse())
            &&& params == base64_standard(
                aes128_cbc_pkcs7(rsa_plain.reverse(), IV@, aes128_cbc_pkcs7(PRESET_KEY@, IV@, text)),
            )
        }
}

/// Every weapi form of a text can be read by the service: the RSA message
/// under the hex-decoded `encSecKey`, reversed, is the key of the outer AES
/// layer of `params`, whose inner layer is the preset key over the text.
pub proof fn law_weapi_form_recoverable(text: Seq<u8>, params: Seq<char>, enc_sec_key: Seq<char>)
    requires
        is_weapi_form_of(text, params, enc_sec_key),
    ensures
        weapi_form_recoverable(text, params, enc_sec_key),
{
    let (secret_key, rsa_cipher): (Seq<u8>, Seq<u8>) = choose|secret_key: Seq<u8>, rsa_cipher: Seq<u8>|
        #![trigger crate::weapi::params_cipher(text, secret_key), hex_lower(rsa_cipher)]
        {
            &&& is_secret_key(secret_key)
            &&& pkcs1v15_ciphertext_of(PUBLIC_KEY_PEM@, secret_key.reverse(), rsa_cipher)
            &&& rsa_cipher.len() == crate::rsa_key::rsa_modulus_len(PUBLIC_KEY_PEM@)
            &&& params == base64_standard(crate::weapi::params_cipher(text, secret_key))
            &&& enc_sec_key == hex_lower(rsa_cipher)
        };
    law_hex_round_trip(rsa_cipher);
    let rsa_plain = secret_key.reverse();
    assert(rsa_plain.reverse() =~= secret_key);
    assert(pkcs1v15_ciphertext_of(PUBLIC_KEY_PEM@, rsa_plain, hex_decode(enc_sec_key)));
}

/// A country code that the caller gives is carried unchanged, whatever its
/// length or content.
pub proof fn law_given_country_code_kept(code: &str)
    ensures
        country_code_or_default(Some(code)) == code@,
{
}

} // verus!
