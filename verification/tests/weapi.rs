use music_w::aes_cbc::aes_encrypt;
use music_w::error::WeapiError;
use music_w::secret::{random_secret_key, reversed, secret_key_from_indices, BASE62};
use music_w::weapi::{encrypted_form, weapi, weapi_accepts_len, weapi_params, IV, PRESET_KEY};

fn unhex(s: &str) -> Vec<u8> {
    (0..s.len()).step_by(2).map(|i| u8::from_str_radix(&s[i..i + 2], 16).unwrap()).collect()
}

#[test]
fn aes_encrypt_matches_nist_vector_and_pads() {
    // NIST SP 800-38A F.2.1, first block.
    let key = unhex("2b7e151628aed2a6abf7158809cf4f3c");
    let iv = unhex("000102030405060708090a0b0c0d0e0f");
    let plain = unhex("6bc1bee22e409f96e93d7e117393172a");
    let cipher = aes_encrypt(&plain, &key, &iv).unwrap();
    assert_eq!(cipher.len(), 32);
    assert_eq!(&cipher[..16], &unhex("7649abac8119b246cee98e9b12e9197d")[..]);
}

#[test]
fn aes_encrypt_lengths() {
    let key = [7u8; 16];
    for n in [0usize, 1, 15, 16, 17, 31, 32, 100] {
        let data = vec![0x41u8; n];
        let cipher = aes_encrypt(&data, &key, &IV).unwrap();
        assert_eq!(cipher.len(), (n / 16 + 1) * 16);
    }
}

#[test]
fn aes_encrypt_refuses_bad_key_or_iv() {
    assert_eq!(aes_encrypt(b"abc", &[1u8; 15], &IV), Err(WeapiError::AesCipher));
    assert_eq!(aes_encrypt(b"abc", &[1u8; 32], &IV), Err(WeapiError::AesCipher));
    assert_eq!(aes_encrypt(b"abc", &PRESET_KEY, &[0u8; 8]), Err(WeapiError::AesCipher));
}

#[test]
fn preset_key_and_iv() {
    assert_eq!(&PRESET_KEY, b"0CoJUm6Qyw8W8jud");
    assert_eq!(&IV, b"0102030405060708");
    assert_eq!(
        &BASE62[..],
        &b"abcdefghijklmnopqrstuvwxyzABCDEFGHIJKLMNOPQRSTUVWXYZ0123456789"[..]
    );
}

#[test]
fn weapi_params_is_double_encryption() {
    let text = br#"{"a":"b"}"#;
    let secret = b"abcdefghijklmnop";
    let params = weapi_params(text, secret).unwrap();
    let first = aes_encrypt(text, &PRESET_KEY, &IV).unwrap();
    let second = aes_encrypt(&first, secret, &IV).unwrap();
    assert_eq!(params, second);
    assert_eq!(params.len(), 32);
    assert_eq!(weapi_params(text, b"short"), Err(WeapiError::AesCipher));
}

#[test]
fn encrypted_form_encodes_base64_and_hex() {
    let form = encrypted_form(b"foo", &[0xde, 0xad, 0x01]);
    assert_eq!(form.params, "Zm9v");
    assert_eq!(form.enc_sec_key, "dead01");
    assert_eq!(encrypted_form(b"f", b"").params, "Zg==");
    assert_eq!(encrypted_form(b"fo", b"").params, "Zm8=");
    assert_eq!(encrypted_form(b"", b"").params, "");
    assert_eq!(encrypted_form(&[0xfb, 0xff, 0xbf], &[0x0f]).params, "+/+/");
    assert_eq!(encrypted_form(&[0xfb, 0xff, 0xbf], &[0x0f]).enc_sec_key, "0f");
    let fields = form.form_fields();
    assert_eq!(
        fields,
        vec![
            ("params".to_string(), "Zm9v".to_string()),
            ("encSecKey".to_string(), "dead01".to_string()),
        ]
    );
}

#[test]
fn secret_keys_are_base62() {
    assert_eq!(secret_key_from_indices(&[0, 25, 26, 51, 52, 61]), b"azAZ09".to_vec());
    for _ in 0..20 {
        let key = random_secret_key();
        assert_eq!(key.len(), 16);
        assert!(key.iter().all(|b| b.is_ascii_alphanumeric()));
    }
}

#[test]
fn reversed_reverses() {
    assert_eq!(reversed(b"abc"), b"cba".to_vec());
    assert_eq!(reversed(b""), Vec::<u8>::new());
    assert_eq!(reversed(&reversed(b"0123456789abcdef")), b"0123456789abcdef".to_vec());
}

#[test]
fn weapi_accepts_ordinary_lengths() {
    assert!(weapi_accepts_len(0));
    assert!(weapi_accepts_len(1 << 20));
    assert!(!weapi_accepts_len(usize::MAX));
    assert!(!weapi_accepts_len(usize::MAX / 4 * 3));
}

#[test]
fn weapi_form_shape() {
    let text = r#"{"ctcode":"86","secrete":"music_middleuser_pclogin","cellphone":"13800138000"}"#;
    let form = weapi(text).unwrap();
    let cipher_len = (text.len() / 16 + 2) * 16;
    assert_eq!(form.params.len(), 4 * ((cipher_len + 2) / 3));
    assert!(form.params.chars().all(|c| c.is_ascii_alphanumeric() || c == '+' || c == '/' || c == '='));
    assert_eq!(form.enc_sec_key.len(), 256);
    assert!(form.enc_sec_key.chars().all(|c| c.is_ascii_digit() || ('a'..='f').contains(&c)));
    // A fresh secret key is drawn every time.
    let again = weapi(text).unwrap();
    assert_ne!(form.params, again.params);
}
