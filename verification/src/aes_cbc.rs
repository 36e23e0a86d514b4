//! AES-128-CBC encryption with PKCS#7 padding, through the `aes` and `cbc` crates.
use aes::cipher::block_padding::Pkcs7;
use aes::cipher::{BlockEncryptMut, KeyIvInit};
use vstd::prelude::*;

use crate::error::WeapiError;

verus! {

/// AES block size in bytes; also the key and IV length of AES-128-CBC.
pub const BLOCK_SIZE: usize = 16;

/// Length of `n` bytes after PKCS#7 padding to whole 16-byte blocks: PKCS#7
/// always adds between 1 and 16 bytes.
pub open spec fn pkcs7_padded_len(n: int) -> int {
    (n / 16 + 1) * 16
}

/// The AES-128-CBC ciphertext, PKCS#7 padded, of `plaintext` under `key` and `iv`.
pub uninterp spec fn aes128_cbc_pkcs7(key: Seq<u8>, iv: Seq<u8>, plaintext: Seq<u8>) -> Seq<u8>;

/// What `aes_encrypt` gives: the ciphertext when the key and the IV are 16
/// bytes each, else the error `AesCipher`.
pub open spec fn aes_encrypt_result(data: Seq<u8>, key: Seq<u8>, iv: Seq<u8>) -> Result<Seq<u8>, WeapiError> {
    if key.len() == 16 && iv.len() == 16 {
        Ok(aes128_cbc_pkcs7(key, iv, data))
    } else {
        Err(WeapiError::AesCipher)
    }
}

/// The views of a byte vector result.
pub open spec fn bytes_result_view(r: Result<Vec<u8>, WeapiError>) -> Result<Seq<u8>, WeapiError> {
    match r {
        Ok(v) => Ok(v@),
        Err(e) => Err(e),
    }
}

/// Encryption is deterministic: calls on equal data, keys and IVs give equal
/// results (no randomness is involved).
pub proof fn lemma_aes_encrypt_deterministic(
    data1: Seq<u8>,
    key1: Seq<u8>,
    iv1: Seq<u8>,
    data2: Seq<u8>,
    key2: Seq<u8>,
    iv2: Seq<u8>,
)
    requires
        data1 == data2,
        key1 == key2,
        iv1 == iv2,
    ensures
        aes_encrypt_result(data1, key1, iv1) == aes_encrypt_result(data2, key2, iv2),
{
}

/// How the in-place encryption failed.
pub enum CbcFailure {
    /// `new_from_slices` refused the key or the IV.
    InvalidKeyOrIv,
    /// `encrypt_padded_mut` found the buffer too short for the padded message.
    BufferTooSmall,
}

/// `cbc::Encryptor::<aes::Aes128>::new_from_slices(key, iv)` followed by
/// `encrypt_padded_mut::<Pkcs7>(buffer, msg_len)`.
/// Claimed, as the sources of `crypto-common`, `cipher` and `inout` show it:
/// the cipher is refused exactly when the key or the IV is not 16 bytes long;
/// encryption fails exactly when `msg_len` exceeds the buffer or the padded
/// length `16 * (msg_len / 16 + 1)` does; otherwise that many leading bytes of
/// the buffer are overwritten with the ciphertext of its first `msg_len` bytes,
/// and the buffer keeps its length. The ciphertext itself is given a name.
#[verifier::external_body]
fn aes128_cbc_encrypt_padded(key: &[u8], iv: &[u8], buffer: &mut Vec<u8>, msg_len: usize) -> (r:
    Result<usize, CbcFailure>)
    ensures
        final(buffer)@.len() == old(buffer)@.len(),
        match r {
            Err(CbcFailure::InvalidKeyOrIv) => !(key@.len() == 16 && iv@.len() == 16),
            Err(CbcFailure::BufferTooSmall) => key@.len() == 16 && iv@.len() == 16 && !(msg_len
                <= old(buffer)@.len() && pkcs7_padded_len(msg_len as int) <= old(buffer)@.len()),
            Ok(n) => {
                &&& key@.len() == 16
                &&& iv@.len() == 16
                &&& msg_len <= old(buffer)@.len()
                &&& n == pkcs7_padded_len(msg_len as int)
                &&& n <= old(buffer)@.len()
                &&& final(buffer)@.subrange(0, n as int) == aes128_cbc_pkcs7(
                    key@,
                    iv@,
                    old(buffer)@.subrange(0, msg_len as int),
                )
            },
        },
{
    match cbc::Encryptor::<aes::Aes128>::new_from_slices(key, iv) {
        Err(_) => Err(CbcFailure::InvalidKeyOrIv),
        Ok(cipher) => match cipher.encrypt_padded_mut::<Pkcs7>(buffer.as_mut_slice(), msg_len) {
            Ok(ciphertext) => Ok(ciphertext.len()),
            Err(_) => Err(CbcFailure::BufferTooSmall),
        },
    }
}

/// AES-128-CBC encryption of `data` with PKCS#7 padding.
///
/// The plaintext is copied into a buffer one block longer than itself, which
/// always has room for the padding, encrypted there in place, and the buffer
/// is cut to the ciphertext. The key and the IV must be 16 bytes each.
pub fn aes_encrypt(data: &[u8], key: &[u8], iv: &[u8]) -> (r: Result<Vec<u8>, WeapiError>)
    requires
        data@.len() + BLOCK_SIZE <= isize::MAX,
    ensures
        bytes_result_view(r) == aes_encrypt_result(data@, key@, iv@),
        match r {
            Ok(ciphertext) => {
                &&& key@.len() == 16
                &&& iv@.len() == 16
                &&& ciphertext@ == aes128_cbc_pkcs7(key@, iv@, data@)
                &&& ciphertext@.len() == pkcs7_padded_len(data@.len() as int)
            },
            Err(e) => e == WeapiError::AesCipher && !(key@.len() == 16 && iv@.len() == 16),
        },
{
    let msg_len = data.len();
    let mut buffer: Vec<u8> = vec![0u8; msg_len + BLOCK_SIZE];
    let mut i: usize = 0;
    while i < msg_len
        invariant
            msg_len == data@.len(),
            buffer@.len() == msg_len + BLOCK_SIZE,
            i <= msg_len,
            forall|j: int| 0 <= j < i ==> buffer@[j] == data@[j],
        decreases msg_len - i,
    {
        buffer.set(i, data[i]);
        i = i + 1;
    }
    assert(buffer@.subrange(0, msg_len as int) =~= data@);
    match aes128_cbc_encrypt_padded(key, iv, &mut buffer, msg_len) {
        Err(CbcFailure::InvalidKeyOrIv) => Err(WeapiError::AesCipher),
        Err(CbcFailure::BufferTooSmall) => Err(WeapiError::AesEncrypt),
        Ok(ciphertext_len) => {
            buffer.truncate(ciphertext_len);
            Ok(buffer)
        },
    }
}

} // verus!
