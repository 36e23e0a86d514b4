//! The random secret key of a weapi encryption: sixteen characters drawn from
//! the Base62 alphabet, through the `rand` crate.
use rand::Rng;
use vstd::prelude::*;

verus! {

/// Length of the secret key in bytes, which is also the AES-128 key length.
pub const SECRET_KEY_LEN: usize = 16;

/// Number of characters of the Base62 alphabet.
pub const BASE62_LEN: usize = 62;

/// The Base62 alphabet: `a-z`, then `A-Z`, then `0-9`.
pub const BASE62: [u8; 62] = [
    // a-z
    97, 98, 99, 100, 101, 102, 103, 104, 105, 106, 107, 108, 109, 110, 111, 112, 113, 114, 115, 116, 117, 118, 119, 120, 121, 122,
    // A-Z
    65, 66, 67, 68, 69, 70, 71, 72, 73, 74, 75, 76, 77, 78, 79, 80, 81, 82, 83, 84, 85, 86, 87, 88, 89, 90,
    // 0-9
    48, 49, 50, 51, 52, 53, 54, 55, 56, 57,
];

/// A byte of the Base62 alphabet.
pub open spec fn is_base62_byte(b: u8) -> bool {
    exists|i: int| 0 <= i < 62 && #[trigger] BASE62@[i] == b
}

/// A well-formed secret key: sixteen Base62 bytes.
pub open spec fn is_secret_key(key: Seq<u8>) -> bool {
    &&& key.len() == SECRET_KEY_LEN
    &&& forall|i: int| 0 <= i < key.len() ==> is_base62_byte(#[trigger] key[i])
}

/// `rand::thread_rng().gen_range(0..bound)`: a random index below `bound`.
/// Claimed: the result is below `bound` (the range is half open). Which
/// index comes out depends on the thread's random generator, so nothing more
/// is stated. An empty range panics, so `bound` must be positive.
#[verifier::external_body]
fn random_below(bound: usize) -> (r: usize)
    requires
        bound > 0,
    ensures
        r < bound,
{
    rand::thread_rng().gen_range(0..bound)
}

/// The secret key whose `i`-th byte is the Base62 character at `indices[i]`.
pub fn secret_key_from_indices(indices: &[usize]) -> (key: Vec<u8>)
    requires
        forall|i: int| 0 <= i < indices@.len() ==> #[trigger] indices@[i] < BASE62_LEN,
    ensures
        key@.len() == indices@.len(),
        forall|i: int| 0 <= i < indices@.len() ==> #[trigger] key@[i] == BASE62@[indices@[i] as int],
{
    let mut key: Vec<u8> = Vec::new();
    let mut i: usize = 0;
    while i < indices.len()
        invariant
            i <= indices@.len(),
            key@.len() == i,
            forall|j: int| 0 <= j < indices@.len() ==> #[trigger] indices@[j] < BASE62_LEN,
            forall|j: int| 0 <= j < i ==> #[trigger] key@[j] == BASE62@[indices@[j] as int],
        decreases indices@.len() - i,
    {
        key.push(BASE62[indices[i]]);
        i = i + 1;
    }
    key
}

/// A fresh random secret key: sixteen independent uniform draws from the
/// Base62 alphabet.
pub fn random_secret_key() -> (key: Vec<u8>)
    ensures
        is_secret_key(key@),
{
    let mut indices: Vec<usize> = Vec::new();
    let mut i: usize = 0;
    while i < SECRET_KEY_LEN
        invariant
            i <= SECRET_KEY_LEN,
            indices@.len() == i,
            forall|j: int| 0 <= j < i ==> #[trigger] indices@[j] < BASE62_LEN,
        decreases SECRET_KEY_LEN - i,
    {
        indices.push(random_below(BASE62_LEN));
        i = i + 1;
    }
    let key = secret_key_from_indices(&indices);
    assert forall|j: int| 0 <= j < key@.len() implies is_base62_byte(#[trigger] key@[j]) by {
        let k = indices@[j] as int;
        assert(BASE62@[k] == key@[j]);
    }
    key
}

/// A secret key read backwards is still a secret key: sixteen Base62 bytes.
pub proof fn lemma_reversed_secret_key(key: Seq<u8>)
    requires
        is_secret_key(key),
    ensures
        is_secret_key(key.reverse()),
{
    assert forall|i: int| 0 <= i < key.reverse().len() implies is_base62_byte(#[trigger] key.reverse()[i]) by {
        assert(key.reverse()[i] == key[key.len() - 1 - i]);
    }
}

/// The bytes of `bytes` in reverse order.
pub fn reversed(bytes: &[u8]) -> (r: Vec<u8>)
    ensures
        r@ == bytes@.reverse(),
{
    let n = bytes.len();
    let mut r: Vec<u8> = Vec::new();
    let mut i: usize = 0;
    while i < n
        invariant
            n == bytes@.len(),
            i <= n,
            r@.len() == i,
            forall|j: int| 0 <= j < i ==> #[trigger] r@[j] == bytes@[n - 1 - j],
        decreases n - i,
    {
        r.push(bytes[n - 1 - i]);
        i = i + 1;
    }
    assert(r@ =~= bytes@.reverse());
    r
}

} // verus!
