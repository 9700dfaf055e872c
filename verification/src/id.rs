//! Identifiers, change keys and the digest under which a change key is kept.

use rand::distributions::{Alphanumeric, DistString};
use sha2::{Digest, Sha256};
use vstd::prelude::*;
use vstd::slice::slice_to_vec;
use vstd::utf8::encode_utf8;

verus! {

/// Length of a file identifier unless configured otherwise.
pub const DEFAULT_ID_LENGTH: usize = 10;

/// Length of a change key unless configured otherwise.
pub const DEFAULT_CHANGE_KEY_LENGTH: usize = 64;

/// Number of bytes in the digest of a change key.
pub const DIGEST_LENGTH: usize = 32;

/// The SHA-256 digest of a byte string.
pub uninterp spec fn sha256_digest(data: Seq<u8>) -> [u8; 32];

/// An ASCII letter or digit.
pub open spec fn is_alphanumeric(c: char) -> bool {
    ('0' <= c && c <= '9') || ('A' <= c && c <= 'Z') || ('a' <= c && c <= 'z')
}

/// A text of exactly `len` characters, all of them letters or digits.
pub open spec fn is_token(text: Seq<char>, len: nat) -> bool {
    &&& text.len() == len
    &&& forall|i: int| 0 <= i < text.len() ==> is_alphanumeric(#[trigger] text[i])
}

/// What is stored in place of a change key: the digest of its UTF-8 bytes.
pub open spec fn key_digest(key: Seq<char>) -> Seq<u8> {
    sha256_digest(encode_utf8(key))@
}

/// The digest of a change key has `DIGEST_LENGTH` bytes.
pub proof fn key_digest_length(key: Seq<char>)
    ensures
        key_digest(key).len() == DIGEST_LENGTH,
{
}

/// Calls `rand`'s `Alphanumeric.sample_string` on the thread-local generator.
/// The claim: the string has `len` characters, each drawn from the letters
/// and digits of ASCII. Which ones is left open. No string is longer than
/// `isize::MAX` bytes, so no longer one is asked for.
#[verifier::external_body]
fn random_alphanumeric(len: usize) -> (text: String)
    requires
        len <= isize::MAX,
    ensures
        is_token(text@, len as nat),
{
    Alphanumeric.sample_string(&mut rand::thread_rng(), len)
}

/// Feeds `data` to `sha2`'s `Sha256` and returns the finished digest.
/// The claim: the result is the SHA-256 digest of `data`.
#[verifier::external_body]
fn sha256(data: &[u8]) -> (digest: [u8; 32])
    ensures
        digest == sha256_digest(data@),
{
    let mut hasher = Sha256::new();
    hasher.update(data);
    hasher.finalize().into()
}

/// A fresh random identifier of `id_length` letters and digits.
pub fn generate_file_id(id_length: usize) -> (id: String)
    requires
        id_length <= isize::MAX,
    ensures
        is_token(id@, id_length as nat),
{
    random_alphanumeric(id_length)
}

/// A fresh random change key of `change_key_length` letters and digits.
pub fn generate_change_key(change_key_length: usize) -> (key: String)
    requires
        change_key_length <= isize::MAX,
    ensures
        is_token(key@, change_key_length as nat),
{
    random_alphanumeric(change_key_length)
}

/// The 32-byte digest of a change key.
pub fn hash_change_key(key: &str) -> (digest: Vec<u8>)
    ensures
        digest@ == key_digest(key@),
        digest@.len() == DIGEST_LENGTH,
{
    let digest = sha256(key.as_bytes());
    slice_to_vec(digest.as_slice())
}

/// Whether two byte strings are equal, byte for byte.
pub fn same_bytes(left: &[u8], right: &[u8]) -> (same: bool)
    ensures
        same == (left@ == right@),
{
    if left.len() != right.len() {
        return false;
    }
    let mut i: usize = 0;
    while i < left.len()
        invariant
            left@.len() == right@.len(),
            0 <= i <= left@.len(),
            forall|j: int| 0 <= j < i ==> left@[j] == right@[j],
        decreases left@.len() - i,
    {
        if left[i] != right[i] {
            return false;
        }
        i += 1;
    }
    assert(left@ =~= right@);
    true
}

} // verus!
