//! Content hashing: the SHA-512 digest that addresses every stored text.

use sha2::Digest;
use vstd::prelude::*;

verus! {

/// Length in bytes of every hash in the system.
pub const HASH_LENGTH: usize = 64;

/// The SHA-512 digest of `data`, as `sha2` computes it.
pub uninterp spec fn sha512_digest(data: Seq<u8>) -> Seq<u8>;

/// The hash under which a text is stored: the digest of its UTF-8 encoding.
pub open spec fn text_digest(text: Seq<char>) -> Seq<u8> {
    sha512_digest(vstd::utf8::encode_utf8(text))
}

/// Calls `sha2::Sha512::digest` (the one-shot form of the `Digest` trait).
/// Trusted: the result is the digest of the bytes given, a function of those
/// bytes alone, and is 64 bytes long, the output size of SHA-512.
#[verifier::external_body]
fn sha512(data: &[u8]) -> (hash: Vec<u8>)
    ensures
        hash@ == sha512_digest(data@),
        hash@.len() == HASH_LENGTH,
{
    sha2::Sha512::digest(data).to_vec()
}

/// Hashes a text.
pub fn sha512_hash(text: &String) -> (hash: Vec<u8>)
    ensures
        hash@ == text_digest(text@),
        hash@.len() == HASH_LENGTH,
{
    sha512(text.as_str().as_bytes())
}

/// Writes the hash `src` over the hash `dest`, which has the same length.
#[inline]
pub fn replace_hash(dest: &mut Vec<u8>, src: &[u8])
    requires
        old(dest)@.len() == src@.len(),
    ensures
        final(dest)@ == src@,
{
    let mut i: usize = 0;
    while i < src.len()
        invariant
            i <= src@.len(),
            dest@.len() == src@.len(),
            forall|j: int| 0 <= j < i ==> dest@[j] == src@[j],
        decreases src@.len() - i,
    {
        dest[i] = src[i];
        i += 1;
    }
    assert(dest@ =~= src@);
}

} // verus!
