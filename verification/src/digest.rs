//! The hash that address suffixes are cut from.
//!
//! Addresses are built from SHA-512 digests. The digest itself is computed by
//! the `sha2` crate; this module names its result and offers the two steps
//! that follow it: keeping the leading bytes of a digest, and hashing and
//! cutting in one.

use vstd::prelude::*;
use vstd::slice::slice_subrange;
use vstd::slice::slice_to_vec;
use sha2::Digest;
use sha2::Sha512;

verus! {

/// The number of bytes in a digest.
pub const DIGEST_LEN: usize = 64;

/// The SHA-512 digest of `message`.
pub uninterp spec fn sha512(message: Seq<u8>) -> Seq<u8>;

/// The first `n` bytes of `digest`.
pub open spec fn leading(digest: Seq<u8>, n: int) -> Seq<u8> {
    digest.subrange(0, n)
}

/// Calls `Sha512::digest` of the `sha2` crate and copies the output into a
/// vector. Trusted: the result is the SHA-512 digest of `message`, a function
/// of the message alone, and it is 64 bytes long, the output size that `sha2`
/// declares for `Sha512`.
#[verifier::external_body]
pub(crate) fn sha512_digest(message: &[u8]) -> (digest: Vec<u8>)
    ensures
        digest@ == sha512(message@),
        digest@.len() == DIGEST_LEN,
{
    Sha512::digest(message).to_vec()
}

/// Copies the first `n` bytes of `digest`.
///
/// Asking for more bytes than the digest holds is a caller's error, ruled out
/// here rather than answered with a shorter slice.
pub fn leading_bytes(digest: &[u8], n: usize) -> (slice: Vec<u8>)
    requires
        n <= digest@.len(),
    ensures
        slice@ == leading(digest@, n as int),
        slice@.len() == n,
{
    slice_to_vec(slice_subrange(digest, 0, n))
}

/// Hashes `input` and keeps the first `n` bytes of the digest.
pub fn hash_and_slice(input: &[u8], n: usize) -> (slice: Vec<u8>)
    requires
        n <= DIGEST_LEN,
    ensures
        slice@ == leading(sha512(input@), n as int),
        slice@.len() == n,
        sha512(input@).len() == DIGEST_LEN,
{
    let digest = sha512_digest(input);
    leading_bytes(digest.as_slice(), n)
}

} // verus!
