//! The SHA-1 digest, as the `sha1` crate computes it.
use crate::oid::DIGEST_SIZE;
use sha1::{Digest, Sha1};
use vstd::prelude::*;

verus! {

/// The SHA-1 digest of `data`. The algorithm is not written out here: this
/// names what `sha1::Sha1::digest` returns for the bytes `data`, which depends
/// on those bytes alone.
pub uninterp spec fn sha1_digest(data: Seq<u8>) -> [u8; DIGEST_SIZE];

/// Hashes `data` with `sha1::Sha1::digest`.
///
/// Trusted, not proved: the array returned holds the bytes of the SHA-1
/// digest of `data`. The crate returns them as a `GenericArray<u8, U20>`,
/// which converts to `[u8; 20]` byte for byte.
#[verifier::external_body]
pub(crate) fn sha1_of(data: &[u8]) -> (out: [u8; DIGEST_SIZE])
    ensures
        out == sha1_digest(data@),
{
    Sha1::digest(data).into()
}

} // verus!
