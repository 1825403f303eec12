//! Content checksums for migration scripts.
//!
//! A migration script's checksum is the SHA-512 digest of its UTF-8 bytes.
//! It is the unit of equality between a folder entry and a row in the
//! applied-migrations table.

use vstd::prelude::*;
use sha2::Digest;

verus! {

/// The SHA-512 digest of a script, as a function of its characters alone.
///
/// UTF-8 encoding is injective, so the digest of the encoded bytes is fully
/// determined by the character sequence.
pub uninterp spec fn sha512_of(script: Seq<char>) -> Seq<u8>;

/// Relies on sha2's Sha512: a 64-byte digest computed from the script's
/// bytes alone, the same bytes always giving the same digest.
#[verifier::external_body]
pub fn sha512_checksum(script: &str) -> (r: Vec<u8>)
    ensures
        r@ == sha512_of(script@),
        r@.len() == 64,
{
    sha2::Sha512::digest(script.as_bytes()).to_vec()
}

} // verus!
