//! The content hash by which a change of a file is noticed.

use std::hash::Hasher;
use twox_hash::XxHash64;
use vstd::prelude::*;

verus! {

/// The 64-bit xxHash of `data` with seed 0.
pub uninterp spec fn xxh64(data: Seq<u8>) -> u64;

/// `XxHash64::default`, `write` and `finish` of `twox_hash`: the digest of
/// the bytes, hashed in one piece with the default seed.
#[verifier::external_body]
pub(crate) fn xxh64_digest(data: &[u8]) -> (digest: u64)
    ensures
        digest == xxh64(data@),
{
    let mut hasher = XxHash64::default();
    hasher.write(data);
    hasher.finish()
}

/// The hash that stands for a file, given what reading it gave: the digest of
/// its bytes, or 0 where it could not be read.
pub open spec fn file_hash(read: Option<Seq<u8>>) -> u64 {
    match read {
        Some(data) => xxh64(data),
        None => 0,
    }
}

/// What reading a file gave, as its bytes.
pub open spec fn read_view(read: Option<Vec<u8>>) -> Option<Seq<u8>> {
    match read {
        Some(data) => Some(data@),
        None => None,
    }
}

/// Hashes what reading a file gave. A file that could not be read hashes
/// to 0.
pub fn hash_file(read: &Option<Vec<u8>>) -> (hash: u64)
    ensures
        hash == file_hash(read_view(*read)),
{
    match read {
        Some(data) => xxh64_digest(data.as_slice()),
        None => 0,
    }
}

/// Files with the same contents have the same hash, and so have two files
/// that both cannot be read.
pub proof fn lemma_hash_consistent(a: Option<Seq<u8>>, b: Option<Seq<u8>>)
    requires
        a is Some <==> b is Some,
        a is Some ==> a->0 =~= b->0,
    ensures
        file_hash(a) == file_hash(b),
{
}

} // verus!
