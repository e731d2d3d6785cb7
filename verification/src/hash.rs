//! 32-byte SHA-256 hashes, the pairwise combination used by Merkle trees and
//! the tagged hash that separates the protocol's hashing domains.

use sha2::Digest;
use vstd::prelude::*;
use vstd::string::StringSliceAdditionalSpecFns;

use crate::bytes::append_bytes;

verus! {

/// What SHA-256 yields for a byte string.
pub uninterp spec fn sha256_spec(data: Seq<u8>) -> Seq<u8>;

/// SHA-256 of `data`, computed by the `sha2` crate.
///
/// Trusted: `Sha256::digest` is taken to return `sha256_spec` of the input.
/// Its length, 32 bytes, is carried by the array type.
#[verifier::external_body]
pub(crate) fn sha256_digest(data: &[u8]) -> (r: [u8; 32])
    ensures
        r@ == sha256_spec(data@),
{
    sha2::Sha256::digest(data).into()
}

/// A 32-byte hash value.
#[derive(Clone, Copy, Debug, Eq)]
pub struct Hash(pub [u8; 32]);

impl View for Hash {
    type V = Seq<u8>;

    open spec fn view(&self) -> Seq<u8> {
        self.0@
    }
}

/// The hash of two hashes: SHA-256 over the left bytes followed by the right bytes.
pub open spec fn combine_spec(left: Seq<u8>, right: Seq<u8>) -> Seq<u8> {
    sha256_spec(left + right)
}

/// The BIP-340 style tagged hash: `SHA256(SHA256(tag) || SHA256(tag) || msg)`.
pub open spec fn tagged_hash_spec(tag: Seq<u8>, msg: Seq<u8>) -> Seq<u8> {
    sha256_spec(sha256_spec(tag) + sha256_spec(tag) + msg)
}

impl Hash {
    /// Wraps 32 raw bytes.
    pub fn new(bytes: [u8; 32]) -> (h: Hash)
        ensures
            h@ == bytes@,
    {
        Hash(bytes)
    }

    /// The all-zero hash.
    pub fn zero() -> (h: Hash)
        ensures
            h@ == Seq::new(32, |i: int| 0u8),
    {
        let h = Hash([0u8; 32]);
        assert(h@ =~= Seq::new(32, |i: int| 0u8));
        h
    }

    /// Borrows the raw bytes.
    pub fn as_bytes(&self) -> (b: &[u8; 32])
        ensures
            b@ == self@,
    {
        &self.0
    }

    /// Hashes two hashes together, left first.
    pub fn combine(left: &Hash, right: &Hash) -> (h: Hash)
        ensures
            h@ == combine_spec(left@, right@),
    {
        let mut buf: Vec<u8> = Vec::new();
        append_bytes(&mut buf, left.0.as_slice());
        append_bytes(&mut buf, right.0.as_slice());
        assert(buf@ =~= left@ + right@);
        Hash(sha256_digest(buf.as_slice()))
    }
}

impl Default for Hash {
    fn default() -> (h: Hash)
        ensures
            h@ == Seq::new(32, |i: int| 0u8),
    {
        Hash::zero()
    }
}

impl PartialEq for Hash {
    fn eq(&self, other: &Self) -> (r: bool) {
        let mut i: usize = 0;
        while i < 32
            invariant
                i <= 32,
                self@.len() == 32,
                other@.len() == 32,
                forall|j: int| 0 <= j < i ==> self@[j] == other@[j],
            decreases 32 - i,
        {
            if self.0[i] != other.0[i] {
                return false;
            }
            i = i + 1;
        }
        assert(self@ =~= other@);
        true
    }
}

impl vstd::std_specs::cmp::PartialEqSpecImpl for Hash {
    open spec fn obeys_eq_spec() -> bool {
        true
    }

    open spec fn eq_spec(&self, other: &Self) -> bool {
        self@ == other@
    }
}

/// The domain-separated hash of `msg` under the text tag `tag`.
pub fn tagged_hash(tag: &str, msg: &[u8]) -> (r: [u8; 32])
    ensures
        r@ == tagged_hash_spec(tag.spec_bytes(), msg@),
{
    let tag_hash = sha256_digest(tag.as_bytes());
    let mut buf: Vec<u8> = Vec::new();
    append_bytes(&mut buf, tag_hash.as_slice());
    append_bytes(&mut buf, tag_hash.as_slice());
    append_bytes(&mut buf, msg);
    sha256_digest(buf.as_slice())
}

} // verus!
