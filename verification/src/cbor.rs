//! The canonical CBOR encoding (RFC 8949, core deterministic form) of the
//! values that the protocol hashes: unsigned integers, text strings, and byte
//! strings written as arrays of small unsigned integers.

use vstd::prelude::*;
use vstd::string::StringSliceAdditionalSpecFns;

verus! {

/// The big-endian bytes of `n` in `k` bytes.
pub open spec fn be_bytes(n: nat, k: nat) -> Seq<u8>
    decreases k,
{
    if k == 0 {
        Seq::empty()
    } else {
        be_bytes(n / 256, (k - 1) as nat).push((n % 256) as u8)
    }
}

/// The shortest head of major type `major` for argument `n`.
pub open spec fn cbor_head(major: u8, n: nat) -> Seq<u8> {
    let m = (major * 32) as int;
    if n < 24 {
        seq![(m + n) as u8]
    } else if n < 0x100 {
        seq![(m + 24) as u8] + be_bytes(n, 1)
    } else if n < 0x10000 {
        seq![(m + 25) as u8] + be_bytes(n, 2)
    } else if n < 0x1_0000_0000 {
        seq![(m + 26) as u8] + be_bytes(n, 4)
    } else {
        seq![(m + 27) as u8] + be_bytes(n, 8)
    }
}

/// An unsigned integer.
pub open spec fn cbor_uint(n: nat) -> Seq<u8> {
    cbor_head(0, n)
}

/// A text string given by its UTF-8 bytes.
pub open spec fn cbor_text(utf8: Seq<u8>) -> Seq<u8> {
    cbor_head(3, utf8.len()) + utf8
}

/// The items of a byte array, each an unsigned integer.
pub open spec fn cbor_uint_items(bytes: Seq<u8>) -> Seq<u8>
    decreases bytes.len(),
{
    if bytes.len() == 0 {
        Seq::empty()
    } else {
        cbor_uint_items(bytes.drop_last()) + cbor_uint(bytes.last() as nat)
    }
}

/// A byte sequence written as an array of unsigned integers.
pub open spec fn cbor_byte_array(bytes: Seq<u8>) -> Seq<u8> {
    cbor_head(4, bytes.len()) + cbor_uint_items(bytes)
}

/// The head of a map with `n` entries.
pub open spec fn cbor_map_head(n: nat) -> Seq<u8> {
    cbor_head(5, n)
}

fn push_be(buf: &mut Vec<u8>, n: u64, k: u64)
    requires
        k <= 8,
    ensures
        final(buf)@ == old(buf)@ + be_bytes(n as nat, k as nat),
    decreases k,
{
    if k > 0 {
        push_be(buf, n / 256, k - 1);
        buf.push((n % 256) as u8);
    }
}

/// Appends the shortest head of major type `major` for argument `n`.
pub fn push_head(buf: &mut Vec<u8>, major: u8, n: u64)
    requires
        major < 8,
    ensures
        final(buf)@ == old(buf)@ + cbor_head(major, n as nat),
{
    let m: u8 = major * 32;
    let ghost start = buf@;
    if n < 24 {
        buf.push(m + n as u8);
        assert(buf@ =~= start + cbor_head(major, n as nat));
    } else if n < 0x100 {
        buf.push(m + 24);
        push_be(buf, n, 1);
        assert(buf@ =~= start + cbor_head(major, n as nat));
    } else if n < 0x10000 {
        buf.push(m + 25);
        push_be(buf, n, 2);
        assert(buf@ =~= start + cbor_head(major, n as nat));
    } else if n < 0x1_0000_0000 {
        buf.push(m + 26);
        push_be(buf, n, 4);
        assert(buf@ =~= start + cbor_head(major, n as nat));
    } else {
        buf.push(m + 27);
        push_be(buf, n, 8);
        assert(buf@ =~= start + cbor_head(major, n as nat));
    }
}

/// Appends an unsigned integer.
pub fn push_uint(buf: &mut Vec<u8>, n: u64)
    ensures
        final(buf)@ == old(buf)@ + cbor_uint(n as nat),
{
    push_head(buf, 0, n);
}

/// Appends a text string.
pub fn push_text(buf: &mut Vec<u8>, s: &str)
    ensures
        final(buf)@ == old(buf)@ + cbor_text(s.spec_bytes()),
{
    let bytes = s.as_bytes();
    let ghost start = buf@;
    push_head(buf, 3, bytes.len() as u64);
    crate::bytes::append_bytes(buf, bytes);
    assert(buf@ =~= start + cbor_text(s.spec_bytes()));
}

/// Appends a byte sequence as an array of unsigned integers.
pub fn push_byte_array(buf: &mut Vec<u8>, bytes: &[u8])
    ensures
        final(buf)@ == old(buf)@ + cbor_byte_array(bytes@),
{
    let ghost start = buf@;
    push_head(buf, 4, bytes.len() as u64);
    let ghost after_head = buf@;
    let mut i: usize = 0;
    while i < bytes.len()
        invariant
            i <= bytes@.len(),
            after_head == start + cbor_head(4, bytes@.len()),
            buf@ == after_head + cbor_uint_items(bytes@.subrange(0, i as int)),
        decreases bytes@.len() - i,
    {
        let ghost before = buf@;
        push_uint(buf, bytes[i] as u64);
        proof {
            let prefix = bytes@.subrange(0, i + 1);
            assert(prefix.drop_last() =~= bytes@.subrange(0, i as int));
            assert(prefix.last() == bytes@[i as int]);
            assert(buf@ =~= after_head + cbor_uint_items(prefix));
        }
        i = i + 1;
    }
    assert(bytes@.subrange(0, i as int) =~= bytes@);
    assert(buf@ =~= start + cbor_byte_array(bytes@));
}

} // verus!
