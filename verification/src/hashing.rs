//! Header serialisation and the block hash derived from it.
//!
//! The block hash is the 256-bit BLAKE2b digest of the serialised header.
//! Serialisation is verified; the digest itself is an outside call whose
//! result is only named, never restated.

use vstd::prelude::*;
use blake2::Blake2b256;
use blake2::Digest;

use crate::block::Header;

verus! {

/// The 256-bit BLAKE2b digest of a byte string, named but not restated.
pub uninterp spec fn blake2b_256_of(bytes: Seq<u8>) -> Seq<u8>;

/// Relies on blake2::Blake2b256: the 32-byte digest depends on the input
/// bytes alone.
#[verifier::external_body]
fn blake2b_256(bytes: &Vec<u8>) -> (r: Vec<u8>)
    ensures
        r@ == blake2b_256_of(bytes@),
        r@.len() == 32,
{
    let digest = Blake2b256::digest(bytes.as_slice());
    digest.to_vec()
}

/// The eight bytes of `x` in little-endian order.
pub open spec fn u64_le_bytes(x: u64) -> Seq<u8> {
    seq![
        (x % 256) as u8,
        ((x / 256) % 256) as u8,
        ((x / 65536) % 256) as u8,
        ((x / 16777216) % 256) as u8,
        ((x / 4294967296) % 256) as u8,
        ((x / 1099511627776) % 256) as u8,
        ((x / 281474976710656) % 256) as u8,
        ((x / 72057594037927936) % 256) as u8,
    ]
}

/// Serialise `x` as eight little-endian bytes.
pub fn encode_u64_le(x: u64) -> (r: Vec<u8>)
    ensures
        r@ == u64_le_bytes(x),
{
    let mut r: Vec<u8> = Vec::new();
    r.push((x % 256) as u8);
    r.push(((x / 256) % 256) as u8);
    r.push(((x / 65536) % 256) as u8);
    r.push(((x / 16777216) % 256) as u8);
    r.push(((x / 4294967296) % 256) as u8);
    r.push(((x / 1099511627776) % 256) as u8);
    r.push(((x / 281474976710656) % 256) as u8);
    r.push(((x / 72057594037927936) % 256) as u8);
    proof {
        assert(r@ =~= u64_le_bytes(x));
    }
    r
}

/// A fresh vector holding the same bytes as `v`.
pub fn clone_bytes(v: &Vec<u8>) -> (r: Vec<u8>)
    ensures
        r@ == v@,
{
    let mut r: Vec<u8> = Vec::new();
    let mut i: usize = 0;
    while i < v.len()
        invariant
            i <= v@.len(),
            r@.len() == i,
            forall|j: int| 0 <= j < i ==> r@[j] == v@[j],
        decreases v@.len() - i,
    {
        r.push(v[i]);
        i = i + 1;
    }
    proof {
        assert(r@ =~= v@);
    }
    r
}

/// The serialised form of a header: parent reference, then the height in
/// little-endian order, then the remaining hash-computing fields.
pub open spec fn header_bytes(h: Header) -> Seq<u8> {
    h.parent_reference@ + u64_le_bytes(h.height) + h.payload@
}

/// The block hash of a header: the BLAKE2b digest of its serialised form.
pub open spec fn header_hash(h: Header) -> Seq<u8> {
    blake2b_256_of(header_bytes(h))
}

/// Serialise a header.
pub fn encode_header(h: &Header) -> (r: Vec<u8>)
    ensures
        r@ == header_bytes(*h),
{
    let mut out = clone_bytes(&h.parent_reference);
    let mut height_bytes = encode_u64_le(h.height);
    out.append(&mut height_bytes);
    let mut payload = clone_bytes(&h.payload);
    out.append(&mut payload);
    proof {
        assert(out@ =~= header_bytes(*h));
    }
    out
}

/// Compute the block hash of a header.
pub fn compute_header_hash(h: &Header) -> (r: Vec<u8>)
    ensures
        r@ == header_hash(*h),
        r@.len() == 32,
{
    let encoded = encode_header(h);
    blake2b_256(&encoded)
}

} // verus!
