//! Byte encodings of the plain values that feed the address derivation:
//! 64-bit words as little- and big-endian bytes, and whole addresses as
//! their 32-byte form.

use crate::state::Address;
use vstd::bytes::lemma_auto_spec_u64_to_from_le_bytes;
use vstd::bytes::spec_u64_to_le_bytes;
use vstd::bytes::u64_from_le_bytes;
use vstd::bytes::u64_to_le_bytes;
use vstd::prelude::*;
use vstd::slice::slice_subrange;

verus! {

/// The big-endian bytes of a 64-bit word: its little-endian bytes reversed.
pub open spec fn spec_u64_to_be_bytes(x: u64) -> Seq<u8> {
    spec_u64_to_le_bytes(x).reverse()
}

/// Returns the eight big-endian bytes of `x`.
pub fn u64_to_be_bytes_vec(x: u64) -> (r: Vec<u8>)
    ensures
        r@ == spec_u64_to_be_bytes(x),
        r@.len() == 8,
{
    proof {
        lemma_auto_spec_u64_to_from_le_bytes();
    }
    let le = u64_to_le_bytes(x);
    let mut r: Vec<u8> = Vec::new();
    let mut i: usize = 0;
    while i < 8
        invariant
            le@ == spec_u64_to_le_bytes(x),
            le@.len() == 8,
            i <= 8,
            r@.len() == i,
            forall|k: int| 0 <= k < i ==> r@[k] == le@[7 - k],
        decreases 8 - i,
    {
        r.push(le[7 - i]);
        i = i + 1;
    }
    assert(r@ =~= spec_u64_to_le_bytes(x).reverse());
    r
}

/// Returns the 32-byte form of an address: the little-endian bytes of its
/// four words in order.
pub fn addr_to_bytes(a: &Address) -> (r: Vec<u8>)
    ensures
        r@ == a@,
        r@.len() == 32,
{
    proof {
        lemma_auto_spec_u64_to_from_le_bytes();
    }
    let mut r = u64_to_le_bytes(a.w0);
    let mut b1 = u64_to_le_bytes(a.w1);
    let mut b2 = u64_to_le_bytes(a.w2);
    let mut b3 = u64_to_le_bytes(a.w3);
    r.append(&mut b1);
    r.append(&mut b2);
    r.append(&mut b3);
    r
}

/// Reads an address back from its 32-byte form; anything but exactly 32
/// bytes is rejected.
pub fn addr_from_bytes(b: &Vec<u8>) -> (r: Option<Address>)
    ensures
        r is Some <==> b@.len() == 32,
        r matches Some(a) ==> a@ == b@,
{
    if b.len() != 32 {
        return None;
    }
    proof {
        lemma_auto_spec_u64_to_from_le_bytes();
    }
    let s = b.as_slice();
    let w0 = u64_from_le_bytes(slice_subrange(s, 0, 8));
    let w1 = u64_from_le_bytes(slice_subrange(s, 8, 16));
    let w2 = u64_from_le_bytes(slice_subrange(s, 16, 24));
    let w3 = u64_from_le_bytes(slice_subrange(s, 24, 32));
    let a = Address { w0, w1, w2, w3 };
    assert(a@ =~= b@);
    Some(a)
}

/// An address survives the round trip through its 32-byte form.
pub proof fn lemma_addr_bytes_injective(a1: Address, a2: Address)
    requires
        a1@ == a2@,
    ensures
        a1 == a2,
{
    lemma_auto_spec_u64_to_from_le_bytes();
    assert(a1@.subrange(0, 8) =~= spec_u64_to_le_bytes(a1.w0));
    assert(a1@.subrange(8, 16) =~= spec_u64_to_le_bytes(a1.w1));
    assert(a1@.subrange(16, 24) =~= spec_u64_to_le_bytes(a1.w2));
    assert(a1@.subrange(24, 32) =~= spec_u64_to_le_bytes(a1.w3));
    assert(a2@.subrange(0, 8) =~= spec_u64_to_le_bytes(a2.w0));
    assert(a2@.subrange(8, 16) =~= spec_u64_to_le_bytes(a2.w1));
    assert(a2@.subrange(16, 24) =~= spec_u64_to_le_bytes(a2.w2));
    assert(a2@.subrange(24, 32) =~= spec_u64_to_le_bytes(a2.w3));
}

} // verus!
