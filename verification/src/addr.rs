//! Participant addresses: 32-byte identities compared only for equality.

use vstd::prelude::*;

verus! {

use vstd::bytes::lemma_auto_spec_u64_to_from_le_bytes;
use vstd::bytes::spec_u64_from_le_bytes;
use vstd::bytes::spec_u64_to_le_bytes;
use vstd::bytes::u64_from_le_bytes;
use vstd::bytes::u64_to_le_bytes;
use vstd::slice::slice_subrange;

/// A 32-byte address, stored as four 64-bit words: word 0 holds bytes
/// 0..8 of the address in little-endian order, word 1 bytes 8..16, and
/// so on.
#[derive(Clone, Copy, Debug, PartialEq, Eq, Structural)]
pub struct Address {
    pub w0: u64,
    pub w1: u64,
    pub w2: u64,
    pub w3: u64,
}

/// The 32 raw bytes of an address.
pub open spec fn addr_bytes(a: Address) -> Seq<u8> {
    spec_u64_to_le_bytes(a.w0) + spec_u64_to_le_bytes(a.w1) + spec_u64_to_le_bytes(a.w2)
        + spec_u64_to_le_bytes(a.w3)
}

/// The address whose 32 raw bytes are `s`.
pub open spec fn addr_of_bytes(s: Seq<u8>) -> Address {
    Address {
        w0: spec_u64_from_le_bytes(s.subrange(0, 8)),
        w1: spec_u64_from_le_bytes(s.subrange(8, 16)),
        w2: spec_u64_from_le_bytes(s.subrange(16, 24)),
        w3: spec_u64_from_le_bytes(s.subrange(24, 32)),
    }
}

/// An address and its 32 bytes determine one another.
pub proof fn lemma_addr_bytes_roundtrip(a: Address)
    ensures
        addr_bytes(a).len() == 32,
        addr_of_bytes(addr_bytes(a)) == a,
{
    lemma_auto_spec_u64_to_from_le_bytes();
    assert(addr_bytes(a).subrange(0, 8) =~= spec_u64_to_le_bytes(a.w0));
    assert(addr_bytes(a).subrange(8, 16) =~= spec_u64_to_le_bytes(a.w1));
    assert(addr_bytes(a).subrange(16, 24) =~= spec_u64_to_le_bytes(a.w2));
    assert(addr_bytes(a).subrange(24, 32) =~= spec_u64_to_le_bytes(a.w3));
}

/// 32 bytes and the address they encode determine one another.
pub proof fn lemma_addr_of_bytes_roundtrip(s: Seq<u8>)
    requires
        s.len() == 32,
    ensures
        addr_bytes(addr_of_bytes(s)) == s,
{
    lemma_auto_spec_u64_to_from_le_bytes();
    assert(addr_bytes(addr_of_bytes(s)) =~= s);
}

impl Address {
    /// The 32 raw bytes of this address.
    pub fn to_bytes(&self) -> (r: Vec<u8>)
        ensures
            r@ == addr_bytes(*self),
            r@.len() == 32,
    {
        proof {
            lemma_auto_spec_u64_to_from_le_bytes();
        }
        let mut r = u64_to_le_bytes(self.w0);
        let mut r1 = u64_to_le_bytes(self.w1);
        let mut r2 = u64_to_le_bytes(self.w2);
        let mut r3 = u64_to_le_bytes(self.w3);
        r.append(&mut r1);
        r.append(&mut r2);
        r.append(&mut r3);
        proof {
            assert(r@ =~= addr_bytes(*self));
        }
        r
    }

    /// The address whose 32 raw bytes are `s`.
    pub fn from_bytes(s: &[u8]) -> (r: Address)
        requires
            s@.len() == 32,
        ensures
            r == addr_of_bytes(s@),
            addr_bytes(r) == s@,
    {
        let w0 = u64_from_le_bytes(slice_subrange(s, 0, 8));
        let w1 = u64_from_le_bytes(slice_subrange(s, 8, 16));
        let w2 = u64_from_le_bytes(slice_subrange(s, 16, 24));
        let w3 = u64_from_le_bytes(slice_subrange(s, 24, 32));
        let r = Address { w0, w1, w2, w3 };
        proof {
            lemma_auto_spec_u64_to_from_le_bytes();
            assert(addr_bytes(r) =~= s@);
        }
        r
    }
}

} // verus!
