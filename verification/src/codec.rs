//! The record's persisted form: a fixed eight-byte storage header, the
//! three addresses, and the amount in little-endian order — 112 bytes in
//! all, whatever the record holds.

use vstd::prelude::*;

verus! {

use vstd::bytes::lemma_auto_spec_u64_to_from_le_bytes;
use vstd::bytes::spec_u64_from_le_bytes;
use vstd::bytes::spec_u64_to_le_bytes;
use vstd::bytes::u64_from_le_bytes;
use vstd::bytes::u64_to_le_bytes;
use vstd::slice::slice_index_get;
use vstd::slice::slice_subrange;
use crate::addr::addr_bytes;
use crate::addr::addr_of_bytes;
use crate::addr::lemma_addr_bytes_roundtrip;
use crate::addr::lemma_addr_of_bytes_roundtrip;
use crate::addr::Address;
use crate::allowance::DelegateAllowance;
use crate::allowance::ErrorCode;

/// The fixed storage header that marks a byte string as an allowance
/// record.
pub open spec fn record_tag() -> Seq<u8> {
    seq![123u8, 145u8, 11u8, 106u8, 57u8, 249u8, 95u8, 33u8]
}

/// The persisted bytes of a record: header, owner, token account,
/// delegate, amount.
pub open spec fn record_bytes(a: DelegateAllowance) -> Seq<u8> {
    record_tag() + addr_bytes(a.owner) + addr_bytes(a.token_account) + addr_bytes(a.delegate)
        + spec_u64_to_le_bytes(a.amount)
}

/// The record encoded in 112 bytes (meaningful where the header matches).
pub open spec fn record_of_bytes(s: Seq<u8>) -> DelegateAllowance {
    DelegateAllowance {
        owner: addr_of_bytes(s.subrange(8, 40)),
        token_account: addr_of_bytes(s.subrange(40, 72)),
        delegate: addr_of_bytes(s.subrange(72, 104)),
        amount: spec_u64_from_le_bytes(s.subrange(104, 112)),
    }
}

/// Whether a byte string is exactly one record long and begins with the
/// record header.
pub open spec fn has_record_tag(s: Seq<u8>) -> bool {
    s.len() == 112 && s.subrange(0, 8) == record_tag()
}

/// Write a record in its persisted form.
pub fn record_to_bytes(a: &DelegateAllowance) -> (r: Vec<u8>)
    ensures
        r@ == record_bytes(*a),
        r@.len() == 112,
{
    let mut r: Vec<u8> = vec![123u8, 145u8, 11u8, 106u8, 57u8, 249u8, 95u8, 33u8];
    let mut owner = a.owner.to_bytes();
    let mut token_account = a.token_account.to_bytes();
    let mut delegate = a.delegate.to_bytes();
    let mut amount = u64_to_le_bytes(a.amount);
    r.append(&mut owner);
    r.append(&mut token_account);
    r.append(&mut delegate);
    r.append(&mut amount);
    proof {
        lemma_addr_bytes_roundtrip(a.owner);
        lemma_addr_bytes_roundtrip(a.token_account);
        lemma_addr_bytes_roundtrip(a.delegate);
        lemma_auto_spec_u64_to_from_le_bytes();
        assert(r@ =~= record_bytes(*a));
    }
    r
}

/// Read a record back from its persisted bytes. Anything that is not
/// exactly one record long under the record header is refused as
/// `InvalidAccount`.
pub fn record_from_bytes(s: &[u8]) -> (r: Result<DelegateAllowance, ErrorCode>)
    ensures
        has_record_tag(s@) ==> r == Ok::<DelegateAllowance, ErrorCode>(record_of_bytes(s@)),
        !has_record_tag(s@) ==> r == Err::<DelegateAllowance, ErrorCode>(
            ErrorCode::InvalidAccount,
        ),
{
    if s.len() != 112 {
        return Err(ErrorCode::InvalidAccount);
    }
    let tag: Vec<u8> = vec![123u8, 145u8, 11u8, 106u8, 57u8, 249u8, 95u8, 33u8];
    proof {
        assert(tag@ =~= record_tag());
    }
    let mut i: usize = 0;
    while i < 8
        invariant
            i <= 8,
            s@.len() == 112,
            tag@ == record_tag(),
            forall|j: int| 0 <= j < i ==> s@[j] == record_tag()[j],
        decreases 8 - i,
    {
        if *slice_index_get(s, i) != tag[i] {
            proof {
                assert(s@.subrange(0, 8)[i as int] != record_tag()[i as int]);
            }
            return Err(ErrorCode::InvalidAccount);
        }
        i += 1;
    }
    proof {
        assert(s@.subrange(0, 8) =~= record_tag());
    }
    let owner = Address::from_bytes(slice_subrange(s, 8, 40));
    let token_account = Address::from_bytes(slice_subrange(s, 40, 72));
    let delegate = Address::from_bytes(slice_subrange(s, 72, 104));
    let amount = u64_from_le_bytes(slice_subrange(s, 104, 112));
    Ok(DelegateAllowance { owner, token_account, delegate, amount })
}

/// Writing a record and reading it back yields the record.
pub proof fn lemma_record_roundtrip(a: DelegateAllowance)
    ensures
        has_record_tag(record_bytes(a)),
        record_of_bytes(record_bytes(a)) == a,
{
    lemma_auto_spec_u64_to_from_le_bytes();
    lemma_addr_bytes_roundtrip(a.owner);
    lemma_addr_bytes_roundtrip(a.token_account);
    lemma_addr_bytes_roundtrip(a.delegate);
    let s = record_bytes(a);
    assert(s.subrange(0, 8) =~= record_tag());
    assert(s.subrange(8, 40) =~= addr_bytes(a.owner));
    assert(s.subrange(40, 72) =~= addr_bytes(a.token_account));
    assert(s.subrange(72, 104) =~= addr_bytes(a.delegate));
    assert(s.subrange(104, 112) =~= spec_u64_to_le_bytes(a.amount));
}

/// The persisted form carries nothing beyond the record: reading valid
/// bytes and writing the record back yields the same bytes.
pub proof fn lemma_record_bytes_exact(s: Seq<u8>)
    requires
        has_record_tag(s),
    ensures
        record_bytes(record_of_bytes(s)) == s,
{
    lemma_auto_spec_u64_to_from_le_bytes();
    lemma_addr_of_bytes_roundtrip(s.subrange(8, 40));
    lemma_addr_of_bytes_roundtrip(s.subrange(40, 72));
    lemma_addr_of_bytes_roundtrip(s.subrange(72, 104));
    assert(record_bytes(record_of_bytes(s)) =~= s);
}

} // verus!
