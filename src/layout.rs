//! The fixed byte layout of a stored record: an 8-byte type tag, then the fields
//! in order, addresses as their 32 bytes, nonces and the flag as one byte each,
//! and the unlock time as 8 little-endian bytes.
use vstd::bytes::{spec_u64_from_le_bytes, spec_u64_to_le_bytes, u64_from_le_bytes, u64_to_le_bytes};
use vstd::prelude::*;

use crate::address::Address;
use crate::record::DiamondHandsAccount;

verus! {

/// Bytes in a stored record, its tag included.
pub const RECORD_LEN: usize = 147;

/// The byte that stores a flag.
pub open spec fn flag_byte(b: bool) -> u8 {
    if b {
        1
    } else {
        0
    }
}

/// The bytes that store `r` under the type tag `tag`.
pub open spec fn record_layout(tag: Seq<u8>, r: DiamondHandsAccount) -> Seq<u8> {
    tag + r.owner@ + r.diamondhands_account@ + seq![r.diamondhands_nonce] + r.gatekeeper@ + seq![
        r.nonce,
    ] + r.vault@ + seq![flag_byte(r.thawed)] + spec_u64_to_le_bytes(r.date_to_unfreeze)
}

/// Whether `bytes` are a stored record under `tag`: the right length, the tag in
/// front, and a flag byte of 0 or 1.
pub open spec fn is_record_layout(tag: Seq<u8>, bytes: Seq<u8>) -> bool {
    &&& bytes.len() == RECORD_LEN
    &&& bytes.subrange(0, 8) == tag
    &&& bytes[138] <= 1
}

/// Two records hold the same values.
pub open spec fn same_record(a: DiamondHandsAccount, b: DiamondHandsAccount) -> bool {
    &&& a.owner@ == b.owner@
    &&& a.diamondhands_account@ == b.diamondhands_account@
    &&& a.diamondhands_nonce == b.diamondhands_nonce
    &&& a.gatekeeper@ == b.gatekeeper@
    &&& a.nonce == b.nonce
    &&& a.vault@ == b.vault@
    &&& a.thawed == b.thawed
    &&& a.date_to_unfreeze == b.date_to_unfreeze
}

fn push_address(out: &mut Vec<u8>, a: &Address)
    ensures
        final(out)@ == old(out)@ + a@,
{
    let mut i: usize = 0;
    while i < 32
        invariant
            i <= 32,
            a@.len() == 32,
            out@ == old(out)@ + a@.subrange(0, i as int),
        decreases 32 - i,
    {
        out.push(a.bytes[i]);
        i = i + 1;
        proof {
            assert(out@ =~= old(out)@ + a@.subrange(0, i as int));
        }
    }
    proof {
        assert(a@.subrange(0, 32) =~= a@);
    }
}

/// The bytes that store the record under the type tag.
pub fn encode_record(tag: &[u8; 8], r: &DiamondHandsAccount) -> (out: Vec<u8>)
    ensures
        out@ == record_layout(tag@, *r),
        is_record_layout(tag@, out@),
{
    let mut out: Vec<u8> = Vec::new();
    let mut i: usize = 0;
    while i < 8
        invariant
            i <= 8,
            tag@.len() == 8,
            out@ == tag@.subrange(0, i as int),
        decreases 8 - i,
    {
        out.push(tag[i]);
        i = i + 1;
        proof {
            assert(out@ =~= tag@.subrange(0, i as int));
        }
    }
    proof {
        assert(tag@.subrange(0, 8) =~= tag@);
    }
    push_address(&mut out, &r.owner);
    push_address(&mut out, &r.diamondhands_account);
    out.push(r.diamondhands_nonce);
    push_address(&mut out, &r.gatekeeper);
    out.push(r.nonce);
    push_address(&mut out, &r.vault);
    out.push(if r.thawed { 1u8 } else { 0u8 });
    let time = u64_to_le_bytes(r.date_to_unfreeze);
    let mut j: usize = 0;
    let ghost front = out@;
    while j < 8
        invariant
            j <= 8,
            time@ == spec_u64_to_le_bytes(r.date_to_unfreeze),
            time@.len() == 8,
            out@ == front + time@.subrange(0, j as int),
        decreases 8 - j,
    {
        out.push(time[j]);
        j = j + 1;
        proof {
            assert(out@ =~= front + time@.subrange(0, j as int));
        }
    }
    proof {
        assert(time@.subrange(0, 8) =~= time@);
        assert(out@ =~= record_layout(tag@, *r));
        assert(out@.subrange(0, 8) =~= tag@);
    }
    out
}

fn address_at(bytes: &Vec<u8>, start: usize) -> (a: Address)
    requires
        start + 32 <= bytes@.len(),
    ensures
        a@ == bytes@.subrange(start as int, start + 32),
{
    let mut arr: [u8; 32] = [0u8; 32];
    let n = bytes.len();
    let mut i: usize = 0;
    while i < 32
        invariant
            i <= 32,
            n == bytes@.len(),
            start + 32 <= n,
            arr@.len() == 32,
            forall|j: int| 0 <= j < i ==> arr@[j] == bytes@[start + j],
        decreases 32 - i,
    {
        arr[i] = bytes[start + i];
        i = i + 1;
    }
    let a = Address { bytes: arr };
    proof {
        assert(a@ =~= bytes@.subrange(start as int, start + 32));
    }
    a
}

/// Reads a stored record under the type tag; `None` where the bytes are not one.
pub fn decode_record(tag: &[u8; 8], bytes: &Vec<u8>) -> (r: Option<DiamondHandsAccount>)
    ensures
        r is Some <==> is_record_layout(tag@, bytes@),
        r matches Some(rec) ==> record_layout(tag@, rec) == bytes@,
{
    if bytes.len() != RECORD_LEN {
        return None;
    }
    let mut i: usize = 0;
    while i < 8
        invariant
            i <= 8,
            tag@.len() == 8,
            bytes@.len() == RECORD_LEN,
            forall|j: int| 0 <= j < i ==> bytes@[j] == tag@[j],
        decreases 8 - i,
    {
        if bytes[i] != tag[i] {
            proof {
                assert(bytes@.subrange(0, 8)[i as int] != tag@[i as int]);
            }
            return None;
        }
        i = i + 1;
    }
    proof {
        assert(bytes@.subrange(0, 8) =~= tag@);
    }
    if bytes[138] > 1 {
        return None;
    }
    let owner = address_at(bytes, 8);
    let record = address_at(bytes, 40);
    let gatekeeper = address_at(bytes, 73);
    let vault = address_at(bytes, 106);
    let mut time_bytes: Vec<u8> = Vec::new();
    let mut k: usize = 139;
    while k < 147
        invariant
            139 <= k <= 147,
            bytes@.len() == RECORD_LEN,
            time_bytes@ == bytes@.subrange(139, k as int),
        decreases 147 - k,
    {
        time_bytes.push(bytes[k]);
        k = k + 1;
        proof {
            assert(time_bytes@ =~= bytes@.subrange(139, k as int));
        }
    }
    let time = u64_from_le_bytes(time_bytes.as_slice());
    let rec = DiamondHandsAccount {
        owner,
        diamondhands_account: record,
        diamondhands_nonce: bytes[72],
        gatekeeper,
        nonce: bytes[105],
        vault,
        thawed: bytes[138] == 1,
        date_to_unfreeze: time,
    };
    proof {
        vstd::bytes::lemma_auto_spec_u64_to_from_le_bytes();
        assert(spec_u64_to_le_bytes(time) == time_bytes@);
        assert(record_layout(tag@, rec) =~= bytes@);
    }
    Some(rec)
}

/// Where each field of a record sits in its layout.
proof fn lemma_layout_fields(tag: Seq<u8>, r: DiamondHandsAccount)
    requires
        tag.len() == 8,
    ensures
        ({
            let l = record_layout(tag, r);
            &&& l.len() == RECORD_LEN
            &&& l.subrange(0, 8) == tag
            &&& l.subrange(8, 40) == r.owner@
            &&& l.subrange(40, 72) == r.diamondhands_account@
            &&& l[72] == r.diamondhands_nonce
            &&& l.subrange(73, 105) == r.gatekeeper@
            &&& l[105] == r.nonce
            &&& l.subrange(106, 138) == r.vault@
            &&& l[138] == flag_byte(r.thawed)
            &&& l.subrange(139, 147) == spec_u64_to_le_bytes(r.date_to_unfreeze)
        }),
{
    vstd::bytes::lemma_auto_spec_u64_to_from_le_bytes();
    let l = record_layout(tag, r);
    assert(l.subrange(0, 8) =~= tag);
    assert(l.subrange(8, 40) =~= r.owner@);
    assert(l.subrange(40, 72) =~= r.diamondhands_account@);
    assert(l.subrange(73, 105) =~= r.gatekeeper@);
    assert(l.subrange(106, 138) =~= r.vault@);
    assert(l.subrange(139, 147) =~= spec_u64_to_le_bytes(r.date_to_unfreeze));
}

/// The layout of a record is a stored record, and it determines the record: a
/// record read back from the bytes of another holds the same values.
pub proof fn lemma_layout_round_trip(tag: Seq<u8>, r: DiamondHandsAccount, read: DiamondHandsAccount)
    requires
        tag.len() == 8,
        record_layout(tag, read) == record_layout(tag, r),
    ensures
        is_record_layout(tag, record_layout(tag, r)),
        same_record(read, r),
{
    lemma_layout_fields(tag, r);
    lemma_layout_fields(tag, read);
    vstd::bytes::lemma_auto_spec_u64_to_from_le_bytes();
    assert(spec_u64_from_le_bytes(spec_u64_to_le_bytes(r.date_to_unfreeze)) == r.date_to_unfreeze);
    assert(spec_u64_from_le_bytes(spec_u64_to_le_bytes(read.date_to_unfreeze))
        == read.date_to_unfreeze);
}

} // verus!
