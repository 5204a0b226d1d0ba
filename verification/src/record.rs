use vstd::prelude::*;

use crate::addr::Address;
use vstd::bytes::{
    lemma_auto_spec_u64_to_from_le_bytes, spec_u64_from_le_bytes, spec_u64_to_le_bytes,
    u64_from_le_bytes, u64_to_le_bytes,
};
use vstd::slice::slice_subrange;

verus! {

/// The sole persisted entity: one vault record per owner identity.
#[derive(Clone, Copy, Debug, PartialEq, Eq)]
pub struct VaultData {
    /// 32-byte public-key identity of the sole authorized controller.
    /// Immutable after creation and always equal to the identity the
    /// storage address was derived from.
    pub owner: Address,
    /// Signed 64-bit timestamp, set once from the ledger clock at creation.
    pub created_at: i64,
    /// Unsigned 64-bit counter/balance field, zero at creation.
    pub value: u64,
}

/// Fixed allocation size of a serialized record:
/// 8 (type tag) + 32 (owner) + 8 (timestamp) + 8 (value) bytes.
pub const VAULT_RECORD_SPACE: usize = 8 + 32 + 8 + 8;

/// The fixed-width type tag at the head of every serialized record
/// (the bytes of `"vaultrec"`), checked on every read.
pub open spec fn vault_tag() -> Seq<u8> {
    seq![118u8, 97u8, 117u8, 108u8, 116u8, 114u8, 101u8, 99u8]
}

/// The type tag as a byte vector.
fn vault_tag_bytes() -> (t: Vec<u8>)
    ensures
        t@ == vault_tag(),
{
    let mut t: Vec<u8> = Vec::new();
    t.push(118u8);
    t.push(97u8);
    t.push(117u8);
    t.push(108u8);
    t.push(116u8);
    t.push(114u8);
    t.push(101u8);
    t.push(99u8);
    proof {
        assert(t@ =~= vault_tag());
    }
    t
}

/// The persisted 56-byte layout of a record, in order: tag, owner,
/// `created_at` (little endian, two's complement), `value` (little endian).
pub open spec fn record_bytes(r: VaultData) -> Seq<u8> {
    vault_tag() + r.owner@ + spec_u64_to_le_bytes(r.created_at as u64) + spec_u64_to_le_bytes(
        r.value,
    )
}

/// Serialize a record into its fixed 56-byte layout.
pub fn encode_record(r: &VaultData) -> (out: Vec<u8>)
    ensures
        out@ == record_bytes(*r),
        out@.len() == VAULT_RECORD_SPACE,
{
    let mut out = vault_tag_bytes();
    let mut i: usize = 0;
    while i < 32
        invariant
            0 <= i <= 32,
            out@ == vault_tag() + r.owner@.take(i as int),
        decreases 32 - i,
    {
        out.push(r.owner.bytes[i]);
        proof {
            assert(out@ =~= vault_tag() + r.owner@.take(i as int + 1));
        }
        i = i + 1;
    }
    proof {
        assert(r.owner@.take(32) =~= r.owner@);
    }
    let mut ts = u64_to_le_bytes(r.created_at as u64);
    out.append(&mut ts);
    let mut val = u64_to_le_bytes(r.value);
    out.append(&mut val);
    proof {
        lemma_auto_spec_u64_to_from_le_bytes();
        assert(out@ =~= record_bytes(*r));
    }
    out
}

/// Read a record back from its persisted bytes.
///
/// Succeeds exactly on a buffer of the full 56 bytes whose head is the type
/// tag; the fields read back are the bytes at their fixed offsets.
pub fn decode_record(data: &Vec<u8>) -> (r: Option<VaultData>)
    ensures
        r is Some <==> (data@.len() == VAULT_RECORD_SPACE && data@.subrange(0, 8)
            == vault_tag()),
        (r matches Some(v) ==> {
            &&& data@ == record_bytes(v)
            &&& v.owner@ == data@.subrange(8, 40)
            &&& v.created_at == spec_u64_from_le_bytes(data@.subrange(40, 48)) as i64
            &&& v.value == spec_u64_from_le_bytes(data@.subrange(48, 56))
        }),
{
    if data.len() != VAULT_RECORD_SPACE {
        return None;
    }
    let tag = vault_tag_bytes();
    let mut j: usize = 0;
    while j < 8
        invariant
            0 <= j <= 8,
            tag@ == vault_tag(),
            data@.len() == VAULT_RECORD_SPACE,
            forall|k: int| 0 <= k < j ==> data@[k] == vault_tag()[k],
        decreases 8 - j,
    {
        if data[j] != tag[j] {
            proof {
                assert(data@.subrange(0, 8)[j as int] != vault_tag()[j as int]);
            }
            return None;
        }
        j = j + 1;
    }
    proof {
        assert(data@.subrange(0, 8) =~= vault_tag());
    }
    let mut owner_bytes: [u8; 32] = [0u8; 32];
    let mut i: usize = 0;
    while i < 32
        invariant
            0 <= i <= 32,
            data@.len() == VAULT_RECORD_SPACE,
            forall|k: int| 0 <= k < i ==> owner_bytes@[k] == data@[8 + k],
        decreases 32 - i,
    {
        owner_bytes[i] = data[8 + i];
        i = i + 1;
    }
    let raw_ts = u64_from_le_bytes(slice_subrange(data.as_slice(), 40, 48));
    let value = u64_from_le_bytes(slice_subrange(data.as_slice(), 48, 56));
    let v = VaultData { owner: Address { bytes: owner_bytes }, created_at: raw_ts as i64, value };
    proof {
        lemma_auto_spec_u64_to_from_le_bytes();
        let ts_bytes = data@.subrange(40, 48);
        let val_bytes = data@.subrange(48, 56);
        assert((raw_ts as i64) as u64 == raw_ts) by (bit_vector);
        assert(spec_u64_to_le_bytes(spec_u64_from_le_bytes(ts_bytes)) == ts_bytes);
        assert(spec_u64_to_le_bytes(spec_u64_from_le_bytes(val_bytes)) == val_bytes);
        assert(v.owner@ =~= data@.subrange(8, 40));
        assert(data@ =~= record_bytes(v));
    }
    Some(v)
}

/// Round trip: a record's persisted bytes hold exactly its fields. The
/// buffer has the full fixed size, its head is the type tag, and the owner,
/// timestamp and value read back from their offsets equal the originals.
pub proof fn lemma_record_bytes_roundtrip(r: VaultData)
    ensures
        record_bytes(r).len() == VAULT_RECORD_SPACE,
        record_bytes(r).subrange(0, 8) == vault_tag(),
        record_bytes(r).subrange(8, 40) == r.owner@,
        spec_u64_from_le_bytes(record_bytes(r).subrange(40, 48)) as i64 == r.created_at,
        spec_u64_from_le_bytes(record_bytes(r).subrange(48, 56)) == r.value,
{
    lemma_auto_spec_u64_to_from_le_bytes();
    let ts = spec_u64_to_le_bytes(r.created_at as u64);
    let val = spec_u64_to_le_bytes(r.value);
    assert(record_bytes(r).subrange(0, 8) =~= vault_tag());
    assert(record_bytes(r).subrange(8, 40) =~= r.owner@);
    assert(record_bytes(r).subrange(40, 48) =~= ts);
    assert(record_bytes(r).subrange(48, 56) =~= val);
    let x = r.created_at;
    assert((x as u64) as i64 == x) by (bit_vector);
}

} // verus!
