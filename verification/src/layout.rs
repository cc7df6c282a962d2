//! The stored form of a record.
//!
//! A record is stored as its fields in order, integers little-endian: the
//! amount (8 bytes), the owner (32), the asset (32), start time, step amount
//! and step interval (8 each), the direction (1), the activity (1, zero or
//! one) and the minimum output (8).

use vstd::prelude::*;
use vstd::bytes::{spec_u64_from_le_bytes, spec_u64_to_le_bytes, u64_from_le_bytes, u64_to_le_bytes};
use vstd::slice::slice_subrange;
use crate::identity::Identity;
use crate::record::DcaData;

verus! {

/// Number of bytes of a stored record.
pub const RECORD_BYTES: usize = 106;

/// The byte that stands for the activity of a schedule.
pub open spec fn state_byte(state: bool) -> u8 {
    if state {
        1
    } else {
        0
    }
}

/// The stored form of `record`.
pub open spec fn packed(record: DcaData) -> Seq<u8> {
    spec_u64_to_le_bytes(record.total_amount) + record.sender_account@ + record.mint_address@
        + spec_u64_to_le_bytes(record.start_time) + spec_u64_to_le_bytes(record.dca_amount)
        + spec_u64_to_le_bytes(record.dca_time) + seq![record.flag] + seq![state_byte(record.state)]
        + spec_u64_to_le_bytes(record.minimum_amount_out)
}

/// Appends the bytes of `part` to `out`.
fn append(out: &mut Vec<u8>, part: &Vec<u8>)
    ensures
        final(out)@ == old(out)@ + part@,
{
    let mut i: usize = 0;
    while i < part.len()
        invariant
            i <= part.len(),
            out@ == old(out)@ + part@.subrange(0, i as int),
        decreases part.len() - i,
    {
        out.push(part[i]);
        i += 1;
    }
    assert(part@.subrange(0, part@.len() as int) =~= part@);
}

/// Reads an identity from 32 bytes.
fn identity_from(bytes: &[u8]) -> (id: Identity)
    requires
        bytes@.len() == 32,
    ensures
        id@ == bytes@,
{
    let mut array = [0u8; 32];
    let mut i: usize = 0;
    while i < 32
        invariant
            i <= 32,
            bytes@.len() == 32,
            forall|j: int| 0 <= j < i ==> array@[j] == bytes@[j],
        decreases 32 - i,
    {
        array[i] = bytes[i];
        i += 1;
    }
    assert(array@ =~= bytes@);
    Identity::new(array)
}

impl DcaData {
    /// The stored form of this record.
    pub fn pack(&self) -> (bytes: Vec<u8>)
        ensures
            bytes@ == packed(*self),
            bytes@.len() == RECORD_BYTES,
    {
        proof {
            vstd::bytes::lemma_auto_spec_u64_to_from_le_bytes();
        }
        let mut bytes = u64_to_le_bytes(self.total_amount);
        append(&mut bytes, &self.sender_account.to_vec());
        append(&mut bytes, &self.mint_address.to_vec());
        append(&mut bytes, &u64_to_le_bytes(self.start_time));
        append(&mut bytes, &u64_to_le_bytes(self.dca_amount));
        append(&mut bytes, &u64_to_le_bytes(self.dca_time));
        bytes.push(self.flag);
        bytes.push(if self.state { 1 } else { 0 });
        append(&mut bytes, &u64_to_le_bytes(self.minimum_amount_out));
        assert(bytes@ =~= packed(*self));
        bytes
    }

    /// Reads a record from its stored form. Gives the one record whose stored
    /// form `bytes` is, and `None` where `bytes` is the stored form of none:
    /// where the length is not that of a record or the activity is neither
    /// zero nor one.
    pub fn unpack(bytes: &[u8]) -> (r: Option<DcaData>)
        ensures
            match r {
                Some(record) => packed(record) == bytes@,
                None => forall|record: DcaData| packed(record) != bytes@,
            },
    {
        proof {
            vstd::bytes::lemma_auto_spec_u64_to_from_le_bytes();
        }
        if bytes.len() != RECORD_BYTES {
            assert forall|record: DcaData| packed(record) != bytes@ by {
                assert(packed(record).len() == 106);
            }
            return None;
        }
        let active: u8 = bytes[97];
        if active > 1 {
            assert forall|record: DcaData| packed(record) != bytes@ by {
                assert(packed(record).len() == 106);
                assert(packed(record)[97] == state_byte(record.state));
            }
            return None;
        }
        let record = DcaData {
            total_amount: u64_from_le_bytes(slice_subrange(bytes, 0, 8)),
            sender_account: identity_from(slice_subrange(bytes, 8, 40)),
            mint_address: identity_from(slice_subrange(bytes, 40, 72)),
            start_time: u64_from_le_bytes(slice_subrange(bytes, 72, 80)),
            dca_amount: u64_from_le_bytes(slice_subrange(bytes, 80, 88)),
            dca_time: u64_from_le_bytes(slice_subrange(bytes, 88, 96)),
            flag: bytes[96],
            state: active == 1,
            minimum_amount_out: u64_from_le_bytes(slice_subrange(bytes, 98, 106)),
        };
        assert(packed(record) =~= bytes@) by {
            assert(spec_u64_to_le_bytes(record.total_amount) == bytes@.subrange(0, 8));
            assert(spec_u64_to_le_bytes(record.start_time) == bytes@.subrange(72, 80));
            assert(spec_u64_to_le_bytes(record.dca_amount) == bytes@.subrange(80, 88));
            assert(spec_u64_to_le_bytes(record.dca_time) == bytes@.subrange(88, 96));
            assert(spec_u64_to_le_bytes(record.minimum_amount_out) == bytes@.subrange(98, 106));
        }
        Some(record)
    }
}

/// Two records with the same stored form are the same record, and a stored
/// form is always `RECORD_BYTES` long.
pub proof fn lemma_packed_is_injective(a: DcaData, b: DcaData)
    ensures
        packed(a).len() == RECORD_BYTES,
        packed(a) == packed(b) <==> a == b,
{
    vstd::bytes::lemma_auto_spec_u64_to_from_le_bytes();
    if packed(a) == packed(b) {
        let s = packed(a);
        let t = packed(b);
        assert(spec_u64_to_le_bytes(a.total_amount) =~= s.subrange(0, 8));
        assert(spec_u64_to_le_bytes(b.total_amount) =~= t.subrange(0, 8));
        assert(a.sender_account@ =~= s.subrange(8, 40));
        assert(b.sender_account@ =~= t.subrange(8, 40));
        assert(a.mint_address@ =~= s.subrange(40, 72));
        assert(b.mint_address@ =~= t.subrange(40, 72));
        assert(spec_u64_to_le_bytes(a.start_time) =~= s.subrange(72, 80));
        assert(spec_u64_to_le_bytes(b.start_time) =~= t.subrange(72, 80));
        assert(spec_u64_to_le_bytes(a.dca_amount) =~= s.subrange(80, 88));
        assert(spec_u64_to_le_bytes(b.dca_amount) =~= t.subrange(80, 88));
        assert(spec_u64_to_le_bytes(a.dca_time) =~= s.subrange(88, 96));
        assert(spec_u64_to_le_bytes(b.dca_time) =~= t.subrange(88, 96));
        assert(a.flag == s[96]);
        assert(b.flag == t[96]);
        assert(state_byte(a.state) == s[97]);
        assert(state_byte(b.state) == t[97]);
        assert(spec_u64_to_le_bytes(a.minimum_amount_out) =~= s.subrange(98, 106));
        assert(spec_u64_to_le_bytes(b.minimum_amount_out) =~= t.subrange(98, 106));
        assert(a.total_amount == spec_u64_from_le_bytes(spec_u64_to_le_bytes(a.total_amount)));
        assert(a.start_time == spec_u64_from_le_bytes(spec_u64_to_le_bytes(a.start_time)));
        assert(a.dca_amount == spec_u64_from_le_bytes(spec_u64_to_le_bytes(a.dca_amount)));
        assert(a.dca_time == spec_u64_from_le_bytes(spec_u64_to_le_bytes(a.dca_time)));
        assert(a.minimum_amount_out == spec_u64_from_le_bytes(spec_u64_to_le_bytes(a.minimum_amount_out)));
        crate::identity::lemma_identity_by_view(a.sender_account, b.sender_account);
        crate::identity::lemma_identity_by_view(a.mint_address, b.mint_address);
    }
}

} // verus!
