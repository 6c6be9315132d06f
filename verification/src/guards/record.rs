//! Reading requests and stored records from untrusted bytes: every field is
//! taken at a fixed offset, little-endian, after its bounds were checked.

use crate::error::LedgerError;
use crate::pubkey::Pubkey;
use vstd::prelude::*;
use vstd::slice::slice_subrange;

verus! {

/// The number that eight bytes spell, least significant byte first.
pub open spec fn u64_from_le(bytes: Seq<u8>) -> nat
    recommends
        bytes.len() == 8,
{
    (bytes[0] as nat) + (bytes[1] as nat) * 0x100 + (bytes[2] as nat) * 0x1_0000 + (bytes[3] as nat)
        * 0x100_0000 + (bytes[4] as nat) * 0x1_0000_0000 + (bytes[5] as nat) * 0x100_0000_0000 + (
    bytes[6] as nat) * 0x1_0000_0000_0000 + (bytes[7] as nat) * 0x100_0000_0000_0000
}

/// The eight bytes that spell `value`, least significant byte first.
pub open spec fn u64_to_le(value: u64) -> Seq<u8> {
    seq![
        (value % 0x100) as u8,
        (value / 0x100 % 0x100) as u8,
        (value / 0x1_0000 % 0x100) as u8,
        (value / 0x100_0000 % 0x100) as u8,
        (value / 0x1_0000_0000 % 0x100) as u8,
        (value / 0x100_0000_0000 % 0x100) as u8,
        (value / 0x1_0000_0000_0000 % 0x100) as u8,
        (value / 0x100_0000_0000_0000 % 0x100) as u8,
    ]
}

/// Reading back what was written gives the number that was written.
pub proof fn lemma_u64_le_round_trip(value: u64)
    ensures
        u64_to_le(value).len() == 8,
        u64_from_le(u64_to_le(value)) == value,
{
    let q0: int = value as int;
    let q1 = q0 / 0x100;
    let q2 = q1 / 0x100;
    let q3 = q2 / 0x100;
    let q4 = q3 / 0x100;
    let q5 = q4 / 0x100;
    let q6 = q5 / 0x100;
    let q7 = q6 / 0x100;
    assert(q0 / 0x1_0000 == q2);
    assert(q0 / 0x100_0000 == q3);
    assert(q0 / 0x1_0000_0000 == q4);
    assert(q0 / 0x100_0000_0000 == q5);
    assert(q0 / 0x1_0000_0000_0000 == q6);
    assert(q0 / 0x100_0000_0000_0000 == q7);
    assert(q7 < 0x100);
    let bytes = u64_to_le(value);
    assert(bytes[0] == q0 % 0x100);
    assert(bytes[1] == q1 % 0x100);
    assert(bytes[2] == q2 % 0x100);
    assert(bytes[3] == q3 % 0x100);
    assert(bytes[4] == q4 % 0x100);
    assert(bytes[5] == q5 % 0x100);
    assert(bytes[6] == q6 % 0x100);
    assert(bytes[7] == q7 % 0x100);
}

/// Writing back what was read gives the bytes that were read.
pub proof fn lemma_u64_le_bytes_round_trip(bytes: Seq<u8>)
    requires
        bytes.len() == 8,
    ensures
        u64_from_le(bytes) <= u64::MAX,
        u64_to_le(u64_from_le(bytes) as u64) == bytes,
{
    let r7: int = bytes[7] as int;
    let r6: int = bytes[6] + 0x100 * r7;
    let r5: int = bytes[5] + 0x100 * r6;
    let r4: int = bytes[4] + 0x100 * r5;
    let r3: int = bytes[3] + 0x100 * r4;
    let r2: int = bytes[2] + 0x100 * r3;
    let r1: int = bytes[1] + 0x100 * r2;
    let r0: int = bytes[0] + 0x100 * r1;
    assert(r0 == u64_from_le(bytes));
    assert(r0 / 0x100 == r1 && r0 % 0x100 == bytes[0]);
    assert(r1 / 0x100 == r2 && r1 % 0x100 == bytes[1]);
    assert(r2 / 0x100 == r3 && r2 % 0x100 == bytes[2]);
    assert(r3 / 0x100 == r4 && r3 % 0x100 == bytes[3]);
    assert(r4 / 0x100 == r5 && r4 % 0x100 == bytes[4]);
    assert(r5 / 0x100 == r6 && r5 % 0x100 == bytes[5]);
    assert(r6 / 0x100 == r7 && r6 % 0x100 == bytes[6]);
    assert(r7 % 0x100 == bytes[7]);
    assert(r0 / 0x1_0000 == r2);
    assert(r0 / 0x100_0000 == r3);
    assert(r0 / 0x1_0000_0000 == r4);
    assert(r0 / 0x100_0000_0000 == r5);
    assert(r0 / 0x1_0000_0000_0000 == r6);
    assert(r0 / 0x100_0000_0000_0000 == r7);
    assert(u64_to_le(r0 as u64) =~= bytes);
}

/// The eight bytes that spell `value`, least significant byte first.
pub fn u64_le_bytes(value: u64) -> (r: [u8; 8])
    ensures
        r@ == u64_to_le(value),
{
    let r: [u8; 8] = [
        (value % 0x100) as u8,
        (value / 0x100 % 0x100) as u8,
        (value / 0x1_0000 % 0x100) as u8,
        (value / 0x100_0000 % 0x100) as u8,
        (value / 0x1_0000_0000 % 0x100) as u8,
        (value / 0x100_0000_0000 % 0x100) as u8,
        (value / 0x1_0000_0000_0000 % 0x100) as u8,
        (value / 0x100_0000_0000_0000 % 0x100) as u8,
    ];
    assert(r@ =~= u64_to_le(value));
    r
}

/// Whether `width` bytes lie in `data` from `offset` on.
pub open spec fn in_bounds(data: Seq<u8>, offset: usize, width: nat) -> bool {
    offset + width <= data.len()
}

/// Reads the little-endian `u64` that starts at `offset`, or fails with
/// `MalformedRecord` exactly when `data` ends before its eighth byte.
pub fn read_u64_le(data: &[u8], offset: usize) -> (r: Result<u64, LedgerError>)
    ensures
        r is Ok <==> in_bounds(data@, offset, 8),
        r is Ok ==> r->Ok_0 == u64_from_le(data@.subrange(offset as int, offset + 8)),
        r is Err ==> r->Err_0 == LedgerError::MalformedRecord,
{
    if data.len() < 8 || offset > data.len() - 8 {
        return Err(LedgerError::MalformedRecord);
    }
    let ghost field = data@.subrange(offset as int, offset + 8);
    assert(forall|i: int| 0 <= i < 8 ==> field[i] == data@[offset + i]);
    let value: u64 = (data[offset] as u64) + (data[offset + 1] as u64) * 0x100 + (data[offset
        + 2] as u64) * 0x1_0000 + (data[offset + 3] as u64) * 0x100_0000 + (data[offset
        + 4] as u64) * 0x1_0000_0000 + (data[offset + 5] as u64) * 0x100_0000_0000 + (data[offset
        + 6] as u64) * 0x1_0000_0000_0000 + (data[offset + 7] as u64) * 0x100_0000_0000_0000;
    Ok(value)
}

/// Reads the key that starts at `offset`, or fails with `MalformedRecord`
/// exactly when `data` ends before its last byte.
pub fn read_key(data: &[u8], offset: usize) -> (r: Result<Pubkey, LedgerError>)
    ensures
        r is Ok <==> in_bounds(data@, offset, 32),
        r is Ok ==> r->Ok_0@ == data@.subrange(offset as int, offset + 32),
        r is Err ==> r->Err_0 == LedgerError::MalformedRecord,
{
    if data.len() < 32 || offset > data.len() - 32 {
        return Err(LedgerError::MalformedRecord);
    }
    let mut bytes: [u8; 32] = [0u8; 32];
    let mut i: usize = 0;
    while i < 32
        invariant
            i <= 32,
            offset + 32 <= data@.len() <= usize::MAX,
            forall|j: int| 0 <= j < i ==> bytes@[j] == data@[offset + j],
        decreases 32 - i,
    {
        bytes[i] = data[offset + i];
        i += 1;
    }
    let key = Pubkey { bytes };
    assert(key@ =~= data@.subrange(offset as int, offset + 32));
    Ok(key)
}

/// Parts a request into its one-byte operation tag and the payload behind
/// it. An empty request names no operation.
pub fn split_operation(data: &[u8]) -> (r: Result<(u8, &[u8]), LedgerError>)
    ensures
        r is Ok <==> data@.len() > 0,
        r is Ok ==> r->Ok_0.0 == data@[0] && r->Ok_0.1@ == data@.subrange(1, data@.len() as int),
        r is Err ==> r->Err_0 == LedgerError::InvalidOperation,
{
    if data.len() == 0 {
        return Err(LedgerError::InvalidOperation);
    }
    Ok((data[0], slice_subrange(data, 1, data.len())))
}

/// Checks that a buffer has exactly the length of the layout it is to be
/// read as, before any field of it is looked at.
pub fn expect_length(data: &[u8], length: usize) -> (r: Result<(), LedgerError>)
    ensures
        r is Ok <==> data@.len() == length,
        r is Err ==> r->Err_0 == LedgerError::MalformedRecord,
{
    if data.len() == length {
        Ok(())
    } else {
        Err(LedgerError::MalformedRecord)
    }
}

} // verus!
