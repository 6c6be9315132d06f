//! Reading typed records out of the bytes of an account.
//!
//! The bytes of an account are untrusted and of any length. Each record
//! has a byte layout of its own, written down here field by field; a record
//! is read only after the bytes were found long enough for it.

use crate::account::{AccountInfo, HostError};
use crate::error::LedgerError;
use crate::guards::record::{read_key, read_u64_le, u64_from_le};
use crate::pubkey::Pubkey;
use vstd::prelude::*;

verus! {

/// The address of the program.
pub const ID: [u8; 32] = [
    0x0f, 0x1e, 0x6b, 0x14, 0x13, 0xc0, 0x4a, 0x07, 0x04, 0x31, 0x26, 0x5c, 0x19, 0xc5, 0xbb, 0xee,
    0x19, 0x26, 0xba, 0xe8, 0xaf, 0xd1, 0xcd, 0x07, 0x8e, 0xf6, 0xaf, 0x70, 0x37, 0xdc, 0x11, 0xf7,
];

/// A configuration laid out with every field at a multiple of its size:
/// the state in byte 0, seven unused bytes, the value in bytes 8 to 15, the
/// authority in bytes 16 to 47.
#[derive(Clone, Copy, Debug, PartialEq, Eq)]
pub struct NormalConfig {
    pub state: u8,
    pub value: u64,
    pub authority: Pubkey,
}

impl NormalConfig {
    /// The bytes the record takes.
    pub const LEN: usize = 48;

    /// Reads the record from the first `LEN` bytes of `data`, or fails with
    /// `MalformedRecord` exactly when `data` is shorter.
    pub fn decode(data: &[u8]) -> (r: Result<NormalConfig, LedgerError>)
        ensures
            r is Ok <==> data@.len() >= NormalConfig::LEN,
            r is Ok ==> {
                &&& r->Ok_0.state == data@[0]
                &&& r->Ok_0.value == u64_from_le(data@.subrange(8, 16))
                &&& r->Ok_0.authority@ == data@.subrange(16, 48)
            },
            r is Err ==> r->Err_0 == LedgerError::MalformedRecord,
    {
        if data.len() < NormalConfig::LEN {
            return Err(LedgerError::MalformedRecord);
        }
        let state = data[0];
        let value = read_u64_le(data, 8)?;
        let authority = read_key(data, 16)?;
        Ok(NormalConfig { state, value, authority })
    }
}

/// A configuration laid out without gaps: the state in byte 0, the value in
/// bytes 1 to 8, the authority in bytes 9 to 40.
#[derive(Clone, Copy, Debug, PartialEq, Eq)]
pub struct PackedConfig {
    pub state: u8,
    pub value: u64,
    pub authority: Pubkey,
}

impl PackedConfig {
    /// The bytes the record takes.
    pub const LEN: usize = 41;

    /// Reads the record from the first `LEN` bytes of `data`, or fails with
    /// `MalformedRecord` exactly when `data` is shorter.
    pub fn decode(data: &[u8]) -> (r: Result<PackedConfig, LedgerError>)
        ensures
            r is Ok <==> data@.len() >= PackedConfig::LEN,
            r is Ok ==> {
                &&& r->Ok_0.state == data@[0]
                &&& r->Ok_0.value == u64_from_le(data@.subrange(1, 9))
                &&& r->Ok_0.authority@ == data@.subrange(9, 41)
            },
            r is Err ==> r->Err_0 == LedgerError::MalformedRecord,
    {
        if data.len() < PackedConfig::LEN {
            return Err(LedgerError::MalformedRecord);
        }
        let state = data[0];
        let value = read_u64_le(data, 1)?;
        let authority = read_key(data, 9)?;
        Ok(PackedConfig { state, value, authority })
    }
}

/// A record of one value, in bytes 0 to 7.
#[derive(Clone, Copy, Debug, PartialEq, Eq, Structural)]
pub struct BadStruct {
    pub value: u64,
}

impl BadStruct {
    /// The bytes the record takes.
    pub const LEN: usize = 8;

    /// Reads the record from the first `LEN` bytes of `data`, or fails with
    /// `MalformedRecord` exactly when `data` is shorter.
    pub fn decode(data: &[u8]) -> (r: Result<BadStruct, LedgerError>)
        ensures
            r is Ok <==> data@.len() >= BadStruct::LEN,
            r is Ok ==> r->Ok_0.value == u64_from_le(data@.subrange(0, 8)),
            r is Err ==> r->Err_0 == LedgerError::MalformedRecord,
    {
        let value = read_u64_le(data, 0)?;
        Ok(BadStruct { value })
    }
}

/// The values that one request reads out of an account.
#[derive(Clone, Copy, Debug, PartialEq, Eq)]
pub struct Readings {
    /// The leading eight bytes as a number, where the account has as many.
    pub value1: Option<u64>,
    /// The value of the account read as a `PackedConfig`.
    pub value2: u64,
    /// The same field, read once more.
    pub b_value: u64,
    /// The value of the account read as a `NormalConfig`.
    pub value4: u64,
    /// The value of the account read as a `BadStruct`.
    pub value5: u64,
}

/// The leading eight bytes of `data` as a number, or nothing where `data`
/// is too short.
pub fn leading_value(data: &[u8]) -> (r: Option<u64>)
    ensures
        r is Some <==> data@.len() >= 8,
        r is Some ==> r->Some_0 == u64_from_le(data@.subrange(0, 8)),
{
    match read_u64_le(data, 0) {
        Ok(value) => Some(value),
        Err(_) => None,
    }
}

/// What a request reads out of the first of its accounts.
pub open spec fn spec_readings(data: Seq<u8>) -> Readings {
    Readings {
        value1: Some(u64_from_le(data.subrange(0, 8)) as u64),
        value2: u64_from_le(data.subrange(1, 9)) as u64,
        b_value: u64_from_le(data.subrange(1, 9)) as u64,
        value4: u64_from_le(data.subrange(8, 16)) as u64,
        value5: u64_from_le(data.subrange(0, 8)) as u64,
    }
}

/// Reads the first account of the request in each of the layouts and gives
/// the values found. The request is refused with `MalformedRecord` exactly
/// when it names no account or the account is too short for one of the
/// layouts; no byte outside the account is ever read. Neither the program
/// nor the data of the request bear on the outcome.
pub fn process_instruction(
    program_id: &Pubkey,
    accounts: &[AccountInfo],
    instruction_data: &[u8],
) -> (r: Result<Readings, LedgerError>)
    ensures
        r is Ok <==> accounts@.len() >= 1 && accounts@[0].data@.len() >= NormalConfig::LEN,
        r is Ok ==> r->Ok_0 == spec_readings(accounts@[0].data@),
        r is Err ==> r->Err_0 == LedgerError::MalformedRecord,
{
    if accounts.len() < 1 {
        return Err(LedgerError::MalformedRecord);
    }
    let account = &accounts[0];
    let data = account.data.as_slice();

    let value1 = leading_value(data);

    let packed = PackedConfig::decode(data)?;
    let value2 = packed.value;

    let packed = PackedConfig::decode(data)?;
    let b_value = packed.value;

    let config = NormalConfig::decode(data)?;
    let value4 = config.value;

    let bad = BadStruct::decode(data)?;
    let value5 = bad.value;

    Ok(Readings { value1, value2, b_value, value4, value5 })
}

/// The code that the host reports for a request, if the request is
/// refused: too few accounts where it names none, invalid account data
/// where the first account is too short for one of the layouts.
pub fn host_error(accounts: &[AccountInfo]) -> (r: Option<HostError>)
    ensures
        r is None <==> accounts@.len() >= 1 && accounts@[0].data@.len() >= NormalConfig::LEN,
        accounts@.len() == 0 ==> r == Some(HostError::NotEnoughAccountKeys),
        accounts@.len() >= 1 && r is Some ==> r == Some(HostError::InvalidAccountData),
{
    if accounts.len() < 1 {
        Some(HostError::NotEnoughAccountKeys)
    } else if accounts[0].data_len() < NormalConfig::LEN {
        Some(HostError::InvalidAccountData)
    } else {
        None
    }
}

} // verus!
