//! A program that takes over the account of whoever signs for it.

use crate::account::{AccountMeta, Instruction};
use crate::error::LedgerError;
use crate::guards::authorization::require_signature;
use crate::guards::conservation::{before_invoke, Invocation};
use crate::pubkey::{Caller, Pubkey};
use vstd::prelude::*;

verus! {

/// The data of the system instruction that assigns an account to `owner`:
/// the number 1 of the instruction as four little-endian bytes, then the
/// key of the owner.
pub open spec fn assign_data(owner: Seq<u8>) -> Seq<u8> {
    seq![1u8, 0u8, 0u8, 0u8] + owner
}

/// The address of the system program.
pub open spec fn system_program_id() -> Seq<u8> {
    Seq::new(32, |i: int| 0u8)
}

/// Calls `system_instruction::assign` of `anchor_lang::solana_program`. The
/// instruction is for the system program, names `account` alone, signing
/// and writable, and carries the instruction number 1 as four little-endian
/// bytes followed by the 32 bytes of `owner`.
#[verifier::external_body]
fn system_assign(account: &Pubkey, owner: &Pubkey) -> (r: Instruction)
    ensures
        r.program_id@ == system_program_id(),
        r.accounts@ == seq![AccountMeta { pubkey: *account, is_signer: true, is_writable: true }],
        r.data@ == assign_data(owner@),
{
    let ix = anchor_lang::solana_program::system_instruction::assign(
        &account.bytes.into(),
        &owner.bytes.into(),
    );
    let accounts = ix.accounts.iter().map(|meta| AccountMeta {
        pubkey: Pubkey { bytes: meta.pubkey.to_bytes() },
        is_signer: meta.is_signer,
        is_writable: meta.is_writable,
    }).collect();
    Instruction { program_id: Pubkey { bytes: ix.program_id.to_bytes() }, accounts, data: ix.data }
}

/// Prepares the system instruction that hands the account of `victim` to
/// `program_id`. It needs the signature of the victim and nothing else.
pub fn withdraw(victim: &Caller, program_id: &Pubkey) -> (r: Result<
    (Instruction, Invocation),
    LedgerError,
>)
    ensures
        r is Ok <==> victim.is_live_signer,
        r is Err ==> r->Err_0 == LedgerError::MissingSignature,
        r is Ok ==> {
            &&& r->Ok_0.0.program_id@ == system_program_id()
            &&& r->Ok_0.0.accounts@ == seq![
                AccountMeta { pubkey: victim.identity, is_signer: true, is_writable: true },
            ]
            &&& r->Ok_0.0.data@ == assign_data(program_id@)
            &&& r->Ok_0.1.target == r->Ok_0.0.program_id
            &&& r->Ok_0.1.resource_set@ == seq![victim.identity]
        },
{
    require_signature(victim)?;
    let ix = system_assign(&victim.identity, program_id);
    let untouched: Vec<Pubkey> = Vec::new();
    let invocation = before_invoke(ix.program_id, &untouched, vec![victim.identity])?;
    Ok((ix, invocation))
}

} // verus!
