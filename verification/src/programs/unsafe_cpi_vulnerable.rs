//! A call into whatever program the request names.

use crate::account::{AccountMeta, Instruction};
use crate::error::LedgerError;
use crate::guards::authorization::require_signature;
use crate::guards::conservation::{before_invoke, Invocation};
use crate::pubkey::{Caller, Pubkey};
use vstd::prelude::*;

verus! {

/// The operation tag `withdraw` of the program that is called.
pub const WITHDRAW_DISCRIMINATOR: [u8; 8] = [0xe4, 0x9a, 0xc8, 0x8d, 0xe2, 0xb7, 0x94, 0x19];

/// Prepares the operation `withdraw` of `external_program` with the user as
/// a signing, writable account. The program is not looked at: any program
/// that the request names receives the signature of the user.
pub fn call_external(user: &Caller, external_program: &Pubkey, system_program: &Pubkey) -> (r:
    Result<(Instruction, Invocation), LedgerError>)
    ensures
        r is Ok <==> user.is_live_signer,
        r is Err ==> r->Err_0 == LedgerError::MissingSignature,
        r is Ok ==> {
            &&& r->Ok_0.0.program_id == *external_program
            &&& r->Ok_0.0.accounts@ == seq![
                AccountMeta { pubkey: user.identity, is_signer: true, is_writable: true },
                AccountMeta { pubkey: *system_program, is_signer: false, is_writable: false },
            ]
            &&& r->Ok_0.0.data@ == WITHDRAW_DISCRIMINATOR@
            &&& r->Ok_0.1.target == *external_program
            &&& r->Ok_0.1.resource_set@ == seq![user.identity, *system_program]
        },
{
    require_signature(user)?;
    let discriminator: [u8; 8] = WITHDRAW_DISCRIMINATOR;
    let mut data: Vec<u8> = Vec::new();
    let mut i: usize = 0;
    while i < 8
        invariant
            i <= 8,
            data@ == discriminator@.subrange(0, i as int),
        decreases 8 - i,
    {
        data.push(discriminator[i]);
        assert(data@ =~= discriminator@.subrange(0, i + 1));
        i += 1;
    }
    assert(data@ =~= discriminator@);
    let ix = Instruction {
        program_id: *external_program,
        accounts: vec![
            AccountMeta::new(user.identity, true),
            AccountMeta::new_readonly(*system_program, false),
        ],
        data,
    };
    let untouched: Vec<Pubkey> = Vec::new();
    let invocation = before_invoke(
        *external_program,
        &untouched,
        vec![user.identity, *system_program],
    )?;
    Ok((ix, invocation))
}

} // verus!
