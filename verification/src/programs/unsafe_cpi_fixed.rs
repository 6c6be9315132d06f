//! A call into another program whose identity is checked first.

use crate::account::Instruction;
use crate::error::LedgerError;
use crate::guards::authorization::require_signature;
use crate::guards::conservation::{base58_text, before_invoke, validate_callee_name, Invocation};
use crate::pubkey::{Caller, Pubkey};
use vstd::prelude::*;

verus! {

/// The failures of this program: `UntrustedCallee` and `MissingSignature`.
pub type ErrorCode = LedgerError;

/// The one program that may be called, in base 58.
pub const TRUSTED_PROGRAM: &'static str = "Attacker111111111111111111111111111111111";

/// Prepares the call of `external_program` on behalf of `user`: an
/// instruction without accounts and without data, handed over together with
/// the account of the user. The user has to sign, and the program has to be
/// the trusted one; the signature is asked for first.
pub fn call_external(user: &Caller, external_program: &Pubkey) -> (r: Result<
    (Instruction, Invocation),
    LedgerError,
>)
    ensures
        r is Ok <==> user.is_live_signer && base58_text(external_program@) == TRUSTED_PROGRAM@,
        !user.is_live_signer ==> r is Err && r->Err_0 == LedgerError::MissingSignature,
        user.is_live_signer && r is Err ==> r->Err_0 == LedgerError::UntrustedCallee,
        r is Ok ==> {
            &&& r->Ok_0.0.program_id == *external_program
            &&& r->Ok_0.0.accounts@.len() == 0
            &&& r->Ok_0.0.data@.len() == 0
            &&& r->Ok_0.1.target == *external_program
            &&& r->Ok_0.1.resource_set@ == seq![user.identity]
        },
{
    require_signature(user)?;
    validate_callee_name(external_program, TRUSTED_PROGRAM)?;
    let ix = Instruction { program_id: *external_program, accounts: Vec::new(), data: Vec::new() };
    let untouched: Vec<Pubkey> = Vec::new();
    let invocation = before_invoke(*external_program, &untouched, vec![user.identity])?;
    Ok((ix, invocation))
}

} // verus!
