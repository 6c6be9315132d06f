//! Who may change an entry: the recorded owner, and only while signing.

use crate::error::LedgerError;
use crate::pubkey::{Caller, Pubkey};
use vstd::prelude::*;

verus! {

/// What `authorize` answers: the capability check comes first, the
/// signature check second, and each is made on its own.
pub open spec fn spec_authorize(owner: Pubkey, caller: Caller, must_be_signer: bool) -> Result<
    (),
    LedgerError,
> {
    if caller.identity != owner {
        Err(LedgerError::Unauthorized)
    } else if must_be_signer && !caller.is_live_signer {
        Err(LedgerError::MissingSignature)
    } else {
        Ok(())
    }
}

/// Checks that `caller` is the principal recorded as `owner` and, where
/// `must_be_signer` is set, that it signed this request. Naming the owner
/// without signing is not enough.
pub fn authorize(owner: &Pubkey, caller: &Caller, must_be_signer: bool) -> (r: Result<
    (),
    LedgerError,
>)
    ensures
        r == spec_authorize(*owner, *caller, must_be_signer),
        caller.identity != *owner ==> r == Err::<(), LedgerError>(LedgerError::Unauthorized),
        caller.identity == *owner && must_be_signer && !caller.is_live_signer ==> r == Err::<
            (),
            LedgerError,
        >(LedgerError::MissingSignature),
        r is Ok <==> caller.identity == *owner && (must_be_signer ==> caller.is_live_signer),
{
    if caller.identity != *owner {
        return Err(LedgerError::Unauthorized);
    }
    if must_be_signer && !caller.is_live_signer {
        return Err(LedgerError::MissingSignature);
    }
    Ok(())
}

/// Checks that `caller` signed this request, whoever it is.
pub fn require_signature(caller: &Caller) -> (r: Result<(), LedgerError>)
    ensures
        r is Ok <==> caller.is_live_signer,
        r is Err ==> r->Err_0 == LedgerError::MissingSignature,
{
    if caller.is_live_signer {
        Ok(())
    } else {
        Err(LedgerError::MissingSignature)
    }
}

/// A caller that never signs is refused on every entry it is required to
/// sign for: with `Unauthorized` where it is not the owner, with
/// `MissingSignature` where it is.
pub proof fn lemma_unsigned_caller_is_refused(owner: Pubkey, caller: Caller)
    requires
        !caller.is_live_signer,
    ensures
        spec_authorize(owner, caller, true) is Err,
        caller.identity == owner ==> spec_authorize(owner, caller, true) == Err::<
            (),
            LedgerError,
        >(LedgerError::MissingSignature),
        caller.identity != owner ==> spec_authorize(owner, caller, true) == Err::<
            (),
            LedgerError,
        >(LedgerError::Unauthorized),
{
}

} // verus!
