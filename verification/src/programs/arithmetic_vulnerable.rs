//! A vault whose balance changes by unchecked arithmetic.

use crate::error::LedgerError;
use crate::guards::address::{claim_for_key, spec_claim, spec_derive};
use crate::guards::arithmetic::{unchecked_add, unchecked_sub, wrapped};
use crate::guards::authorization::require_signature;
use crate::guards::lifecycle::{create_claimed, spec_create_claimed, LedgerEntry};
use crate::pubkey::{Caller, Pubkey};
use vstd::prelude::*;

pub use crate::tags::VAULT_SEED;
pub use crate::vault::Vault;

verus! {

/// Creates the vault of `user` with balance zero, at the address that the
/// user's key derives.
pub fn initialize(vault: &mut LedgerEntry<Vault>, user: &Caller, program_id: &Pubkey) -> (r: Result<
    (),
    LedgerError,
>)
    ensures
        (r, *final(vault)) == spec_create_claimed(
            *old(vault),
            spec_claim(
                spec_derive(VAULT_SEED@, seq![user.identity@], program_id@),
                old(vault).address@,
            ),
            *user,
            Vault { owner: user.identity, balance: 0 },
        ),
{
    let claimed = claim_for_key(&vault.address, VAULT_SEED.as_slice(), &user.identity, program_id);
    create_claimed(vault, claimed, user, Vault { owner: user.identity, balance: 0 })
}

/// Adds `amount` to the balance for a signing user. A sum above
/// `u64::MAX` is not refused: the balance wraps round and ends up below
/// what it was.
pub fn deposit(vault: &mut Vault, user: &Caller, amount: u64) -> (r: Result<(), LedgerError>)
    ensures
        r is Ok <==> user.is_live_signer,
        r is Err ==> r->Err_0 == LedgerError::MissingSignature,
        r is Err ==> final(vault).balance == old(vault).balance,
        r is Ok ==> final(vault).balance == wrapped(old(vault).balance + amount),
        r is Ok && old(vault).balance + amount > u64::MAX ==> final(vault).balance < old(vault)
            .balance,
        final(vault).owner == old(vault).owner,
{
    require_signature(user)?;
    vault.balance = unchecked_add(vault.balance, amount);
    Ok(())
}

/// Takes `amount` from the balance for a signing user. An amount above
/// the balance is not refused: the balance wraps round and ends up above
/// what it was.
pub fn withdraw(vault: &mut Vault, user: &Caller, amount: u64) -> (r: Result<(), LedgerError>)
    ensures
        r is Ok <==> user.is_live_signer,
        r is Err ==> r->Err_0 == LedgerError::MissingSignature,
        r is Err ==> final(vault).balance == old(vault).balance,
        r is Ok ==> final(vault).balance == wrapped(old(vault).balance - amount),
        r is Ok && old(vault).balance < amount ==> final(vault).balance > old(vault).balance,
        final(vault).owner == old(vault).owner,
{
    require_signature(user)?;
    vault.balance = unchecked_sub(vault.balance, amount);
    Ok(())
}

} // verus!
