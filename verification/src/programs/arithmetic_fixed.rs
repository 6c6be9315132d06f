//! A vault whose balance changes by checked arithmetic.

use crate::error::LedgerError;
use crate::guards::address::{claim_for_key, spec_claim, spec_derive};
use crate::guards::arithmetic::{checked_add, checked_sub};
use crate::guards::authorization::require_signature;
use crate::guards::lifecycle::{create_claimed, spec_create_claimed, LedgerEntry};
use crate::pubkey::{Caller, Pubkey};
use vstd::prelude::*;

pub use crate::tags::VAULT_SEED;
pub use crate::vault::Vault;

verus! {

/// The failures of this program: `Overflow`, `Underflow`, and those of its guards.
pub type CustomError = LedgerError;

/// Creates the vault of `user` with balance zero, at the address that the
/// user's key derives.
pub fn initialize(vault: &mut LedgerEntry<Vault>, user: &Caller, program_id: &Pubkey) -> (r: Result<
    (),
    LedgerError,
>)
    ensures
        (r, *final(vault)) == spec_create_claimed(
            *old(vault),
            spec_claim(
                spec_derive(VAULT_SEED@, seq![user.identity@], program_id@),
                old(vault).address@,
            ),
            *user,
            Vault { owner: user.identity, balance: 0 },
        ),
{
    let claimed = claim_for_key(&vault.address, VAULT_SEED.as_slice(), &user.identity, program_id);
    create_claimed(vault, claimed, user, Vault { owner: user.identity, balance: 0 })
}

/// The balance that `deposit` leaves: the user has to sign, and the sum has
/// to fit.
pub open spec fn spec_deposit(vault: Vault, user: Caller, amount: u64) -> Result<u64, LedgerError> {
    if !user.is_live_signer {
        Err(LedgerError::MissingSignature)
    } else if vault.balance + amount > u64::MAX {
        Err(LedgerError::Overflow)
    } else {
        Ok((vault.balance + amount) as u64)
    }
}

/// The balance that `withdraw` leaves: the user has to sign, and the vault
/// has to hold the amount.
pub open spec fn spec_withdraw(vault: Vault, user: Caller, amount: u64) -> Result<u64, LedgerError> {
    if !user.is_live_signer {
        Err(LedgerError::MissingSignature)
    } else if vault.balance < amount {
        Err(LedgerError::Underflow)
    } else {
        Ok((vault.balance - amount) as u64)
    }
}

/// Adds `amount` to the balance for a signing user, or fails with
/// `Overflow` and leaves the balance as it is.
pub fn deposit(vault: &mut Vault, user: &Caller, amount: u64) -> (r: Result<(), LedgerError>)
    ensures
        match spec_deposit(*old(vault), *user, amount) {
            Ok(balance) => r is Ok && final(vault).balance == balance,
            Err(e) => r == Err::<(), LedgerError>(e) && final(vault).balance == old(vault).balance,
        },
        final(vault).owner == old(vault).owner,
{
    require_signature(user)?;
    vault.balance = checked_add(vault.balance, amount)?;
    Ok(())
}

/// Takes `amount` from the balance for a signing user, or fails with
/// `Underflow` and leaves the balance as it is.
pub fn withdraw(vault: &mut Vault, user: &Caller, amount: u64) -> (r: Result<(), LedgerError>)
    ensures
        match spec_withdraw(*old(vault), *user, amount) {
            Ok(balance) => r is Ok && final(vault).balance == balance,
            Err(e) => r == Err::<(), LedgerError>(e) && final(vault).balance == old(vault).balance,
        },
        final(vault).owner == old(vault).owner,
{
    require_signature(user)?;
    vault.balance = checked_sub(vault.balance, amount)?;
    Ok(())
}

/// For a user who signed, a deposit fails with `Overflow` exactly when the
/// sum exceeds `u64::MAX`, and otherwise leaves the exact sum; a withdrawal
/// fails with `Underflow` exactly when the amount exceeds the balance, and
/// otherwise leaves the exact difference. Nothing else can fail.
pub proof fn lemma_signed_requests_fail_by_arithmetic_alone(vault: Vault, user: Caller, amount: u64)
    requires
        user.is_live_signer,
    ensures
        spec_deposit(vault, user, amount) is Err <==> vault.balance + amount > u64::MAX,
        spec_deposit(vault, user, amount) is Err ==> spec_deposit(vault, user, amount) == Err::<
            u64,
            LedgerError,
        >(LedgerError::Overflow),
        spec_deposit(vault, user, amount) is Ok ==> spec_deposit(vault, user, amount)->Ok_0
            == vault.balance + amount,
        spec_withdraw(vault, user, amount) is Err <==> vault.balance < amount,
        spec_withdraw(vault, user, amount) is Err ==> spec_withdraw(vault, user, amount) == Err::<
            u64,
            LedgerError,
        >(LedgerError::Underflow),
        spec_withdraw(vault, user, amount) is Ok ==> spec_withdraw(vault, user, amount)->Ok_0
            == vault.balance - amount,
{
}

} // verus!
