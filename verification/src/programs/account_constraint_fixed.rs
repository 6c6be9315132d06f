//! A vault that only its owner can draw on.

use crate::error::LedgerError;
use crate::guards::address::{claim_for_key, spec_claim, spec_derive};
use crate::guards::arithmetic::checked_sub;
use crate::guards::authorization::{authorize, spec_authorize};
use crate::guards::lifecycle::{create_claimed, spec_create_claimed, LedgerEntry};
use crate::pubkey::{Caller, Pubkey};
use vstd::prelude::*;

pub use crate::tags::VAULT_SEED;
pub use crate::vault::Vault;

verus! {

/// The failures of this program: `InsufficientFunds`, and those of its guards.
pub type ErrorCode = LedgerError;

/// Creates the vault of `owner` with the balance `initial_balance`, at the
/// address that the owner's key derives.
pub fn initialize(
    vault: &mut LedgerEntry<Vault>,
    owner: &Caller,
    program_id: &Pubkey,
    initial_balance: u64,
) -> (r: Result<(), LedgerError>)
    ensures
        (r, *final(vault)) == spec_create_claimed(
            *old(vault),
            spec_claim(
                spec_derive(VAULT_SEED@, seq![owner.identity@], program_id@),
                old(vault).address@,
            ),
            *owner,
            Vault { owner: owner.identity, balance: initial_balance },
        ),
{
    let claimed = claim_for_key(&vault.address, VAULT_SEED.as_slice(), &owner.identity, program_id);
    create_claimed(vault, claimed, owner, Vault { owner: owner.identity, balance: initial_balance })
}

/// What `withdraw` leaves as the balance: the caller has to be the owner
/// and has to sign, and the vault has to hold the amount.
pub open spec fn spec_withdraw(vault: Vault, owner: Caller, amount: u64) -> Result<u64, LedgerError> {
    match spec_authorize(vault.owner, owner, true) {
        Err(e) => Err(e),
        Ok(_) => if vault.balance < amount {
            Err(LedgerError::InsufficientFunds)
        } else {
            Ok((vault.balance - amount) as u64)
        },
    }
}

/// Takes `amount` from the vault for its owner. Any other caller is
/// refused with `Unauthorized`, the owner named without signature with
/// `MissingSignature`, an amount above the balance with
/// `InsufficientFunds`. A refused request leaves the vault as it was.
pub fn withdraw(vault: &mut Vault, owner: &Caller, amount: u64) -> (r: Result<(), LedgerError>)
    ensures
        match spec_withdraw(*old(vault), *owner, amount) {
            Ok(balance) => r is Ok && final(vault).balance == balance,
            Err(e) => r == Err::<(), LedgerError>(e) && final(vault).balance == old(vault).balance,
        },
        final(vault).owner == old(vault).owner,
{
    authorize(&vault.owner, owner, true)?;
    if vault.balance < amount {
        return Err(LedgerError::InsufficientFunds);
    }
    vault.balance = checked_sub(vault.balance, amount)?;
    Ok(())
}

/// Nobody but the owner ever lowers the balance.
pub proof fn lemma_only_the_owner_withdraws(vault: Vault, caller: Caller, amount: u64)
    requires
        caller.identity != vault.owner,
    ensures
        spec_withdraw(vault, caller, amount) == Err::<u64, LedgerError>(LedgerError::Unauthorized),
{
}

} // verus!
