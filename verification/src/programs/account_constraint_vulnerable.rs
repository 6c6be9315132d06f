//! A vault that any signer can draw on.

use crate::error::LedgerError;
use crate::guards::address::{claim_for_key, spec_claim, spec_derive};
use crate::guards::arithmetic::checked_sub;
use crate::guards::authorization::require_signature;
use crate::guards::lifecycle::{create_claimed, spec_create_claimed, LedgerEntry};
use crate::pubkey::{Caller, Pubkey};
use vstd::prelude::*;

pub use crate::tags::VAULT_SEED;
pub use crate::vault::Vault;

verus! {

/// The failures of this program: `InsufficientFunds`, and those of its guards.
pub type ErrorCode = LedgerError;

/// Creates the vault of `owner` with the balance `initial_balance`, at the
/// address that the owner's key derives.
pub fn initialize(
    vault: &mut LedgerEntry<Vault>,
    owner: &Caller,
    program_id: &Pubkey,
    initial_balance: u64,
) -> (r: Result<(), LedgerError>)
    ensures
        (r, *final(vault)) == spec_create_claimed(
            *old(vault),
            spec_claim(
                spec_derive(VAULT_SEED@, seq![owner.identity@], program_id@),
                old(vault).address@,
            ),
            *owner,
            Vault { owner: owner.identity, balance: initial_balance },
        ),
{
    let claimed = claim_for_key(&vault.address, VAULT_SEED.as_slice(), &owner.identity, program_id);
    create_claimed(vault, claimed, owner, Vault { owner: owner.identity, balance: initial_balance })
}

/// What `withdraw` leaves as the balance: the caller has to sign, and the
/// vault has to hold the amount. Who the caller is, is not asked.
pub open spec fn spec_withdraw(vault: Vault, caller: Caller, amount: u64) -> Result<
    u64,
    LedgerError,
> {
    if !caller.is_live_signer {
        Err(LedgerError::MissingSignature)
    } else if vault.balance < amount {
        Err(LedgerError::InsufficientFunds)
    } else {
        Ok((vault.balance - amount) as u64)
    }
}

/// Takes `amount` from the vault for any caller that signs: the owner
/// recorded on the vault is not compared with the caller. A refused request
/// leaves the vault as it was.
pub fn withdraw(vault: &mut Vault, caller: &Caller, amount: u64) -> (r: Result<(), LedgerError>)
    ensures
        match spec_withdraw(*old(vault), *caller, amount) {
            Ok(balance) => r is Ok && final(vault).balance == balance,
            Err(e) => r == Err::<(), LedgerError>(e) && final(vault).balance == old(vault).balance,
        },
        final(vault).owner == old(vault).owner,
{
    require_signature(caller)?;
    if vault.balance < amount {
        return Err(LedgerError::InsufficientFunds);
    }
    vault.balance = checked_sub(vault.balance, amount)?;
    Ok(())
}

/// A signer that is not the owner empties the vault.
pub proof fn lemma_a_stranger_withdraws(vault: Vault, caller: Caller)
    requires
        caller.is_live_signer,
        caller.identity != vault.owner,
    ensures
        spec_withdraw(vault, caller, vault.balance) == Ok::<u64, LedgerError>(0),
{
}

} // verus!
