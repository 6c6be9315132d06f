//! Settlement between two vaults, followed by a token transfer that another
//! program carries out.
//!
//! The balances of the two vaults are changed directly. The host compares
//! balances at the boundary of every delegated call, over the accounts the
//! call was given: an account that was changed and is not among them makes
//! the call, and with it the whole request, fail.

use crate::account::AccountInfo;
use crate::error::LedgerError;
use crate::guards::arithmetic::{checked_add, checked_sub};
use crate::guards::authorization::require_signature;
use crate::guards::conservation::{before_invoke, covers, holds_key, validate_callee, Invocation};
use crate::pubkey::{Caller, Pubkey};
use vstd::prelude::*;

verus! {

/// The number of tokens that the delegated transfer moves.
pub const TRANSFER_AMOUNT: u64 = 1;

/// The number of accounts the token transfer itself works on.
pub const TOKEN_ACCOUNTS: usize = 3;

/// The accounts the token transfer itself works on.
pub open spec fn token_accounts(token_source: Pubkey, token_dest: Pubkey, authority: Pubkey) -> Seq<
    Pubkey,
> {
    seq![token_source, token_dest, authority]
}

/// The vaults whose balance a settlement of `amount` changes directly.
pub open spec fn mutated_vaults(vault_a: Pubkey, vault_b: Pubkey, amount: u64) -> Seq<Pubkey> {
    if amount > 0 {
        seq![vault_a, vault_b]
    } else {
        Seq::<Pubkey>::empty()
    }
}

/// The balances that a settlement leaves in the two vaults, or why it is
/// refused. In turn: the authority has to sign, the debit and the credit
/// have to fit, the token program has to be trusted, and the accounts of
/// the delegated call have to cover the vaults that were changed.
pub open spec fn spec_settlement(
    balance_a: u64,
    balance_b: u64,
    authority: Caller,
    token_program: Pubkey,
    trusted_programs: Seq<Pubkey>,
    directly_mutated: Seq<Pubkey>,
    resource_set: Seq<Pubkey>,
    amount: u64,
) -> Result<(u64, u64), LedgerError> {
    if !authority.is_live_signer {
        Err(LedgerError::MissingSignature)
    } else if balance_a < amount {
        Err(LedgerError::Underflow)
    } else if balance_b + amount > u64::MAX {
        Err(LedgerError::Overflow)
    } else if !holds_key(trusted_programs, token_program) {
        Err(LedgerError::UntrustedCallee)
    } else if !covers(resource_set, directly_mutated) {
        Err(LedgerError::UnbalancedDelegatedCall)
    } else {
        Ok(((balance_a - amount) as u64, (balance_b + amount) as u64))
    }
}

/// A settlement that goes through moves value from one vault to the other
/// and makes none: the two balances add up to what they added up to before.
pub proof fn lemma_settlement_conserves_value(
    balance_a: u64,
    balance_b: u64,
    authority: Caller,
    token_program: Pubkey,
    trusted_programs: Seq<Pubkey>,
    directly_mutated: Seq<Pubkey>,
    resource_set: Seq<Pubkey>,
    amount: u64,
)
    ensures
        match spec_settlement(
            balance_a,
            balance_b,
            authority,
            token_program,
            trusted_programs,
            directly_mutated,
            resource_set,
            amount,
        ) {
            Ok((after_a, after_b)) => after_a + after_b == balance_a + balance_b,
            Err(_) => true,
        },
{
}

/// Whether `after` is `before` with the balance `lamports` and nothing else
/// changed.
pub open spec fn only_balance_set(before: AccountInfo, after: AccountInfo, lamports: u64) -> bool {
    &&& after.key == before.key
    &&& after.is_signer == before.is_signer
    &&& after.is_writable == before.is_writable
    &&& after.data == before.data
    &&& after.lamports == lamports
}

/// Settles `amount` between the vaults and clears the delegated call with
/// the accounts of `resource_set`.
fn settle(
    vault_a: &mut AccountInfo,
    vault_b: &mut AccountInfo,
    authority: &Caller,
    token_program: &Pubkey,
    trusted_programs: &Vec<Pubkey>,
    resource_set: Vec<Pubkey>,
    amount: u64,
) -> (r: Result<Invocation, LedgerError>)
    ensures
        match spec_settlement(
            old(vault_a).lamports,
            old(vault_b).lamports,
            *authority,
            *token_program,
            trusted_programs@,
            mutated_vaults(old(vault_a).key, old(vault_b).key, amount),
            resource_set@,
            amount,
        ) {
            Ok((balance_a, balance_b)) => {
                &&& r is Ok
                &&& r->Ok_0.target == *token_program
                &&& r->Ok_0.resource_set@ == resource_set@
                &&& only_balance_set(*old(vault_a), *final(vault_a), balance_a)
                &&& only_balance_set(*old(vault_b), *final(vault_b), balance_b)
            },
            Err(e) => {
                &&& r is Err
                &&& r->Err_0 == e
                &&& *final(vault_a) == *old(vault_a)
                &&& *final(vault_b) == *old(vault_b)
            },
        },
{
    require_signature(authority)?;
    let balance_a = checked_sub(vault_a.lamports, amount)?;
    let balance_b = checked_add(vault_b.lamports, amount)?;
    validate_callee(token_program, trusted_programs)?;
    let directly_mutated: Vec<Pubkey> = if amount > 0 {
        vec![vault_a.key, vault_b.key]
    } else {
        Vec::new()
    };
    assert(directly_mutated@ =~= mutated_vaults(vault_a.key, vault_b.key, amount));
    let invocation = before_invoke(*token_program, &directly_mutated, resource_set)?;
    vault_a.lamports = balance_a;
    vault_b.lamports = balance_b;
    Ok(invocation)
}

/// Moves `amount` from `vault_a` to `vault_b` and prepares the token
/// transfer with the accounts of the transfer alone. Whenever a balance was
/// changed, a changed vault is missing from the call: the request fails with
/// `UnbalancedDelegatedCall` and the vaults keep their balances. Only a
/// settlement that changes nothing, or vaults that happen to be accounts of
/// the transfer, pass.
pub fn vulnerable_settlement(
    vault_a: &mut AccountInfo,
    vault_b: &mut AccountInfo,
    token_source: &Pubkey,
    token_dest: &Pubkey,
    authority: &Caller,
    token_program: &Pubkey,
    trusted_programs: &Vec<Pubkey>,
    amount: u64,
) -> (r: Result<Invocation, LedgerError>)
    ensures
        match spec_settlement(
            old(vault_a).lamports,
            old(vault_b).lamports,
            *authority,
            *token_program,
            trusted_programs@,
            mutated_vaults(old(vault_a).key, old(vault_b).key, amount),
            token_accounts(*token_source, *token_dest, authority.identity),
            amount,
        ) {
            Ok((balance_a, balance_b)) => {
                &&& r is Ok
                &&& r->Ok_0.target == *token_program
                &&& r->Ok_0.resource_set@ == token_accounts(
                    *token_source,
                    *token_dest,
                    authority.identity,
                )
                &&& only_balance_set(*old(vault_a), *final(vault_a), balance_a)
                &&& only_balance_set(*old(vault_b), *final(vault_b), balance_b)
            },
            Err(e) => {
                &&& r is Err
                &&& r->Err_0 == e
                &&& *final(vault_a) == *old(vault_a)
                &&& *final(vault_b) == *old(vault_b)
            },
        },
{
    let resource_set: Vec<Pubkey> = vec![*token_source, *token_dest, authority.identity];
    assert(resource_set@ =~= token_accounts(*token_source, *token_dest, authority.identity));
    settle(vault_a, vault_b, authority, token_program, trusted_programs, resource_set, amount)
}

/// The accounts of the delegated call of the safe settlement: those of the
/// transfer, then the two vaults.
pub open spec fn settlement_accounts(
    token_source: Pubkey,
    token_dest: Pubkey,
    authority: Pubkey,
    vault_a: Pubkey,
    vault_b: Pubkey,
) -> Seq<Pubkey> {
    seq![token_source, token_dest, authority, vault_a, vault_b]
}

/// The accounts of the safe settlement cover the vaults it changes.
pub proof fn lemma_settlement_accounts_cover(
    token_source: Pubkey,
    token_dest: Pubkey,
    authority: Pubkey,
    vault_a: Pubkey,
    vault_b: Pubkey,
    amount: u64,
)
    ensures
        covers(
            settlement_accounts(token_source, token_dest, authority, vault_a, vault_b),
            mutated_vaults(vault_a, vault_b, amount),
        ),
{
    let accounts = settlement_accounts(token_source, token_dest, authority, vault_a, vault_b);
    let mutated = mutated_vaults(vault_a, vault_b, amount);
    assert(accounts[3] == vault_a);
    assert(accounts[4] == vault_b);
    assert forall|i: int| 0 <= i < mutated.len() implies holds_key(
        accounts,
        #[trigger] mutated[i],
    ) by {
        if i == 0 {
            assert(accounts[3] == mutated[i]);
        } else {
            assert(accounts[4] == mutated[i]);
        }
    }
}

/// Moves `amount` from `vault_a` to `vault_b` and prepares the token
/// transfer with the accounts of the transfer and the two vaults, although
/// the transfer does not use the vaults. The call is never unbalanced.
pub fn safe_settlement(
    vault_a: &mut AccountInfo,
    vault_b: &mut AccountInfo,
    token_source: &Pubkey,
    token_dest: &Pubkey,
    authority: &Caller,
    token_program: &Pubkey,
    trusted_programs: &Vec<Pubkey>,
    amount: u64,
) -> (r: Result<Invocation, LedgerError>)
    ensures
        match spec_settlement(
            old(vault_a).lamports,
            old(vault_b).lamports,
            *authority,
            *token_program,
            trusted_programs@,
            mutated_vaults(old(vault_a).key, old(vault_b).key, amount),
            settlement_accounts(
                *token_source,
                *token_dest,
                authority.identity,
                old(vault_a).key,
                old(vault_b).key,
            ),
            amount,
        ) {
            Ok((balance_a, balance_b)) => {
                &&& r is Ok
                &&& r->Ok_0.target == *token_program
                &&& r->Ok_0.resource_set@ == settlement_accounts(
                    *token_source,
                    *token_dest,
                    authority.identity,
                    old(vault_a).key,
                    old(vault_b).key,
                )
                &&& only_balance_set(*old(vault_a), *final(vault_a), balance_a)
                &&& only_balance_set(*old(vault_b), *final(vault_b), balance_b)
            },
            Err(e) => {
                &&& r is Err
                &&& r->Err_0 == e
                &&& *final(vault_a) == *old(vault_a)
                &&& *final(vault_b) == *old(vault_b)
            },
        },
        r is Err ==> r->Err_0 != LedgerError::UnbalancedDelegatedCall,
{
    let resource_set: Vec<Pubkey> = vec![
        *token_source,
        *token_dest,
        authority.identity,
        vault_a.key,
        vault_b.key,
    ];
    assert(resource_set@ =~= settlement_accounts(
        *token_source,
        *token_dest,
        authority.identity,
        vault_a.key,
        vault_b.key,
    ));
    proof {
        lemma_settlement_accounts_cover(
            *token_source,
            *token_dest,
            authority.identity,
            vault_a.key,
            vault_b.key,
            amount,
        );
    }
    settle(vault_a, vault_b, authority, token_program, trusted_programs, resource_set, amount)
}

/// The accounts of a cleared settlement that are handed over with the
/// transfer although the transfer does not work on them: those behind the
/// accounts of the transfer.
pub open spec fn spec_remaining_accounts(resource_set: Seq<Pubkey>) -> Seq<Pubkey> {
    if resource_set.len() >= TOKEN_ACCOUNTS {
        resource_set.subrange(TOKEN_ACCOUNTS as int, resource_set.len() as int)
    } else {
        Seq::<Pubkey>::empty()
    }
}

/// The accounts of a cleared settlement that are handed over with the
/// transfer although the transfer does not work on them.
pub fn remaining_accounts(invocation: &Invocation) -> (r: Vec<Pubkey>)
    ensures
        r@ == spec_remaining_accounts(invocation.resource_set@),
{
    let mut remaining: Vec<Pubkey> = Vec::new();
    if invocation.resource_set.len() < TOKEN_ACCOUNTS {
        return remaining;
    }
    let mut i: usize = TOKEN_ACCOUNTS;
    while i < invocation.resource_set.len()
        invariant
            TOKEN_ACCOUNTS <= i <= invocation.resource_set@.len(),
            remaining@ == invocation.resource_set@.subrange(TOKEN_ACCOUNTS as int, i as int),
        decreases invocation.resource_set@.len() - i,
    {
        remaining.push(invocation.resource_set[i]);
        assert(remaining@ =~= invocation.resource_set@.subrange(TOKEN_ACCOUNTS as int, i + 1));
        i += 1;
    }
    remaining
}

/// The safe settlement hands the two vaults over with the transfer; the
/// vulnerable one hands over nothing besides the accounts of the transfer.
pub proof fn lemma_remaining_accounts_of_the_settlements(
    token_source: Pubkey,
    token_dest: Pubkey,
    authority: Pubkey,
    vault_a: Pubkey,
    vault_b: Pubkey,
)
    ensures
        spec_remaining_accounts(
            settlement_accounts(token_source, token_dest, authority, vault_a, vault_b),
        ) == seq![vault_a, vault_b],
        spec_remaining_accounts(token_accounts(token_source, token_dest, authority)) == Seq::<
            Pubkey,
        >::empty(),
{
    assert(spec_remaining_accounts(
        settlement_accounts(token_source, token_dest, authority, vault_a, vault_b),
    ) =~= seq![vault_a, vault_b]);
    assert(spec_remaining_accounts(token_accounts(token_source, token_dest, authority))
        =~= Seq::<Pubkey>::empty());
}

} // verus!
