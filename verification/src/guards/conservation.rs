//! Delegated invocations: the target is trusted, and the accounts handed
//! over cover every entry whose balance was changed directly.

use crate::error::LedgerError;
use crate::pubkey::Pubkey;
use vstd::prelude::*;

verus! {

/// A delegated invocation that passed the guards: the program to call and
/// the accounts to hand to it.
#[derive(Clone, Debug, PartialEq, Eq)]
pub struct Invocation {
    pub target: Pubkey,
    pub resource_set: Vec<Pubkey>,
}

/// Whether `key` occurs in `keys`.
pub open spec fn holds_key(keys: Seq<Pubkey>, key: Pubkey) -> bool {
    exists|i: int| 0 <= i < keys.len() && keys[i] == key
}

/// Whether every key of `directly_mutated` occurs in `resource_set`.
pub open spec fn covers(resource_set: Seq<Pubkey>, directly_mutated: Seq<Pubkey>) -> bool {
    forall|i: int|
        0 <= i < directly_mutated.len() ==> holds_key(resource_set, #[trigger] directly_mutated[i])
}

/// Whether `key` occurs in `keys`.
pub fn contains_key(keys: &Vec<Pubkey>, key: &Pubkey) -> (r: bool)
    ensures
        r == holds_key(keys@, *key),
{
    let mut i: usize = 0;
    while i < keys.len()
        invariant
            i <= keys@.len(),
            forall|j: int| 0 <= j < i ==> keys@[j] != *key,
        decreases keys@.len() - i,
    {
        if keys[i] == *key {
            return true;
        }
        i += 1;
    }
    false
}

/// Accepts `target` exactly when the allow-list names it. To be run before
/// any invocation whose target the request supplies.
pub fn validate_callee(target: &Pubkey, allow_list: &Vec<Pubkey>) -> (r: Result<(), LedgerError>)
    ensures
        r is Ok <==> holds_key(allow_list@, *target),
        r is Err ==> r->Err_0 == LedgerError::UntrustedCallee,
{
    if contains_key(allow_list, target) {
        Ok(())
    } else {
        Err(LedgerError::UntrustedCallee)
    }
}

/// The text that `key` is written as in base 58.
pub uninterp spec fn base58_text(key: Seq<u8>) -> Seq<char>;

/// Calls `to_string` on the `Pubkey` of `solana_program` made of the bytes
/// of `key`. The result is the text named by `base58_text` for those bytes.
#[verifier::external_body]
fn to_base58(key: &Pubkey) -> (r: String)
    ensures
        r@ == base58_text(key@),
{
    solana_program::pubkey::Pubkey::new_from_array(key.bytes).to_string()
}

/// Judges the written form of a target against the name of the one trusted
/// program: accepted exactly when the two are the same text.
pub fn check_callee_name(name: &String, trusted_name: &str) -> (r: Result<(), LedgerError>)
    ensures
        r is Ok <==> name@ == trusted_name@,
        r is Err ==> r->Err_0 == LedgerError::UntrustedCallee,
{
    let trusted = trusted_name.to_owned();
    if *name == trusted {
        Ok(())
    } else {
        Err(LedgerError::UntrustedCallee)
    }
}

/// Accepts `target` exactly when its base-58 form is `trusted_name`.
pub fn validate_callee_name(target: &Pubkey, trusted_name: &str) -> (r: Result<(), LedgerError>)
    ensures
        r is Ok <==> base58_text(target@) == trusted_name@,
        r is Err ==> r->Err_0 == LedgerError::UntrustedCallee,
{
    let name = to_base58(target);
    check_callee_name(&name, trusted_name)
}

/// Clears an invocation of `target` with the accounts of `resource_set`
/// exactly when every entry of `directly_mutated` is among them; otherwise
/// the call is unbalanced at the boundary and is refused.
pub fn before_invoke(
    target: Pubkey,
    directly_mutated: &Vec<Pubkey>,
    resource_set: Vec<Pubkey>,
) -> (r: Result<Invocation, LedgerError>)
    ensures
        r is Ok <==> covers(resource_set@, directly_mutated@),
        r is Ok ==> r->Ok_0.target == target && r->Ok_0.resource_set@ == resource_set@,
        r is Err ==> r->Err_0 == LedgerError::UnbalancedDelegatedCall,
{
    let mut i: usize = 0;
    while i < directly_mutated.len()
        invariant
            i <= directly_mutated@.len(),
            forall|j: int| 0 <= j < i ==> holds_key(resource_set@, #[trigger] directly_mutated@[j]),
        decreases directly_mutated@.len() - i,
    {
        if !contains_key(&resource_set, &directly_mutated[i]) {
            return Err(LedgerError::UnbalancedDelegatedCall);
        }
        i += 1;
    }
    Ok(Invocation { target, resource_set })
}

/// Accounts added to a set that covers the mutated entries leave it covering
/// them.
pub proof fn lemma_more_accounts_still_cover(
    resource_set: Seq<Pubkey>,
    more: Seq<Pubkey>,
    directly_mutated: Seq<Pubkey>,
)
    requires
        covers(resource_set, directly_mutated),
    ensures
        covers(resource_set + more, directly_mutated),
{
    assert forall|i: int| 0 <= i < directly_mutated.len() implies holds_key(
        resource_set + more,
        #[trigger] directly_mutated[i],
    ) by {
        let k = choose|k: int| 0 <= k < resource_set.len() && resource_set[k] == directly_mutated[i];
        assert((resource_set + more)[k] == directly_mutated[i]);
    }
}

/// A set from which a mutated entry is missing is refused.
pub proof fn lemma_missing_entry_is_unbalanced(
    resource_set: Seq<Pubkey>,
    directly_mutated: Seq<Pubkey>,
    i: int,
)
    requires
        0 <= i < directly_mutated.len(),
        !holds_key(resource_set, directly_mutated[i]),
    ensures
        !covers(resource_set, directly_mutated),
{
}

} // verus!
