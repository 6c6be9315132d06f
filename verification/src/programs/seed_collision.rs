//! Entries addressed by a number that the user chooses.
//!
//! An address derived from the number alone belongs to whatever kind of
//! entry is derived from that number first. With a fixed tag in front of
//! the number, the derivation of a user state reads bytes that the
//! derivation of no other kind of entry reads.

use crate::error::LedgerError;
use crate::guards::address::{
    claim_for_id, claim_for_id_without_tag, concatenated, lemma_concatenated_one,
    lemma_concatenated_seed_list, program_address, seed_list, spec_claim, spec_derive,
};
use crate::guards::lifecycle::{create_claimed, spec_create_claimed, LedgerEntry};
use crate::guards::record::u64_to_le;
use crate::pubkey::{Caller, Pubkey};
use vstd::prelude::*;

pub use crate::tags::USER_STATE_SEED;

verus! {

/// The state of one user.
#[derive(Clone, Copy, Debug, PartialEq, Eq)]
pub struct State {
    pub owner: Pubkey,
    pub user_id: u64,
}

impl State {
    /// The bytes the fields take in storage.
    pub const INIT_SPACE: usize = 32 + 8;
}

/// Creates the state of a signing user at the address derived from
/// `user_id` alone.
pub fn initialize_vulnerable(
    state: &mut LedgerEntry<State>,
    user: &Caller,
    program_id: &Pubkey,
    user_id: u64,
) -> (r: Result<(), LedgerError>)
    ensures
        (r, *final(state)) == spec_create_claimed(
            *old(state),
            spec_claim(program_address(seq![u64_to_le(user_id)], program_id@), old(state).address@),
            *user,
            State { owner: user.identity, user_id },
        ),
{
    let claimed = claim_for_id_without_tag(&state.address, user_id, program_id);
    create_claimed(state, claimed, user, State { owner: user.identity, user_id })
}

/// Creates the state of a signing user at the address derived from the tag
/// of user states and `user_id`.
pub fn initialize_safe(
    state: &mut LedgerEntry<State>,
    user: &Caller,
    program_id: &Pubkey,
    user_id: u64,
) -> (r: Result<(), LedgerError>)
    ensures
        (r, *final(state)) == spec_create_claimed(
            *old(state),
            spec_claim(
                spec_derive(USER_STATE_SEED@, seq![u64_to_le(user_id)], program_id@),
                old(state).address@,
            ),
            *user,
            State { owner: user.identity, user_id },
        ),
{
    let claimed = claim_for_id(&state.address, USER_STATE_SEED.as_slice(), user_id, program_id);
    create_claimed(state, claimed, user, State { owner: user.identity, user_id })
}

/// The tagged derivation of a user state never reads the bytes that an
/// untagged derivation reads for any number: the tag makes them longer.
pub proof fn lemma_tag_separates_states(user_id: u64, other_id: u64)
    ensures
        concatenated(seed_list(USER_STATE_SEED@, seq![u64_to_le(user_id)])) != concatenated(
            seq![u64_to_le(other_id)],
        ),
{
    lemma_concatenated_seed_list(USER_STATE_SEED@, seq![u64_to_le(user_id)]);
    lemma_concatenated_one(u64_to_le(user_id));
    lemma_concatenated_one(u64_to_le(other_id));
    assert(USER_STATE_SEED@.len() == 10);
    assert(u64_to_le(user_id).len() == 8);
    assert(u64_to_le(other_id).len() == 8);
    assert((USER_STATE_SEED@ + u64_to_le(user_id)).len() == 18);
}

} // verus!
