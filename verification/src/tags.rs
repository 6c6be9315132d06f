//! The domain tags: one fixed tag for each kind of entry that is addressed
//! by derivation.

use crate::guards::address::{
    concatenated, lemma_concatenated_one, lemma_concatenated_seed_list, seed_list,
};
use vstd::prelude::*;

verus! {

/// The domain tag of vault entries: the bytes of `vault`.
pub const VAULT_SEED: [u8; 5] = [0x76, 0x61, 0x75, 0x6c, 0x74];

/// The domain tag of user accounts: the bytes of `user`.
pub const USER_SEED: [u8; 4] = [0x75, 0x73, 0x65, 0x72];

/// The domain tag of reward entries: the bytes of `rewards`.
pub const REWARDS_SEED: [u8; 7] = [0x72, 0x65, 0x77, 0x61, 0x72, 0x64, 0x73];

/// The domain tag of user state entries: the bytes of `user_state`.
pub const USER_STATE_SEED: [u8; 10] = [0x75, 0x73, 0x65, 0x72, 0x5f, 0x73, 0x74, 0x61, 0x74, 0x65];

/// The tags of all kinds of entries.
pub open spec fn domain_tags() -> Seq<Seq<u8>> {
    seq![VAULT_SEED@, USER_SEED@, REWARDS_SEED@, USER_STATE_SEED@]
}

/// No two kinds of entries have the same tag.
pub proof fn lemma_domain_tags_are_distinct()
    ensures
        forall|i: int, j: int|
            0 <= i < j < domain_tags().len() ==> domain_tags()[i] != domain_tags()[j],
{
    assert(VAULT_SEED@.len() == 5);
    assert(USER_SEED@.len() == 4);
    assert(REWARDS_SEED@.len() == 7);
    assert(USER_STATE_SEED@.len() == 10);
}

/// The width of the one seed that an entry of each kind is derived from:
/// a key of 32 bytes for vaults, user accounts and rewards, a number of 8
/// bytes for user states.
pub open spec fn seed_widths() -> Seq<nat> {
    seq![32, 32, 32, 8]
}

/// The bytes that the derivation reads for the entry of kind `kind` with
/// `seed`: the tag, then the seed.
pub open spec fn derivation_bytes(kind: int, seed: Seq<u8>) -> Seq<u8> {
    concatenated(seed_list(domain_tags()[kind], seq![seed]))
}

/// The bytes of a tag and one seed are the tag followed by the seed.
pub proof fn lemma_derivation_bytes(kind: int, seed: Seq<u8>)
    requires
        0 <= kind < domain_tags().len(),
    ensures
        derivation_bytes(kind, seed) == domain_tags()[kind] + seed,
{
    lemma_concatenated_seed_list(domain_tags()[kind], seq![seed]);
    lemma_concatenated_one(seed);
}

/// Entries of two different kinds never give the same bytes to the
/// derivation, whatever their seeds hold: one tag may start another, but
/// with seeds of the widths of their kinds the bytes differ in length.
pub proof fn lemma_kinds_have_bytes_of_their_own(
    i: int,
    j: int,
    seed_i: Seq<u8>,
    seed_j: Seq<u8>,
)
    requires
        0 <= i < domain_tags().len(),
        0 <= j < domain_tags().len(),
        i != j,
        seed_i.len() == seed_widths()[i],
        seed_j.len() == seed_widths()[j],
    ensures
        derivation_bytes(i, seed_i) != derivation_bytes(j, seed_j),
{
    lemma_derivation_bytes(i, seed_i);
    lemma_derivation_bytes(j, seed_j);
    assert(VAULT_SEED@.len() == 5);
    assert(USER_SEED@.len() == 4);
    assert(REWARDS_SEED@.len() == 7);
    assert(USER_STATE_SEED@.len() == 10);
    assert(derivation_bytes(i, seed_i).len() == domain_tags()[i].len() + seed_i.len());
    assert(derivation_bytes(j, seed_j).len() == domain_tags()[j].len() + seed_j.len());
}

} // verus!
