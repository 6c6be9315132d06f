//! Deterministic addressing: an entry lives at the address derived from a
//! domain tag, fixed per kind of entry, and the seeds of the entry.

use crate::error::LedgerError;
use crate::guards::record::{u64_le_bytes, u64_to_le};
use crate::pubkey::{lemma_pubkey_equal_by_bytes, Pubkey};
use vstd::prelude::*;
use vstd::slice::slice_to_vec;

verus! {

/// The most seeds, the tag included, that a derivation takes.
pub const MAX_SEEDS: usize = 16;

/// The most bytes that the tag or one seed may hold.
pub const MAX_SEED_LEN: usize = 32;

/// The address and bump seed that the host derives for a list of seeds under
/// a program, if it derives any.
pub uninterp spec fn program_address(seeds: Seq<Seq<u8>>, program_id: Seq<u8>) -> Option<
    (Seq<u8>, u8),
>;

/// The byte strings held in `seeds`.
pub open spec fn byte_strings(seeds: &Vec<Vec<u8>>) -> Seq<Seq<u8>> {
    seeds@.map_values(|seed: Vec<u8>| seed@)
}

/// The list handed to the derivation: the tag first, then the seeds.
pub open spec fn seed_list(domain_tag: Seq<u8>, seeds: Seq<Seq<u8>>) -> Seq<Seq<u8>> {
    seq![domain_tag] + seeds
}

/// The bytes of a list of seeds read one after another.
pub open spec fn concatenated(list: Seq<Seq<u8>>) -> Seq<u8>
    decreases list.len(),
{
    if list.len() == 0 {
        Seq::<u8>::empty()
    } else {
        list[0] + concatenated(list.drop_first())
    }
}

/// The address of the entry of kind `domain_tag` with `seeds`.
pub open spec fn spec_derive(domain_tag: Seq<u8>, seeds: Seq<Seq<u8>>, program_id: Seq<u8>) -> Option<
    (Seq<u8>, u8),
> {
    program_address(seed_list(domain_tag, seeds), program_id)
}

/// What `check_claim` answers for a derived address and a presented one.
pub open spec fn spec_claim(derived: Option<(Seq<u8>, u8)>, address: Seq<u8>) -> Result<
    u8,
    LedgerError,
> {
    match derived {
        Some((found, bump)) => if found == address {
            Ok(bump)
        } else {
            Err(LedgerError::AddressCollision)
        },
        None => Err(LedgerError::AddressCollision),
    }
}

/// Calls `Pubkey::try_find_program_address` of `solana_program`. The result
/// is the one named by `program_address` for these seeds and this program.
/// None is found for sixteen seeds or more, nor where a seed is longer than
/// 32 bytes.
#[verifier::external_body]
fn try_find_program_address(seeds: &Vec<Vec<u8>>, program_id: &Pubkey) -> (r: Option<(Pubkey, u8)>)
    ensures
        match r {
            Some((address, bump)) => program_address(byte_strings(seeds), program_id@) == Some(
                (address@, bump),
            ),
            None => program_address(byte_strings(seeds), program_id@) is None,
        },
        seeds@.len() >= MAX_SEEDS ==> r is None,
        (exists|i: int| 0 <= i < seeds@.len() && seeds@[i]@.len() > MAX_SEED_LEN) ==> r is None,
{
    let parts: Vec<&[u8]> = seeds.iter().map(|seed| seed.as_slice()).collect();
    let program = solana_program::pubkey::Pubkey::new_from_array(program_id.bytes);
    solana_program::pubkey::Pubkey::try_find_program_address(&parts, &program)
        .map(|(address, bump)| (Pubkey { bytes: address.to_bytes() }, bump))
}

/// Derives the address of the entry of kind `domain_tag` with `seeds`, and
/// the bump seed found with it. The tag is the first seed of the derivation.
/// Seeds count by their bytes read one after another: two kinds of entries
/// are kept apart where the bytes of tag and seeds together differ, which a
/// different tag alone does not ensure where one tag starts another. No
/// address is derived where the tag or a seed is longer than `MAX_SEED_LEN`,
/// or where tag and seeds together are `MAX_SEEDS` or more.
pub fn derive(domain_tag: &[u8], seeds: &Vec<Vec<u8>>, program_id: &Pubkey) -> (r: Option<
    (Pubkey, u8),
>)
    ensures
        match r {
            Some((address, bump)) => spec_derive(domain_tag@, byte_strings(seeds), program_id@)
                == Some((address@, bump)),
            None => spec_derive(domain_tag@, byte_strings(seeds), program_id@) is None,
        },
        domain_tag@.len() > MAX_SEED_LEN ==> r is None,
        seeds@.len() + 1 >= MAX_SEEDS ==> r is None,
        (exists|i: int| 0 <= i < seeds@.len() && seeds@[i]@.len() > MAX_SEED_LEN) ==> r is None,
{
    let mut list: Vec<Vec<u8>> = Vec::new();
    list.push(slice_to_vec(domain_tag));
    let mut i: usize = 0;
    while i < seeds.len()
        invariant
            i <= seeds@.len(),
            list@.len() == i + 1,
            list@[0]@ == domain_tag@,
            forall|j: int| 0 <= j < i ==> list@[j + 1]@ == seeds@[j]@,
        decreases seeds@.len() - i,
    {
        list.push(slice_to_vec(seeds[i].as_slice()));
        i += 1;
    }
    assert(byte_strings(&list) =~= seed_list(domain_tag@, byte_strings(seeds)));
    proof {
        if exists|k: int| 0 <= k < seeds@.len() && seeds@[k]@.len() > MAX_SEED_LEN {
            let k = choose|k: int| 0 <= k < seeds@.len() && seeds@[k]@.len() > MAX_SEED_LEN;
            assert(list@[k + 1]@.len() > MAX_SEED_LEN);
        }
        if domain_tag@.len() > MAX_SEED_LEN {
            assert(list@[0]@.len() > MAX_SEED_LEN);
        }
    }
    try_find_program_address(&list, program_id)
}

/// Checks a presented address against a derived one: the bump seed where
/// they are the same address, `AddressCollision` where they differ or where
/// nothing was derived.
pub fn check_claim(derived: Option<(Pubkey, u8)>, address: &Pubkey) -> (r: Result<u8, LedgerError>)
    ensures
        r == spec_claim(
            match derived {
                Some((found, bump)) => Some((found@, bump)),
                None => None,
            },
            address@,
        ),
{
    match derived {
        Some((found, bump)) => {
            proof {
                lemma_pubkey_equal_by_bytes(found, *address);
            }
            if found == *address {
                Ok(bump)
            } else {
                Err(LedgerError::AddressCollision)
            }
        },
        None => Err(LedgerError::AddressCollision),
    }
}

/// Checks that the slot at `address` is the one that `domain_tag` and
/// `seeds` address under `program_id`, and gives the bump seed. A slot named
/// under another derivation key would let one kind of entry land on the
/// state of another: it is refused with `AddressCollision`.
pub fn claim(address: &Pubkey, domain_tag: &[u8], seeds: &Vec<Vec<u8>>, program_id: &Pubkey) -> (r:
    Result<u8, LedgerError>)
    ensures
        r == spec_claim(spec_derive(domain_tag@, byte_strings(seeds), program_id@), address@),
{
    check_claim(derive(domain_tag, seeds, program_id), address)
}

/// Derives an address from `seeds` alone, without a tag in front. Entries
/// of different kinds that are derived this way from the same seeds share
/// one address.
pub fn derive_without_tag(seeds: &Vec<Vec<u8>>, program_id: &Pubkey) -> (r: Option<(Pubkey, u8)>)
    ensures
        match r {
            Some((address, bump)) => program_address(byte_strings(seeds), program_id@) == Some(
                (address@, bump),
            ),
            None => program_address(byte_strings(seeds), program_id@) is None,
        },
        seeds@.len() >= MAX_SEEDS ==> r is None,
        (exists|i: int| 0 <= i < seeds@.len() && seeds@[i]@.len() > MAX_SEED_LEN) ==> r is None,
{
    try_find_program_address(seeds, program_id)
}

/// As `claim`, for an entry whose one seed is a key.
pub fn claim_for_key(address: &Pubkey, domain_tag: &[u8], key: &Pubkey, program_id: &Pubkey) -> (r:
    Result<u8, LedgerError>)
    ensures
        r == spec_claim(spec_derive(domain_tag@, seq![key@], program_id@), address@),
{
    let seeds: Vec<Vec<u8>> = vec![slice_to_vec(key.bytes.as_slice())];
    assert(byte_strings(&seeds) =~= seq![key@]);
    claim(address, domain_tag, &seeds, program_id)
}

/// As `claim`, for an entry whose one seed is a number, taken as its eight
/// little-endian bytes.
pub fn claim_for_id(address: &Pubkey, domain_tag: &[u8], id: u64, program_id: &Pubkey) -> (r:
    Result<u8, LedgerError>)
    ensures
        r == spec_claim(spec_derive(domain_tag@, seq![u64_to_le(id)], program_id@), address@),
{
    let bytes = u64_le_bytes(id);
    let seeds: Vec<Vec<u8>> = vec![slice_to_vec(bytes.as_slice())];
    assert(byte_strings(&seeds) =~= seq![u64_to_le(id)]);
    claim(address, domain_tag, &seeds, program_id)
}

/// Checks that the slot at `address` is the one that the number `id`,
/// taken as its eight little-endian bytes, addresses without any tag.
pub fn claim_for_id_without_tag(address: &Pubkey, id: u64, program_id: &Pubkey) -> (r: Result<
    u8,
    LedgerError,
>)
    ensures
        r == spec_claim(program_address(seq![u64_to_le(id)], program_id@), address@),
{
    let bytes = u64_le_bytes(id);
    let seeds: Vec<Vec<u8>> = vec![slice_to_vec(bytes.as_slice())];
    assert(byte_strings(&seeds) =~= seq![u64_to_le(id)]);
    check_claim(derive_without_tag(&seeds, program_id), address)
}

/// The bytes of one seed alone are the seed.
pub proof fn lemma_concatenated_one(seed: Seq<u8>)
    ensures
        concatenated(seq![seed]) == seed,
{
    let one = seq![seed];
    assert(one.drop_first() =~= Seq::<Seq<u8>>::empty());
    assert(concatenated(one.drop_first()) =~= Seq::<u8>::empty());
    assert(concatenated(one) =~= seed);
}

/// The bytes of a tagged list are the tag followed by the bytes of the seeds.
pub proof fn lemma_concatenated_seed_list(domain_tag: Seq<u8>, seeds: Seq<Seq<u8>>)
    ensures
        concatenated(seed_list(domain_tag, seeds)) == domain_tag + concatenated(seeds),
{
    let list = seed_list(domain_tag, seeds);
    assert(list[0] == domain_tag);
    assert(list.drop_first() =~= seeds);
}

/// Domain separation: two different tags over the same seeds give different
/// bytes to the derivation, and so different lists of seeds as well.
pub proof fn lemma_distinct_tags_give_distinct_keys(
    tag_a: Seq<u8>,
    tag_b: Seq<u8>,
    seeds: Seq<Seq<u8>>,
)
    requires
        tag_a != tag_b,
    ensures
        seed_list(tag_a, seeds) != seed_list(tag_b, seeds),
        concatenated(seed_list(tag_a, seeds)) != concatenated(seed_list(tag_b, seeds)),
{
    assert(seed_list(tag_a, seeds)[0] == tag_a);
    assert(seed_list(tag_b, seeds)[0] == tag_b);
    lemma_concatenated_seed_list(tag_a, seeds);
    lemma_concatenated_seed_list(tag_b, seeds);
    let rest = concatenated(seeds);
    if tag_a + rest == tag_b + rest {
        assert((tag_a + rest).len() == tag_a.len() + rest.len());
        assert((tag_b + rest).len() == tag_b.len() + rest.len());
        assert forall|i: int| 0 <= i < tag_a.len() implies tag_a[i] == tag_b[i] by {
            assert((tag_a + rest)[i] == tag_a[i]);
            assert((tag_b + rest)[i] == tag_b[i]);
        }
        assert(tag_a =~= tag_b);
    }
}

} // verus!
