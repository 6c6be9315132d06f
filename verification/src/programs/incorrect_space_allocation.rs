//! User accounts stored in space that is set aside when they are created.
//!
//! A stored account is an eight-byte tag, the owner, the balance as eight
//! little-endian bytes, and the bump seed. Space counted by hand that
//! leaves the tag out is too small for the record: the record cannot be
//! stored and the creation fails.

use crate::error::LedgerError;
use crate::guards::address::{claim_for_key, spec_claim, spec_derive};
use crate::guards::lifecycle::{create, LedgerEntry};
use crate::guards::record::{
    lemma_u64_le_bytes_round_trip, lemma_u64_le_round_trip, read_key, read_u64_le, u64_le_bytes,
    u64_to_le,
};
use crate::pubkey::{bytes_equal, lemma_pubkey_equal_by_bytes, Caller, Pubkey};
use vstd::prelude::*;
use vstd::slice::slice_subrange;

pub use crate::tags::USER_SEED;

verus! {

/// The tag that every stored user account starts with.
pub const USER_ACCOUNT_DISCRIMINATOR: [u8; 8] = [0xd3, 0x21, 0x88, 0x10, 0xba, 0x6e, 0xf2, 0x7f];

/// The space counted by hand: the fields without the tag.
pub const MANUAL_SPACE: usize = 32 + 8 + 1;

/// The account of one user.
#[derive(Clone, Copy, Debug, PartialEq, Eq)]
pub struct UserAccount {
    pub owner: Pubkey,
    pub balance: u64,
    pub bump: u8,
}

impl UserAccount {
    /// The bytes a stored account takes: the tag and the fields.
    pub const INIT_SPACE: usize = 8 + 32 + 8 + 1;

    /// The bytes the account is stored as.
    pub open spec fn encoding(&self) -> Seq<u8> {
        USER_ACCOUNT_DISCRIMINATOR@ + self.owner@ + u64_to_le(self.balance) + seq![self.bump]
    }

    /// The bytes the account is stored as.
    pub fn encode(&self) -> (r: Vec<u8>)
        ensures
            r@ == self.encoding(),
            r@.len() == UserAccount::INIT_SPACE,
    {
        let mut out: Vec<u8> = Vec::new();
        let tag: [u8; 8] = USER_ACCOUNT_DISCRIMINATOR;
        let mut i: usize = 0;
        while i < 8
            invariant
                i <= 8,
                tag@ == USER_ACCOUNT_DISCRIMINATOR@,
                out@ == tag@.subrange(0, i as int),
            decreases 8 - i,
        {
            out.push(tag[i]);
            assert(out@ =~= tag@.subrange(0, i + 1));
            i += 1;
        }
        let mut j: usize = 0;
        while j < 32
            invariant
                j <= 32,
                out@ == USER_ACCOUNT_DISCRIMINATOR@ + self.owner@.subrange(0, j as int),
            decreases 32 - j,
        {
            out.push(self.owner.bytes[j]);
            assert(out@ =~= USER_ACCOUNT_DISCRIMINATOR@ + self.owner@.subrange(0, j + 1));
            j += 1;
        }
        let balance = u64_le_bytes(self.balance);
        let mut k: usize = 0;
        while k < 8
            invariant
                k <= 8,
                balance@ == u64_to_le(self.balance),
                out@ == USER_ACCOUNT_DISCRIMINATOR@ + self.owner@ + balance@.subrange(0, k as int),
            decreases 8 - k,
        {
            out.push(balance[k]);
            assert(out@ =~= USER_ACCOUNT_DISCRIMINATOR@ + self.owner@ + balance@.subrange(
                0,
                k + 1,
            ));
            k += 1;
        }
        out.push(self.bump);
        assert(out@ =~= self.encoding());
        out
    }
}

/// Whether `data` starts with the bytes of a stored user account.
pub open spec fn holds_user_account(data: Seq<u8>) -> bool {
    data.len() >= UserAccount::INIT_SPACE && data.subrange(0, 8) == USER_ACCOUNT_DISCRIMINATOR@
}

/// Reads a stored user account from the start of `data`. Bytes that are too
/// few, or that do not start with the tag of user accounts, are refused
/// with `MalformedRecord` before any field is read.
pub fn load(data: &[u8]) -> (r: Result<UserAccount, LedgerError>)
    ensures
        r is Ok <==> holds_user_account(data@),
        r is Ok ==> r->Ok_0.encoding() == data@.subrange(0, UserAccount::INIT_SPACE as int),
        r is Err ==> r->Err_0 == LedgerError::MalformedRecord,
{
    if data.len() < UserAccount::INIT_SPACE {
        return Err(LedgerError::MalformedRecord);
    }
    let tag: [u8; 8] = USER_ACCOUNT_DISCRIMINATOR;
    if !bytes_equal(slice_subrange(data, 0, 8), tag.as_slice()) {
        return Err(LedgerError::MalformedRecord);
    }
    let owner = read_key(data, 8)?;
    let balance = read_u64_le(data, 40)?;
    let bump = data[48];
    let record = UserAccount { owner, balance, bump };
    proof {
        lemma_u64_le_bytes_round_trip(data@.subrange(40, 48));
        assert(record.encoding() =~= data@.subrange(0, UserAccount::INIT_SPACE as int));
    }
    Ok(record)
}

/// The contents of `space` bytes in which `record` was stored: the record
/// at the start, zeros behind it.
pub open spec fn stored_in(record: UserAccount, space: usize) -> Seq<u8> {
    record.encoding() + Seq::new((space - UserAccount::INIT_SPACE) as nat, |i: int| 0u8)
}

/// Stores `record` in `space` bytes set aside for it, or fails with
/// `MalformedRecord` exactly when the space is too small for the record.
pub fn store(record: &UserAccount, space: usize) -> (r: Result<Vec<u8>, LedgerError>)
    ensures
        r is Ok <==> space >= UserAccount::INIT_SPACE,
        r is Ok ==> r->Ok_0@ == stored_in(*record, space),
        r is Err ==> r->Err_0 == LedgerError::MalformedRecord,
{
    if space < UserAccount::INIT_SPACE {
        return Err(LedgerError::MalformedRecord);
    }
    let mut out = record.encode();
    let mut n: usize = UserAccount::INIT_SPACE;
    while n < space
        invariant
            UserAccount::INIT_SPACE <= n <= space,
            out@ == stored_in(*record, n),
        decreases space - n,
    {
        out.push(0u8);
        assert(out@ =~= stored_in(*record, (n + 1) as usize));
        n += 1;
    }
    Ok(out)
}

/// Two user accounts stored as the same bytes are the same account.
pub proof fn lemma_encoding_is_injective(a: UserAccount, b: UserAccount)
    requires
        a.encoding() == b.encoding(),
    ensures
        a == b,
{
    lemma_u64_le_round_trip(a.balance);
    lemma_u64_le_round_trip(b.balance);
    assert(a.owner@.len() == 32 && b.owner@.len() == 32);
    assert(a.owner@ =~= a.encoding().subrange(8, 40));
    assert(b.owner@ =~= b.encoding().subrange(8, 40));
    assert(u64_to_le(a.balance) =~= a.encoding().subrange(40, 48));
    assert(u64_to_le(b.balance) =~= b.encoding().subrange(40, 48));
    assert(a.bump == a.encoding()[48]);
    assert(b.bump == b.encoding()[48]);
    lemma_pubkey_equal_by_bytes(a.owner, b.owner);
}

/// What was stored in enough space is found again when the space is read:
/// the bytes hold a user account, and whatever account is read from them is
/// the one that was stored.
pub proof fn lemma_stored_account_is_found(record: UserAccount, space: usize, found: UserAccount)
    requires
        space >= UserAccount::INIT_SPACE,
        found.encoding() == stored_in(record, space).subrange(0, UserAccount::INIT_SPACE as int),
    ensures
        holds_user_account(stored_in(record, space)),
        found == record,
{
    lemma_u64_le_round_trip(record.balance);
    let bytes = stored_in(record, space);
    assert(bytes.subrange(0, UserAccount::INIT_SPACE as int) =~= record.encoding());
    assert(bytes.subrange(0, 8) =~= USER_ACCOUNT_DISCRIMINATOR@);
    lemma_encoding_is_injective(found, record);
}

/// What the creation of a user account returns and leaves in the entry.
/// In turn: the slot has to be vacant, the one claimed, and asked for by a
/// signer; then the space has to hold the record.
pub open spec fn spec_init_user(
    entry: LedgerEntry<UserAccount>,
    claimed: Result<u8, LedgerError>,
    authority: Caller,
    space: usize,
) -> (Result<Seq<u8>, LedgerError>, LedgerEntry<UserAccount>) {
    if entry.initialized() {
        (Err(LedgerError::AlreadyInitialized), entry)
    } else {
        match claimed {
            Err(e) => (Err(e), entry),
            Ok(bump) => {
                let record = UserAccount { owner: authority.identity, balance: 0, bump };
                if !authority.is_live_signer {
                    (Err(LedgerError::MissingSignature), entry)
                } else if space < UserAccount::INIT_SPACE {
                    (Err(LedgerError::MalformedRecord), entry)
                } else {
                    (
                        Ok(stored_in(record, space)),
                        LedgerEntry { address: entry.address, record: Some(record) },
                    )
                }
            },
        }
    }
}

/// Creates the account of `authority` with balance zero in `space` bytes,
/// in a slot whose address was claimed; `claimed` is the outcome of that
/// claim and carries the bump seed. Gives the bytes that are stored. A
/// refused creation leaves the entry as it was.
pub fn init_user(
    user_account: &mut LedgerEntry<UserAccount>,
    claimed: Result<u8, LedgerError>,
    authority: &Caller,
    space: usize,
) -> (r: Result<Vec<u8>, LedgerError>)
    ensures
        match spec_init_user(*old(user_account), claimed, *authority, space).0 {
            Ok(bytes) => r is Ok && r->Ok_0@ == bytes,
            Err(e) => r is Err && r->Err_0 == e,
        },
        *final(user_account) == spec_init_user(*old(user_account), claimed, *authority, space).1,
{
    if user_account.is_initialized() {
        return Err(LedgerError::AlreadyInitialized);
    }
    let bump = claimed?;
    let record = UserAccount { owner: authority.identity, balance: 0, bump };
    if !authority.is_live_signer {
        return Err(LedgerError::MissingSignature);
    }
    let bytes = store(&record, space)?;
    create(user_account, authority, record)?;
    Ok(bytes)
}

/// Creates the account of `authority` in the space counted by hand. The
/// space is too small: a creation that gets as far as storing the record
/// fails with `MalformedRecord`, so that no user account ever comes into
/// being.
pub fn init_user_vulnerable(
    user_account: &mut LedgerEntry<UserAccount>,
    authority: &Caller,
    program_id: &Pubkey,
) -> (r: Result<Vec<u8>, LedgerError>)
    ensures
        r is Err,
        r->Err_0 == spec_init_user(
            *old(user_account),
            spec_claim(
                spec_derive(USER_SEED@, seq![authority.identity@], program_id@),
                old(user_account).address@,
            ),
            *authority,
            MANUAL_SPACE,
        ).0->Err_0,
        *final(user_account) == *old(user_account),
{
    let claimed = claim_for_key(
        &user_account.address,
        USER_SEED.as_slice(),
        &authority.identity,
        program_id,
    );
    init_user(user_account, claimed, authority, MANUAL_SPACE)
}

/// Creates the account of `authority` in the space that the layout of the
/// record gives.
pub fn init_user_safe(
    user_account: &mut LedgerEntry<UserAccount>,
    authority: &Caller,
    program_id: &Pubkey,
) -> (r: Result<Vec<u8>, LedgerError>)
    ensures
        match spec_init_user(
            *old(user_account),
            spec_claim(
                spec_derive(USER_SEED@, seq![authority.identity@], program_id@),
                old(user_account).address@,
            ),
            *authority,
            UserAccount::INIT_SPACE,
        ).0 {
            Ok(bytes) => r is Ok && r->Ok_0@ == bytes,
            Err(e) => r is Err && r->Err_0 == e && e != LedgerError::MalformedRecord,
        },
        *final(user_account) == spec_init_user(
            *old(user_account),
            spec_claim(
                spec_derive(USER_SEED@, seq![authority.identity@], program_id@),
                old(user_account).address@,
            ),
            *authority,
            UserAccount::INIT_SPACE,
        ).1,
{
    let claimed = claim_for_key(
        &user_account.address,
        USER_SEED.as_slice(),
        &authority.identity,
        program_id,
    );
    init_user(user_account, claimed, authority, UserAccount::INIT_SPACE)
}

} // verus!
