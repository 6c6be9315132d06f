//! Create-once semantics for ledger entries.

use crate::error::LedgerError;
use crate::pubkey::{Caller, Pubkey};
use vstd::prelude::*;

verus! {

/// A slot of the ledger: an address, and the record stored there once the
/// entry has been created.
#[derive(Clone, Debug, PartialEq, Eq)]
pub struct LedgerEntry<T> {
    /// Where the entry lives.
    pub address: Pubkey,
    /// The record, absent until the entry is initialized.
    pub record: Option<T>,
}

impl<T> LedgerEntry<T> {
    /// Whether the entry has been created.
    pub open spec fn initialized(&self) -> bool {
        self.record is Some
    }

    /// The slot at `address` before anything was stored in it.
    pub fn vacant(address: Pubkey) -> (r: LedgerEntry<T>)
        ensures
            r.address == address,
            !r.initialized(),
    {
        LedgerEntry { address, record: None }
    }

    /// Whether the entry has been created.
    pub fn is_initialized(&self) -> (r: bool)
        ensures
            r == self.initialized(),
    {
        self.record.is_some()
    }
}

/// What `initialize_once` returns and leaves in the entry.
pub open spec fn spec_initialize_once<T>(entry: LedgerEntry<T>, record: T) -> (
    Result<(), LedgerError>,
    LedgerEntry<T>,
) {
    if entry.initialized() {
        (Err(LedgerError::AlreadyInitialized), entry)
    } else {
        (Ok(()), LedgerEntry { address: entry.address, record: Some(record) })
    }
}

/// Stores `record` in a vacant entry. An entry that was created before is
/// left as it is and the call fails with `AlreadyInitialized`.
pub fn initialize_once<T>(entry: &mut LedgerEntry<T>, record: T) -> (r: Result<(), LedgerError>)
    ensures
        (r, *final(entry)) == spec_initialize_once(*old(entry), record),
{
    if entry.record.is_some() {
        return Err(LedgerError::AlreadyInitialized);
    }
    entry.record = Some(record);
    Ok(())
}

/// After a call of `initialize_once` on an entry, whether it succeeded or
/// not, every later call on the entry at that address fails with
/// `AlreadyInitialized` and changes nothing, whatever was done to the record
/// in between.
pub proof fn lemma_initialize_once_is_final<T>(
    entry: LedgerEntry<T>,
    first: T,
    changed: T,
    second: T,
)
    ensures
        ({
            let created = spec_initialize_once(entry, first).1;
            let later = LedgerEntry { address: created.address, record: Some(changed) };
            spec_initialize_once(later, second) == (
                Err::<(), LedgerError>(LedgerError::AlreadyInitialized),
                later,
            )
        }),
{
}

/// What `create` returns and leaves in the entry. In turn: the slot has to
/// be vacant, and the creator has to sign.
pub open spec fn spec_create<T>(entry: LedgerEntry<T>, creator: Caller, record: T) -> (
    Result<(), LedgerError>,
    LedgerEntry<T>,
) {
    if entry.initialized() {
        (Err(LedgerError::AlreadyInitialized), entry)
    } else if !creator.is_live_signer {
        (Err(LedgerError::MissingSignature), entry)
    } else {
        (Ok(()), LedgerEntry { address: entry.address, record: Some(record) })
    }
}

/// What `create_claimed` returns and leaves in the entry. In turn: the slot
/// has to be vacant, it has to be the one claimed, and the creator has to
/// sign.
pub open spec fn spec_create_claimed<T>(
    entry: LedgerEntry<T>,
    claimed: Result<u8, LedgerError>,
    creator: Caller,
    record: T,
) -> (Result<(), LedgerError>, LedgerEntry<T>) {
    if entry.initialized() {
        (Err(LedgerError::AlreadyInitialized), entry)
    } else if claimed is Err {
        (Err(claimed->Err_0), entry)
    } else {
        spec_create(entry, creator, record)
    }
}

/// Creates an entry with `record` for a signing creator, in a vacant slot.
/// A refused creation leaves the entry as it was.
pub fn create<T>(entry: &mut LedgerEntry<T>, creator: &Caller, record: T) -> (r: Result<
    (),
    LedgerError,
>)
    ensures
        (r, *final(entry)) == spec_create(*old(entry), *creator, record),
{
    if entry.is_initialized() {
        return Err(LedgerError::AlreadyInitialized);
    }
    if !creator.is_live_signer {
        return Err(LedgerError::MissingSignature);
    }
    initialize_once(entry, record)
}

/// Creates an entry as `create` does, in a slot whose address was claimed;
/// `claimed` is the outcome of that claim. An entry that exists is refused
/// with `AlreadyInitialized` whatever the claim; for a vacant slot a failed
/// claim is the failure of the creation.
pub fn create_claimed<T>(
    entry: &mut LedgerEntry<T>,
    claimed: Result<u8, LedgerError>,
    creator: &Caller,
    record: T,
) -> (r: Result<(), LedgerError>)
    ensures
        (r, *final(entry)) == spec_create_claimed(*old(entry), claimed, *creator, record),
        old(entry).initialized() ==> r == Err::<(), LedgerError>(LedgerError::AlreadyInitialized)
            && *final(entry) == *old(entry),
{
    if entry.is_initialized() {
        return Err(LedgerError::AlreadyInitialized);
    }
    match claimed {
        Err(e) => Err(e),
        Ok(_) => create(entry, creator, record),
    }
}

/// An entry that exists is never created again, whatever was done to its
/// record since and whoever asks.
pub proof fn lemma_create_is_final<T>(
    entry: LedgerEntry<T>,
    creator: Caller,
    first: T,
    changed: T,
    later_creator: Caller,
    second: T,
)
    requires
        spec_create(entry, creator, first).0 is Ok,
    ensures
        ({
            let created = spec_create(entry, creator, first).1;
            let later = LedgerEntry { address: created.address, record: Some(changed) };
            spec_create(later, later_creator, second) == (
                Err::<(), LedgerError>(LedgerError::AlreadyInitialized),
                later,
            )
        }),
{
}

/// An entry that exists is never created again at a claimed address
/// either: every later call fails with `AlreadyInitialized` and changes
/// nothing, whatever was done to the record since, whatever the claim and
/// whoever asks.
pub proof fn lemma_create_claimed_is_final<T>(
    entry: LedgerEntry<T>,
    claimed: Result<u8, LedgerError>,
    creator: Caller,
    first: T,
    changed: T,
    later_claimed: Result<u8, LedgerError>,
    later_creator: Caller,
    second: T,
)
    requires
        spec_create_claimed(entry, claimed, creator, first).0 is Ok,
    ensures
        ({
            let created = spec_create_claimed(entry, claimed, creator, first).1;
            let later = LedgerEntry { address: created.address, record: Some(changed) };
            spec_create_claimed(later, later_claimed, later_creator, second) == (
                Err::<(), LedgerError>(LedgerError::AlreadyInitialized),
                later,
            )
        }),
{
}

} // verus!
