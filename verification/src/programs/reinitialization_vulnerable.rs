//! Rewards that accrue with time, on an entry that anyone can set up again.
//!
//! The entry comes into being on first use and is stamped whenever it is
//! initialized, also when it was initialized before.

use crate::error::LedgerError;
use crate::guards::address::{claim_for_key, spec_claim, spec_derive};
use crate::guards::arithmetic::{checked_add, unchecked_mul, wrapped};
use crate::guards::authorization::require_signature;
use crate::guards::lifecycle::LedgerEntry;
use crate::pubkey::{Caller, Pubkey};
use vstd::prelude::*;

pub use crate::programs::reinitialization_fixed::{RewardData, POINTS_PER_SECOND};
pub use crate::tags::REWARDS_SEED;

verus! {

/// What `initialize` returns and leaves in the entry. In turn: the slot has
/// to be the one claimed, and the user has to sign. Whether the entry
/// carries a stamp is not asked.
pub open spec fn spec_initialize(
    entry: LedgerEntry<RewardData>,
    claimed: Result<u8, LedgerError>,
    user: Caller,
    now: i64,
) -> (Result<(), LedgerError>, LedgerEntry<RewardData>) {
    if claimed is Err {
        (Err(claimed->Err_0), entry)
    } else if !user.is_live_signer {
        (Err(LedgerError::MissingSignature), entry)
    } else {
        (
            Ok(()),
            LedgerEntry {
                address: entry.address,
                record: Some(RewardData { created_at: now, points: 0 }),
            },
        )
    }
}

/// Stamps a reward entry whose address was claimed; `claimed` is the
/// outcome of that claim.
pub fn stamp(
    data: &mut LedgerEntry<RewardData>,
    claimed: Result<u8, LedgerError>,
    user: &Caller,
    now: i64,
) -> (r: Result<(), LedgerError>)
    ensures
        (r, *final(data)) == spec_initialize(*old(data), claimed, *user, now),
{
    match claimed {
        Err(e) => {
            return Err(e);
        },
        Ok(_) => {},
    }
    require_signature(user)?;
    data.record = Some(RewardData { created_at: now, points: 0 });
    Ok(())
}

/// Stamps the reward entry of `user` with `now` and clears its points,
/// every time it is called.
pub fn initialize(
    data: &mut LedgerEntry<RewardData>,
    user: &Caller,
    program_id: &Pubkey,
    now: i64,
) -> (r: Result<(), LedgerError>)
    ensures
        (r, *final(data)) == spec_initialize(
            *old(data),
            spec_claim(
                spec_derive(REWARDS_SEED@, seq![user.identity@], program_id@),
                old(data).address@,
            ),
            *user,
            now,
        ),
{
    let claimed = claim_for_key(&data.address, REWARDS_SEED.as_slice(), &user.identity, program_id);
    stamp(data, claimed, user, now)
}

/// The points counted from `created_at` to `now` by unchecked arithmetic:
/// a time that lies before the stamp counts as a huge span, and a product
/// that does not fit is cut short.
pub open spec fn spec_reward(created_at: i64, now: i64) -> u64 {
    wrapped(wrapped(now - created_at) * POINTS_PER_SECOND)
}

/// The points counted from `created_at` to `now` by unchecked arithmetic.
pub fn reward(created_at: i64, now: i64) -> (r: u64)
    ensures
        r == spec_reward(created_at, now),
        created_at <= now && (now - created_at) * POINTS_PER_SECOND <= u64::MAX ==> r == (now
            - created_at) * POINTS_PER_SECOND,
{
    let span: i128 = now as i128 - created_at as i128;
    let elapsed: u64 = if span < 0 {
        (span + 0x1_0000_0000_0000_0000) as u64
    } else {
        span as u64
    };
    assert(elapsed == wrapped(now - created_at));
    unchecked_mul(elapsed, POINTS_PER_SECOND)
}

/// What `claim_rewards` returns and leaves as the points.
pub open spec fn spec_claim_rewards(data: RewardData, user: Caller, now: i64) -> Result<
    (u64, u64),
    LedgerError,
> {
    if !user.is_live_signer {
        Err(LedgerError::MissingSignature)
    } else if data.points + spec_reward(data.created_at, now) > u64::MAX {
        Err(LedgerError::Overflow)
    } else {
        Ok(
            (
                spec_reward(data.created_at, now),
                (data.points + spec_reward(data.created_at, now)) as u64,
            ),
        )
    }
}

/// Adds to the points of `data` those counted since it was stamped, and
/// gives the number added. The user has to sign; points that do not fit
/// are refused with `Overflow`. A refused request leaves the record as it
/// was.
pub fn claim_rewards(data: &mut RewardData, user: &Caller, now: i64) -> (r: Result<
    u64,
    LedgerError,
>)
    ensures
        match spec_claim_rewards(*old(data), *user, now) {
            Ok((added, points)) => r == Ok::<u64, LedgerError>(added) && final(data).points
                == points,
            Err(e) => r == Err::<u64, LedgerError>(e) && final(data).points == old(data).points,
        },
        final(data).created_at == old(data).created_at,
{
    require_signature(user)?;
    let added = reward(data.created_at, now);
    let points = checked_add(data.points, added)?;
    data.points = points;
    Ok(added)
}

/// A second initialization is accepted like the first: it moves the stamp
/// and wipes the points that were claimed.
pub proof fn lemma_initialized_again(
    entry: LedgerEntry<RewardData>,
    claimed: Result<u8, LedgerError>,
    user: Caller,
    first: i64,
    points: u64,
    second: i64,
)
    requires
        spec_initialize(entry, claimed, user, first).0 is Ok,
    ensures
        ({
            let later = LedgerEntry {
                address: entry.address,
                record: Some(RewardData { created_at: first, points }),
            };
            spec_initialize(later, claimed, user, second) == (
                Ok::<(), LedgerError>(()),
                LedgerEntry {
                    address: entry.address,
                    record: Some(RewardData { created_at: second, points: 0 }),
                },
            )
        }),
{
}

} // verus!
