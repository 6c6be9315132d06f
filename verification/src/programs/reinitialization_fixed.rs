//! Rewards that accrue with time, on an entry that is set up once.
//!
//! Initialization brings the entry into being and stamps it with the
//! current time. An entry that exists was initialized before and is never
//! stamped again, whatever its stamp and whatever was claimed since.

use crate::error::LedgerError;
use crate::guards::address::{claim_for_key, spec_claim, spec_derive};
use crate::guards::arithmetic::{checked_add, checked_mul};
use crate::guards::authorization::require_signature;
use crate::guards::lifecycle::{create_claimed, spec_create_claimed, LedgerEntry};
use crate::pubkey::{Caller, Pubkey};
use vstd::prelude::*;

pub use crate::tags::REWARDS_SEED;

verus! {

/// The failures of this program: `AlreadyInitialized`, and those of its guards.
pub type CustomError = LedgerError;

/// The points that accrue per second.
pub const POINTS_PER_SECOND: u64 = 100;

/// The rewards of one user.
#[derive(Clone, Copy, Debug, PartialEq, Eq, Structural)]
pub struct RewardData {
    /// When the entry was initialized.
    pub created_at: i64,
    /// The points claimed so far.
    pub points: u64,
}

/// What `initialize` returns and leaves in the entry. In turn: the entry
/// must not exist yet, the slot has to be the one claimed, and the user has
/// to sign.
pub open spec fn spec_initialize(
    entry: LedgerEntry<RewardData>,
    claimed: Result<u8, LedgerError>,
    user: Caller,
    now: i64,
) -> (Result<(), LedgerError>, LedgerEntry<RewardData>) {
    spec_create_claimed(entry, claimed, user, RewardData { created_at: now, points: 0 })
}

/// Creates the reward entry of `user`, stamped with `now` and without
/// points, once: an entry that exists is left as it is and the call fails
/// with `AlreadyInitialized`. A refused request leaves the entry as it was.
pub fn initialize(
    data: &mut LedgerEntry<RewardData>,
    user: &Caller,
    program_id: &Pubkey,
    now: i64,
) -> (r: Result<(), LedgerError>)
    ensures
        (r, *final(data)) == spec_initialize(
            *old(data),
            spec_claim(
                spec_derive(REWARDS_SEED@, seq![user.identity@], program_id@),
                old(data).address@,
            ),
            *user,
            now,
        ),
        old(data).initialized() ==> r == Err::<(), LedgerError>(LedgerError::AlreadyInitialized)
            && *final(data) == *old(data),
{
    let claimed = claim_for_key(&data.address, REWARDS_SEED.as_slice(), &user.identity, program_id);
    create_claimed(data, claimed, user, RewardData { created_at: now, points: 0 })
}

/// The points that accrued from `created_at` to `now`: `Underflow` where
/// `now` lies before `created_at`, `Overflow` where the points do not fit.
pub open spec fn spec_reward(created_at: i64, now: i64) -> Result<u64, LedgerError> {
    if now < created_at {
        Err(LedgerError::Underflow)
    } else if (now - created_at) * POINTS_PER_SECOND > u64::MAX {
        Err(LedgerError::Overflow)
    } else {
        Ok(((now - created_at) * POINTS_PER_SECOND) as u64)
    }
}

/// The points that accrued from `created_at` to `now`.
pub fn reward(created_at: i64, now: i64) -> (r: Result<u64, LedgerError>)
    ensures
        r == spec_reward(created_at, now),
{
    if now < created_at {
        return Err(LedgerError::Underflow);
    }
    let elapsed: u64 = (now as i128 - created_at as i128) as u64;
    checked_mul(elapsed, POINTS_PER_SECOND)
}

/// What `claim_rewards` returns and leaves as the points.
pub open spec fn spec_claim_rewards(data: RewardData, user: Caller, now: i64) -> Result<
    (u64, u64),
    LedgerError,
> {
    if !user.is_live_signer {
        Err(LedgerError::MissingSignature)
    } else {
        match spec_reward(data.created_at, now) {
            Err(e) => Err(e),
            Ok(added) => if data.points + added > u64::MAX {
                Err(LedgerError::Overflow)
            } else {
                Ok((added, (data.points + added) as u64))
            },
        }
    }
}

/// Adds to the points of `data` those that accrued since it was stamped,
/// and gives the number added. The user has to sign. A refused request
/// leaves the record as it was.
pub fn claim_rewards(data: &mut RewardData, user: &Caller, now: i64) -> (r: Result<
    u64,
    LedgerError,
>)
    ensures
        match spec_claim_rewards(*old(data), *user, now) {
            Ok((added, points)) => r == Ok::<u64, LedgerError>(added) && final(data).points
                == points,
            Err(e) => r == Err::<u64, LedgerError>(e) && final(data).points == old(data).points,
        },
        final(data).created_at == old(data).created_at,
{
    require_signature(user)?;
    let added = reward(data.created_at, now)?;
    let points = checked_add(data.points, added)?;
    data.points = points;
    Ok(added)
}

/// An entry that was initialized is never initialized again: every later
/// call fails with `AlreadyInitialized` and changes nothing, whatever the
/// time of the first stamp, whatever was claimed in between, whoever asks
/// and under whatever address.
pub proof fn lemma_initialized_once(
    entry: LedgerEntry<RewardData>,
    claimed: Result<u8, LedgerError>,
    user: Caller,
    first: i64,
    points: u64,
    later_claimed: Result<u8, LedgerError>,
    later_user: Caller,
    second: i64,
)
    requires
        spec_initialize(entry, claimed, user, first).0 is Ok,
    ensures
        spec_initialize(entry, claimed, user, first).1 == (LedgerEntry {
            address: entry.address,
            record: Some(RewardData { created_at: first, points: 0 }),
        }),
        ({
            let later = LedgerEntry {
                address: entry.address,
                record: Some(RewardData { created_at: first, points }),
            };
            spec_initialize(later, later_claimed, later_user, second) == (
                Err::<(), LedgerError>(LedgerError::AlreadyInitialized),
                later,
            )
        }),
{
}

} // verus!
