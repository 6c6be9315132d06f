//! Ingestion of outside observations: recent enough, and newer than the one
//! acted on last.

use crate::error::LedgerError;
use vstd::prelude::*;

verus! {

/// The publish time of the last observation that was accepted.
#[derive(Clone, Copy, Debug, PartialEq, Eq, Structural)]
pub struct OracleState {
    pub last_publish_time: i64,
}

impl OracleState {
    /// The bytes the state takes in storage.
    pub const SIZE: usize = 8;
}

/// A value observed outside the ledger, with the time it was published at.
#[derive(Clone, Copy, Debug, PartialEq, Eq, Structural)]
pub struct Observation {
    pub value: i64,
    pub publish_time: i64,
}

/// Bounded recency: at `now`, an observation published at `publish_time` is
/// no older than `max_age`.
pub open spec fn is_recent(publish_time: i64, now: i64, max_age: u64) -> bool {
    now - publish_time <= max_age
}

/// Monotonic ordering: `publish_time` is later than the last accepted one.
pub open spec fn is_in_order(publish_time: i64, last_accepted: OracleState) -> bool {
    publish_time > last_accepted.last_publish_time
}

/// What `accept` answers.
pub open spec fn spec_accept(
    observation: Observation,
    now: i64,
    max_age: u64,
    last_accepted: OracleState,
) -> Result<i64, LedgerError> {
    if !is_recent(observation.publish_time, now, max_age) {
        Err(LedgerError::StalePrice)
    } else if !is_in_order(observation.publish_time, last_accepted) {
        Err(LedgerError::OutOfOrderPrice)
    } else {
        Ok(observation.value)
    }
}

/// Fails with `StalePrice` exactly when the observation is older than
/// `max_age` at `now`.
pub fn check_recency(publish_time: i64, now: i64, max_age: u64) -> (r: Result<(), LedgerError>)
    ensures
        r is Ok <==> is_recent(publish_time, now, max_age),
        r is Err ==> r->Err_0 == LedgerError::StalePrice,
{
    let age: i128 = now as i128 - publish_time as i128;
    if age <= max_age as i128 {
        Ok(())
    } else {
        Err(LedgerError::StalePrice)
    }
}

/// Fails with `OutOfOrderPrice` exactly when the observation is not later
/// than the last accepted one.
pub fn check_ordering(publish_time: i64, last_accepted: &OracleState) -> (r: Result<
    (),
    LedgerError,
>)
    ensures
        r is Ok <==> is_in_order(publish_time, *last_accepted),
        r is Err ==> r->Err_0 == LedgerError::OutOfOrderPrice,
{
    if publish_time > last_accepted.last_publish_time {
        Ok(())
    } else {
        Err(LedgerError::OutOfOrderPrice)
    }
}

/// Accepts an observation that is recent at `now` and later than the last
/// accepted one, records its publish time and only then hands out its value.
/// A refused observation leaves the state as it is. Recency is tested first.
pub fn accept(
    observation: &Observation,
    now: i64,
    max_age: u64,
    last_accepted: &mut OracleState,
) -> (r: Result<i64, LedgerError>)
    ensures
        r == spec_accept(*observation, now, max_age, *old(last_accepted)),
        r is Ok ==> final(last_accepted).last_publish_time == observation.publish_time,
        r is Err ==> *final(last_accepted) == *old(last_accepted),
        final(last_accepted).last_publish_time >= old(last_accepted).last_publish_time,
{
    check_recency(observation.publish_time, now, max_age)?;
    check_ordering(observation.publish_time, last_accepted)?;
    last_accepted.last_publish_time = observation.publish_time;
    Ok(observation.value)
}

/// An observation published no later than the last accepted one is refused
/// although it is recent; one that is recent and later is accepted.
pub proof fn lemma_recency_alone_is_not_enough(
    observation: Observation,
    now: i64,
    max_age: u64,
    last_accepted: OracleState,
)
    requires
        is_recent(observation.publish_time, now, max_age),
    ensures
        observation.publish_time <= last_accepted.last_publish_time ==> spec_accept(
            observation,
            now,
            max_age,
            last_accepted,
        ) == Err::<i64, LedgerError>(LedgerError::OutOfOrderPrice),
        observation.publish_time > last_accepted.last_publish_time ==> spec_accept(
            observation,
            now,
            max_age,
            last_accepted,
        ) == Ok::<i64, LedgerError>(observation.value),
{
}

/// An observation that was accepted is refused when it is presented again.
pub proof fn lemma_accepted_observation_is_not_replayed(
    observation: Observation,
    now: i64,
    later: i64,
    max_age: u64,
    last_accepted: OracleState,
)
    requires
        spec_accept(observation, now, max_age, last_accepted) is Ok,
    ensures
        spec_accept(
            observation,
            later,
            max_age,
            OracleState { last_publish_time: observation.publish_time },
        ) is Err,
{
}

} // verus!
