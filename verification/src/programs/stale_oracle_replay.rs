//! Consumption of price updates that anyone may present.
//!
//! A price update proves that a price was valid at some time, not that it is
//! the latest one the ledger has acted on. The safe form remembers the
//! publish time it accepted last and takes only later ones.

use crate::error::LedgerError;
use crate::guards::freshness::{check_ordering, check_recency, is_in_order, is_recent};
use crate::guards::lifecycle::LedgerEntry;
use crate::pubkey::bytes_equal;
use vstd::prelude::*;

pub use crate::guards::freshness::OracleState;

verus! {

/// The failures of this program: `InvalidFeed`, `StalePrice` and `OutOfOrderPrice`.
pub type ErrorCode = LedgerError;

/// A price with its confidence, its exponent and the time it was published.
#[derive(Clone, Copy, Debug, PartialEq, Eq, Structural)]
pub struct Price {
    pub price: i64,
    pub conf: u64,
    pub exponent: i32,
    pub publish_time: i64,
}

/// A price update as it is presented with a request.
#[derive(Clone, Copy, Debug)]
pub struct PriceUpdate {
    /// The feed the price belongs to.
    pub feed_id: [u8; 32],
    /// Whether the update carries the full set of signatures.
    pub fully_verified: bool,
    /// The price itself.
    pub price: Price,
}

/// The state of an oracle entry, which starts at time zero.
pub open spec fn stored_state(entry: LedgerEntry<OracleState>) -> OracleState {
    match entry.record {
        Some(state) => state,
        None => OracleState { last_publish_time: 0 },
    }
}

/// What `get_price_no_older_than` answers.
pub open spec fn spec_get_price_no_older_than(
    price_update: PriceUpdate,
    unix_timestamp: i64,
    max_age_seconds: u64,
) -> Result<Price, LedgerError> {
    if price_update.fully_verified && is_recent(
        price_update.price.publish_time,
        unix_timestamp,
        max_age_seconds,
    ) {
        Ok(price_update.price)
    } else {
        Err(LedgerError::StalePrice)
    }
}

/// What `consume_price_vulnerable` answers: the staleness window is held
/// against the update first, the feed second.
pub open spec fn spec_consume_price_vulnerable(
    price_update: PriceUpdate,
    unix_timestamp: i64,
    expected_feed_id: Seq<u8>,
    max_age_seconds: u64,
) -> Result<Price, LedgerError> {
    match spec_get_price_no_older_than(price_update, unix_timestamp, max_age_seconds) {
        Err(e) => Err(e),
        Ok(price) => if price_update.feed_id@ != expected_feed_id {
            Err(LedgerError::InvalidFeed)
        } else {
            Ok(price)
        },
    }
}

/// What `consume_price_safe` answers in `state`: as the vulnerable form,
/// and then the order of publish times.
pub open spec fn spec_consume_price_safe(
    state: OracleState,
    price_update: PriceUpdate,
    unix_timestamp: i64,
    expected_feed_id: Seq<u8>,
    max_age_seconds: u64,
) -> Result<Price, LedgerError> {
    match spec_consume_price_vulnerable(
        price_update,
        unix_timestamp,
        expected_feed_id,
        max_age_seconds,
    ) {
        Err(e) => Err(e),
        Ok(price) => if is_in_order(price.publish_time, state) {
            Ok(price)
        } else {
            Err(LedgerError::OutOfOrderPrice)
        },
    }
}

/// The price of a fully verified update that is no older than
/// `max_age_seconds` at `unix_timestamp`; `StalePrice` for any other.
pub fn get_price_no_older_than(
    price_update: &PriceUpdate,
    unix_timestamp: i64,
    max_age_seconds: u64,
) -> (r: Result<Price, LedgerError>)
    ensures
        r == spec_get_price_no_older_than(*price_update, unix_timestamp, max_age_seconds),
{
    if !price_update.fully_verified {
        return Err(LedgerError::StalePrice);
    }
    check_recency(price_update.price.publish_time, unix_timestamp, max_age_seconds)?;
    Ok(price_update.price)
}

/// Hands out the price of an update of the expected feed that is inside the
/// staleness window. Nothing is remembered: an update that was superseded
/// long ago is taken again as long as it is inside the window.
pub fn consume_price_vulnerable(
    price_update: &PriceUpdate,
    unix_timestamp: i64,
    expected_feed_id: [u8; 32],
    max_age_seconds: u64,
) -> (r: Result<Price, LedgerError>)
    ensures
        r == spec_consume_price_vulnerable(
            *price_update,
            unix_timestamp,
            expected_feed_id@,
            max_age_seconds,
        ),
{
    let price = get_price_no_older_than(price_update, unix_timestamp, max_age_seconds)?;
    if !bytes_equal(price_update.feed_id.as_slice(), expected_feed_id.as_slice()) {
        return Err(LedgerError::InvalidFeed);
    }
    Ok(price)
}

/// Hands out the price of an update of the expected feed that is inside the
/// staleness window and was published later than the last one accepted. The
/// oracle entry is created on first use. The publish time is recorded before
/// the price is handed out; a refused update leaves the entry as it was.
pub fn consume_price_safe(
    oracle_state: &mut LedgerEntry<OracleState>,
    price_update: &PriceUpdate,
    unix_timestamp: i64,
    expected_feed_id: [u8; 32],
    max_age_seconds: u64,
) -> (r: Result<Price, LedgerError>)
    ensures
        r == spec_consume_price_safe(
            stored_state(*old(oracle_state)),
            *price_update,
            unix_timestamp,
            expected_feed_id@,
            max_age_seconds,
        ),
        r is Ok ==> final(oracle_state).record == Some(
            OracleState { last_publish_time: price_update.price.publish_time },
        ),
        r is Err ==> final(oracle_state).record == old(oracle_state).record,
        final(oracle_state).address == old(oracle_state).address,
        stored_state(*final(oracle_state)).last_publish_time >= stored_state(
            *old(oracle_state),
        ).last_publish_time,
{
    let state = match oracle_state.record {
        Some(state) => state,
        None => OracleState { last_publish_time: 0 },
    };
    let price = consume_price_vulnerable(
        price_update,
        unix_timestamp,
        expected_feed_id,
        max_age_seconds,
    )?;
    check_ordering(price.publish_time, &state)?;
    oracle_state.record = Some(OracleState { last_publish_time: price.publish_time });
    Ok(price)
}

/// An update that the safe form accepted is refused with `OutOfOrderPrice`
/// when it is presented again inside the window, while the vulnerable form
/// takes it again.
pub proof fn lemma_accepted_update_is_not_replayed(
    state: OracleState,
    price_update: PriceUpdate,
    first: i64,
    second: i64,
    expected_feed_id: Seq<u8>,
    max_age_seconds: u64,
)
    requires
        spec_consume_price_safe(state, price_update, first, expected_feed_id, max_age_seconds)
            is Ok,
        is_recent(price_update.price.publish_time, second, max_age_seconds),
    ensures
        spec_consume_price_safe(
            OracleState { last_publish_time: price_update.price.publish_time },
            price_update,
            second,
            expected_feed_id,
            max_age_seconds,
        ) == Err::<Price, LedgerError>(LedgerError::OutOfOrderPrice),
        spec_consume_price_vulnerable(price_update, second, expected_feed_id, max_age_seconds)
            == Ok::<Price, LedgerError>(price_update.price),
{
}

/// For a fully verified update of the expected feed inside the window, the
/// order of publish times alone decides: an update not later than the last
/// accepted one is refused with `OutOfOrderPrice`, a later one is accepted.
pub proof fn lemma_order_decides_inside_the_window(
    state: OracleState,
    price_update: PriceUpdate,
    unix_timestamp: i64,
    expected_feed_id: Seq<u8>,
    max_age_seconds: u64,
)
    requires
        price_update.fully_verified,
        price_update.feed_id@ == expected_feed_id,
        is_recent(price_update.price.publish_time, unix_timestamp, max_age_seconds),
    ensures
        price_update.price.publish_time <= state.last_publish_time ==> spec_consume_price_safe(
            state,
            price_update,
            unix_timestamp,
            expected_feed_id,
            max_age_seconds,
        ) == Err::<Price, LedgerError>(LedgerError::OutOfOrderPrice),
        price_update.price.publish_time > state.last_publish_time ==> spec_consume_price_safe(
            state,
            price_update,
            unix_timestamp,
            expected_feed_id,
            max_age_seconds,
        ) == Ok::<Price, LedgerError>(price_update.price),
{
}

/// An update published before the one accepted last cannot roll the oracle
/// back: the safe form refuses it whatever the window.
pub proof fn lemma_no_rollback(
    state: OracleState,
    price_update: PriceUpdate,
    unix_timestamp: i64,
    expected_feed_id: Seq<u8>,
    max_age_seconds: u64,
)
    requires
        price_update.price.publish_time <= state.last_publish_time,
    ensures
        spec_consume_price_safe(
            state,
            price_update,
            unix_timestamp,
            expected_feed_id,
            max_age_seconds,
        ) is Err,
{
}

} // verus!
