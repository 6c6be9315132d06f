//! Orders that are filled at the price the taker agreed to.
//!
//! Between the moment a taker looks at an order and the moment the fill
//! runs, the maker may change the price. A fill names the price it expects
//! and is refused when the order shows another.

use crate::error::LedgerError;
use crate::guards::arithmetic::{checked_add, checked_mul, checked_sub};
use crate::guards::authorization::{authorize, spec_authorize};
use crate::guards::lifecycle::{create, spec_create, LedgerEntry};
use crate::pubkey::{Caller, Pubkey};
use vstd::prelude::*;

verus! {

/// The failures of this program: `PriceChanged`, `NotEnoughLiquidity`, and those of
/// its guards.
pub type ErrorCode = LedgerError;

/// An offer of `amount` units at `price` each.
#[derive(Clone, Copy, Debug, PartialEq, Eq)]
pub struct Order {
    pub maker: Pubkey,
    pub price: u64,
    pub amount: u64,
}

/// The funds of one party.
#[derive(Clone, Copy, Debug, PartialEq, Eq, Structural)]
pub struct Balance {
    pub balance: u64,
}

/// Creates the balance entry of a signing user with `amount`.
pub fn init_balance(balance: &mut LedgerEntry<Balance>, user: &Caller, amount: u64) -> (r: Result<
    (),
    LedgerError,
>)
    ensures
        (r, *final(balance)) == spec_create(*old(balance), *user, Balance { balance: amount }),
{
    create(balance, user, Balance { balance: amount })
}

/// Creates an order of the signing maker.
pub fn create_order(order: &mut LedgerEntry<Order>, maker: &Caller, price: u64, amount: u64) -> (r:
    Result<(), LedgerError>)
    ensures
        (r, *final(order)) == spec_create(
            *old(order),
            *maker,
            Order { maker: maker.identity, price, amount },
        ),
{
    create(order, maker, Order { maker: maker.identity, price, amount })
}

/// What a fill leaves: the amount of the order, the balance of the taker
/// and the balance of the maker. In turn: the price has to be the expected
/// one, the order has to hold the quantity, the cost has to fit, the taker
/// has to hold the cost, and the maker's balance has to take it.
pub open spec fn spec_fill_order(
    order: Order,
    taker_balance: Balance,
    maker_balance: Balance,
    quantity: u64,
    expected_price: u64,
) -> Result<(u64, u64, u64), LedgerError> {
    if order.price != expected_price {
        Err(LedgerError::PriceChanged)
    } else if order.amount < quantity {
        Err(LedgerError::NotEnoughLiquidity)
    } else if order.price * quantity > u64::MAX {
        Err(LedgerError::Overflow)
    } else if taker_balance.balance < order.price * quantity {
        Err(LedgerError::Underflow)
    } else if maker_balance.balance + order.price * quantity > u64::MAX {
        Err(LedgerError::Overflow)
    } else {
        Ok(
            (
                (order.amount - quantity) as u64,
                (taker_balance.balance - order.price * quantity) as u64,
                (maker_balance.balance + order.price * quantity) as u64,
            ),
        )
    }
}

/// Fills `quantity` units of the order at `expected_price`: the taker pays
/// price times quantity to the maker, and the order shrinks by the
/// quantity. A refused fill moves nothing.
pub fn fill_order(
    order: &mut Order,
    taker_balance: &mut Balance,
    maker_balance: &mut Balance,
    quantity: u64,
    expected_price: u64,
) -> (r: Result<(), LedgerError>)
    ensures
        match spec_fill_order(
            *old(order),
            *old(taker_balance),
            *old(maker_balance),
            quantity,
            expected_price,
        ) {
            Ok((amount, taker, maker)) => {
                &&& r is Ok
                &&& final(order).amount == amount
                &&& final(taker_balance).balance == taker
                &&& final(maker_balance).balance == maker
                &&& final(taker_balance).balance + final(maker_balance).balance
                    == old(taker_balance).balance + old(maker_balance).balance
            },
            Err(e) => {
                &&& r == Err::<(), LedgerError>(e)
                &&& *final(order) == *old(order)
                &&& *final(taker_balance) == *old(taker_balance)
                &&& *final(maker_balance) == *old(maker_balance)
            },
        },
        final(order).maker == old(order).maker,
        final(order).price == old(order).price,
        final(order).amount <= old(order).amount,
{
    if order.price != expected_price {
        return Err(LedgerError::PriceChanged);
    }
    if order.amount < quantity {
        return Err(LedgerError::NotEnoughLiquidity);
    }
    let total_cost = checked_mul(order.price, quantity)?;
    let taker = checked_sub(taker_balance.balance, total_cost)?;
    let maker = checked_add(maker_balance.balance, total_cost)?;
    let amount = checked_sub(order.amount, quantity)?;
    taker_balance.balance = taker;
    maker_balance.balance = maker;
    order.amount = amount;
    Ok(())
}

/// Sets the price of an order, for its maker alone and only when the maker
/// signed. A refused request leaves the order as it was.
pub fn update_price(order: &mut Order, maker: &Caller, new_price: u64) -> (r: Result<
    (),
    LedgerError,
>)
    ensures
        r == spec_authorize(old(order).maker, *maker, true),
        r is Ok ==> final(order).price == new_price,
        r is Err ==> final(order).price == old(order).price,
        final(order).maker == old(order).maker,
        final(order).amount == old(order).amount,
{
    authorize(&order.maker, maker, true)?;
    order.price = new_price;
    Ok(())
}

/// A fill that expects the price the order had before the maker changed it
/// is refused, whatever else holds.
pub proof fn lemma_changed_price_stops_the_fill(
    order: Order,
    taker_balance: Balance,
    maker_balance: Balance,
    quantity: u64,
    expected_price: u64,
    new_price: u64,
)
    requires
        order.price == expected_price,
        new_price != expected_price,
    ensures
        spec_fill_order(
            Order { maker: order.maker, price: new_price, amount: order.amount },
            taker_balance,
            maker_balance,
            quantity,
            expected_price,
        ) == Err::<(u64, u64, u64), LedgerError>(LedgerError::PriceChanged),
{
}

} // verus!
