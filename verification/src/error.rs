//! The failures a request can end in.

use vstd::prelude::*;

verus! {

/// Why a guard refused a request. Every failure aborts the whole request:
/// the function that reports one leaves the state it was given unchanged.
#[derive(Clone, Copy, Debug, PartialEq, Eq, Structural)]
pub enum LedgerError {
    /// A sum or a product does not fit in a `u64`.
    Overflow,
    /// A difference would fall below zero.
    Underflow,
    /// The entry was created before.
    AlreadyInitialized,
    /// The caller is not the principal recorded on the entry.
    Unauthorized,
    /// The caller did not sign this request.
    MissingSignature,
    /// The slot that the request names is not the one its derivation key
    /// addresses.
    AddressCollision,
    /// The presented nonce is not above the last one accepted.
    NonceAlreadyUsed,
    /// The observation is older than the staleness window, or not fully
    /// verified.
    StalePrice,
    /// The observation is not newer than the last one accepted.
    OutOfOrderPrice,
    /// An entry whose balance was changed directly is missing from the
    /// accounts of a delegated invocation.
    UnbalancedDelegatedCall,
    /// The target of a delegated invocation is not trusted.
    UntrustedCallee,
    /// The request carries no operation tag, or an unknown one.
    InvalidOperation,
    /// A byte buffer does not have the layout of the record it is read as.
    MalformedRecord,
    /// The order's price is not the one the taker agreed to.
    PriceChanged,
    /// The order holds less than the quantity asked for.
    NotEnoughLiquidity,
    /// The vault holds less than the amount asked for.
    InsufficientFunds,
    /// No key could be recovered, or not the expected one.
    InvalidSignature,
    /// The observation belongs to another feed.
    InvalidFeed,
}

} // verus!
