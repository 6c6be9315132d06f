//! The record of an entry that holds value.

use crate::pubkey::Pubkey;
use vstd::prelude::*;

verus! {

/// A balance and the principal it belongs to. The owner is set when the
/// entry is created and no operation changes it afterwards; the balance
/// changes by checked arithmetic only.
#[derive(Clone, Copy, Debug, PartialEq, Eq)]
pub struct Vault {
    pub owner: Pubkey,
    pub balance: u64,
}

} // verus!
