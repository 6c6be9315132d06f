//! Accounts and instructions as plain values: what a request names, and
//! what a delegated invocation is made of.

use crate::pubkey::{Caller, Pubkey};
use vstd::prelude::*;

verus! {

/// An account as a request presents it.
#[derive(Clone, Debug, PartialEq, Eq)]
pub struct AccountInfo {
    /// The address of the account.
    pub key: Pubkey,
    /// Whether the account signed the request.
    pub is_signer: bool,
    /// Whether the request may change the account.
    pub is_writable: bool,
    /// The balance of the account.
    pub lamports: u64,
    /// The bytes stored in the account.
    pub data: Vec<u8>,
}

impl AccountInfo {
    /// The account seen as the caller of a request.
    pub open spec fn spec_caller(&self) -> Caller {
        Caller { identity: self.key, is_live_signer: self.is_signer }
    }

    /// The account seen as the caller of a request.
    pub fn caller(&self) -> (r: Caller)
        ensures
            r == self.spec_caller(),
    {
        Caller { identity: self.key, is_live_signer: self.is_signer }
    }

    /// The number of bytes stored in the account.
    pub fn data_len(&self) -> (r: usize)
        ensures
            r == self.data@.len(),
    {
        self.data.len()
    }
}

/// An account as an instruction refers to it.
#[derive(Clone, Copy, Debug, PartialEq, Eq)]
pub struct AccountMeta {
    pub pubkey: Pubkey,
    pub is_signer: bool,
    pub is_writable: bool,
}

impl AccountMeta {
    /// A writable account.
    pub fn new(pubkey: Pubkey, is_signer: bool) -> (r: AccountMeta)
        ensures
            r == (AccountMeta { pubkey, is_signer, is_writable: true }),
    {
        AccountMeta { pubkey, is_signer, is_writable: true }
    }

    /// A read-only account.
    pub fn new_readonly(pubkey: Pubkey, is_signer: bool) -> (r: AccountMeta)
        ensures
            r == (AccountMeta { pubkey, is_signer, is_writable: false }),
    {
        AccountMeta { pubkey, is_signer, is_writable: false }
    }
}

/// An instruction for another program.
#[derive(Clone, Debug, PartialEq, Eq)]
pub struct Instruction {
    pub program_id: Pubkey,
    pub accounts: Vec<AccountMeta>,
    pub data: Vec<u8>,
}

/// The code by which the host reports a request that a program working
/// on raw bytes refused.
#[derive(Clone, Copy, Debug, PartialEq, Eq, Structural)]
pub enum HostError {
    /// The request has no known tag, or a payload of another length.
    InvalidInstructionData,
    /// The request names too few accounts, or too many.
    NotEnoughAccountKeys,
    /// An account does not hold what the request needs of it.
    InvalidAccountData,
    /// A signature that the request needs is missing.
    MissingRequiredSignature,
}

} // verus!
