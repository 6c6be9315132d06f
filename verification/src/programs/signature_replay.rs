//! Authorization by a secp256k1 signature.
//!
//! A signature that recovers to the expected key shows who signed, not that
//! the signed message is used for the first time. The safe form ties every
//! authorization to a nonce above all nonces accepted before.

use crate::error::LedgerError;
use crate::guards::lifecycle::LedgerEntry;
use crate::guards::replay::{after_nonce, consume_nonce, nonce_accepted};
use crate::pubkey::bytes_equal;
use vstd::prelude::*;

pub use crate::guards::replay::NonceState;

verus! {

/// The failures of this program: `InvalidSignature` and `NonceAlreadyUsed`.
pub type ErrorCode = LedgerError;

/// Why `secp256k1_recover` found no key.
#[verifier::external_type_specification]
#[verifier::external_body]
pub struct ExSecp256k1RecoverError(solana_program::secp256k1_recover::Secp256k1RecoverError);

/// The 64-byte public key that signed the hash `hash` to give `signature`
/// with `recovery_id`, if the three recover to a key.
pub uninterp spec fn recovered_key(hash: Seq<u8>, recovery_id: u8, signature: Seq<u8>) -> Option<
    Seq<u8>,
>;

/// Calls `secp256k1_recover` of `solana_program`. The result is the key
/// named by `recovered_key` for these arguments, or an error where that
/// names none. A recovery id above 3 recovers to no key.
#[verifier::external_body]
fn secp256k1_recover(hash: &[u8; 32], recovery_id: u8, signature: &[u8; 64]) -> (r: Result<
    [u8; 64],
    solana_program::secp256k1_recover::Secp256k1RecoverError,
>)
    ensures
        match r {
            Ok(key) => recovered_key(hash@, recovery_id, signature@) == Some(key@),
            Err(_) => recovered_key(hash@, recovery_id, signature@) is None,
        },
        recovery_id > 3 ==> r is Err,
{
    match solana_program::secp256k1_recover::secp256k1_recover(hash, recovery_id, signature) {
        Ok(key) => Ok(key.to_bytes()),
        Err(e) => Err(e),
    }
}

/// The nonce state of an entry, which starts at nonce zero.
pub open spec fn stored_state(entry: LedgerEntry<NonceState>) -> NonceState {
    match entry.record {
        Some(state) => state,
        None => NonceState { last_nonce: 0 },
    }
}

/// What a recovered key authorizes: it has to be the expected one.
pub open spec fn spec_authorize_vulnerable(recovered: Option<Seq<u8>>, expected_pubkey: Seq<u8>) -> Result<
    (),
    LedgerError,
> {
    if recovered == Some(expected_pubkey) {
        Ok(())
    } else {
        Err(LedgerError::InvalidSignature)
    }
}

/// What a recovered key and a nonce authorize in `state`: the signature is
/// judged first, the nonce second.
pub open spec fn spec_authorize_safe(
    state: NonceState,
    recovered: Option<Seq<u8>>,
    expected_pubkey: Seq<u8>,
    nonce: u64,
) -> Result<(), LedgerError> {
    if recovered != Some(expected_pubkey) {
        Err(LedgerError::InvalidSignature)
    } else if !nonce_accepted(state, nonce) {
        Err(LedgerError::NonceAlreadyUsed)
    } else {
        Ok(())
    }
}

/// Judges the outcome of a key recovery: accepted exactly when a key was
/// recovered and it is the expected one, `InvalidSignature` otherwise.
pub fn check_recovered(recovered: Option<[u8; 64]>, expected_pubkey: &[u8; 64]) -> (r: Result<
    (),
    LedgerError,
>)
    ensures
        r == spec_authorize_vulnerable(
            match recovered {
                Some(key) => Some(key@),
                None => None,
            },
            expected_pubkey@,
        ),
{
    match recovered {
        Some(key) => {
            if bytes_equal(key.as_slice(), expected_pubkey.as_slice()) {
                Ok(())
            } else {
                Err(LedgerError::InvalidSignature)
            }
        },
        None => Err(LedgerError::InvalidSignature),
    }
}

/// Accepts a signature that recovers to the expected key. Nothing ties the
/// signature to a single use: what was accepted once is accepted again.
pub fn authorize_vulnerable(
    message: [u8; 32],
    signature: [u8; 64],
    recovery_id: u8,
    expected_pubkey: [u8; 64],
) -> (r: Result<(), LedgerError>)
    ensures
        r == spec_authorize_vulnerable(
            recovered_key(message@, recovery_id, signature@),
            expected_pubkey@,
        ),
        recovery_id > 3 ==> r is Err,
{
    let recovered = match secp256k1_recover(&message, recovery_id, &signature) {
        Ok(key) => Some(key),
        Err(_) => None,
    };
    check_recovered(recovered, &expected_pubkey)
}

/// Accepts a signature that recovers to the expected key together with a
/// nonce above the last one accepted, and records the nonce. The nonce entry
/// is created on first use. A refused request leaves the entry as it was.
pub fn authorize_safe(
    nonce_state: &mut LedgerEntry<NonceState>,
    message: [u8; 32],
    signature: [u8; 64],
    recovery_id: u8,
    expected_pubkey: [u8; 64],
    nonce: u64,
) -> (r: Result<(), LedgerError>)
    ensures
        r == spec_authorize_safe(
            stored_state(*old(nonce_state)),
            recovered_key(message@, recovery_id, signature@),
            expected_pubkey@,
            nonce,
        ),
        r is Ok ==> final(nonce_state).record == Some(NonceState { last_nonce: nonce }),
        r is Err ==> final(nonce_state).record == old(nonce_state).record,
        final(nonce_state).address == old(nonce_state).address,
        recovery_id > 3 ==> r is Err,
{
    authorize_vulnerable(message, signature, recovery_id, expected_pubkey)?;
    let mut state = match nonce_state.record {
        Some(state) => state,
        None => NonceState { last_nonce: 0 },
    };
    consume_nonce(&mut state, nonce)?;
    nonce_state.record = Some(state);
    Ok(())
}

/// A request that the safe form accepted is refused with `NonceAlreadyUsed`
/// when it is sent again, while the vulnerable form accepts the same
/// signature once more.
pub proof fn lemma_accepted_request_is_not_replayed(
    state: NonceState,
    recovered: Option<Seq<u8>>,
    expected_pubkey: Seq<u8>,
    nonce: u64,
)
    requires
        spec_authorize_safe(state, recovered, expected_pubkey, nonce) is Ok,
    ensures
        spec_authorize_safe(after_nonce(state, nonce), recovered, expected_pubkey, nonce) == Err::<
            (),
            LedgerError,
        >(LedgerError::NonceAlreadyUsed),
        spec_authorize_vulnerable(recovered, expected_pubkey) is Ok,
{
}

} // verus!
