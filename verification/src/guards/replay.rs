//! Single use of authorizations: a strictly increasing nonce per principal.

use crate::error::LedgerError;
use vstd::prelude::*;

verus! {

/// The last nonce accepted from one authorizing principal.
#[derive(Clone, Copy, Debug, PartialEq, Eq, Structural)]
pub struct NonceState {
    pub last_nonce: u64,
}

impl NonceState {
    /// The bytes the state takes in storage.
    pub const SIZE: usize = 8;
}

/// Whether `presented` is accepted in `state`.
pub open spec fn nonce_accepted(state: NonceState, presented: u64) -> bool {
    presented > state.last_nonce
}

/// The state after `presented` was offered in `state`.
pub open spec fn after_nonce(state: NonceState, presented: u64) -> NonceState {
    if nonce_accepted(state, presented) {
        NonceState { last_nonce: presented }
    } else {
        state
    }
}

/// The state after each nonce of `nonces` was offered in turn.
pub open spec fn after_nonces(state: NonceState, nonces: Seq<u64>) -> NonceState
    decreases nonces.len(),
{
    if nonces.len() == 0 {
        state
    } else {
        after_nonces(after_nonce(state, nonces[0]), nonces.drop_first())
    }
}

/// Whether each nonce of `nonces`, offered in turn from `state`, is accepted.
pub open spec fn all_nonces_accepted(state: NonceState, nonces: Seq<u64>) -> bool
    decreases nonces.len(),
{
    nonces.len() == 0 || (nonce_accepted(state, nonces[0]) && all_nonces_accepted(
        after_nonce(state, nonces[0]),
        nonces.drop_first(),
    ))
}

/// Accepts `presented` exactly when it is above the last nonce accepted, and
/// then records it. A refused nonce leaves the state as it is.
pub fn consume_nonce(state: &mut NonceState, presented: u64) -> (r: Result<(), LedgerError>)
    ensures
        r is Ok <==> nonce_accepted(*old(state), presented),
        r is Err ==> r->Err_0 == LedgerError::NonceAlreadyUsed,
        *final(state) == after_nonce(*old(state), presented),
        final(state).last_nonce >= old(state).last_nonce,
{
    if presented > state.last_nonce {
        state.last_nonce = presented;
        Ok(())
    } else {
        Err(LedgerError::NonceAlreadyUsed)
    }
}

/// A nonce that was offered once, accepted or not, is refused when offered
/// again at once.
pub proof fn lemma_nonce_is_single_use(state: NonceState, presented: u64)
    ensures
        !nonce_accepted(after_nonce(state, presented), presented),
        after_nonce(after_nonce(state, presented), presented) == after_nonce(state, presented),
{
}

/// Nonces that rise strictly from above the last accepted one are all
/// accepted, and the last of them is the one recorded.
pub proof fn lemma_increasing_nonces_are_accepted(state: NonceState, nonces: Seq<u64>)
    requires
        nonces.len() > 0,
        nonces[0] > state.last_nonce,
        forall|i: int, j: int| 0 <= i < j < nonces.len() ==> nonces[i] < nonces[j],
    ensures
        all_nonces_accepted(state, nonces),
        after_nonces(state, nonces).last_nonce == nonces.last(),
    decreases nonces.len(),
{
    let next = after_nonce(state, nonces[0]);
    let rest = nonces.drop_first();
    assert(nonce_accepted(state, nonces[0]));
    assert(next.last_nonce == nonces[0]);
    if rest.len() > 0 {
        assert(rest[0] == nonces[1]);
        assert(nonces[0] < nonces[1]);
        assert forall|i: int, j: int| 0 <= i < j < rest.len() implies rest[i] < rest[j] by {
            assert(rest[i] == nonces[i + 1]);
            assert(rest[j] == nonces[j + 1]);
        }
        lemma_increasing_nonces_are_accepted(next, rest);
        assert(rest.last() == nonces.last());
        assert(all_nonces_accepted(next, rest));
    } else {
        assert(nonces.last() == nonces[0]);
        assert(all_nonces_accepted(next, rest));
        assert(after_nonces(next, rest) == next);
    }
    assert(after_nonces(state, nonces) == after_nonces(next, rest));
}

/// The recorded nonce never falls.
pub proof fn lemma_nonce_never_falls(state: NonceState, nonces: Seq<u64>)
    ensures
        after_nonces(state, nonces).last_nonce >= state.last_nonce,
    decreases nonces.len(),
{
    if nonces.len() > 0 {
        lemma_nonce_never_falls(after_nonce(state, nonces[0]), nonces.drop_first());
    }
}

} // verus!
