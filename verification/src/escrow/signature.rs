//! Nonce management for replay protection.
use crate::address::Address;
use crate::escrow::error::EscrowError;
use crate::escrow::storage::{increment_nonce, read_nonce, EscrowStorage};
use vstd::prelude::*;

verus! {

/// Verify nonce and increment for replay protection
///
/// This function checks that the expected nonce matches the current nonce
/// for the user, then increments the nonce. This prevents replay attacks
/// where the same signed transaction could be submitted multiple times.
///
/// Returns `Ok(())` if the nonce is valid and was incremented, and
/// `Err(EscrowError::InvalidNonce)` if the nonce doesn't match.
pub fn verify_and_increment_nonce(
    st: &mut EscrowStorage,
    signer: &Address,
    expected_nonce: u64,
) -> (r: Result<(), EscrowError>)
    requires
        expected_nonce == old(st)@.nonce_of(*signer) ==> expected_nonce < u64::MAX,
    ensures
        expected_nonce != old(st)@.nonce_of(*signer) ==> r == Err::<(), EscrowError>(
            EscrowError::InvalidNonce,
        ) && final(st)@ == old(st)@,
        expected_nonce == old(st)@.nonce_of(*signer) ==> r == Ok::<(), EscrowError>(())
            && final(st)@ == old(st)@.with_nonce(*signer, (expected_nonce + 1) as u64),
{
    let current_nonce = read_nonce(st, signer);
    if expected_nonce != current_nonce {
        return Err(EscrowError::InvalidNonce);
    }
    increment_nonce(st, signer);
    Ok(())
}

} // verus!
