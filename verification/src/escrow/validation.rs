use crate::address::Address;
use crate::escrow::error::EscrowError;
use crate::escrow::storage::{EscrowData, EscrowStatus, EscrowStorage};
use vstd::prelude::*;

verus! {

/// The outcome of a check: the error that it found, if any.
pub open spec fn check_result(error: Option<EscrowError>) -> Result<(), EscrowError> {
    match error {
        Some(e) => Err(e),
        None => Ok(()),
    }
}

/// The largest guarantee period, in days (100 years).
pub const MAX_GUARANTEE_DAYS: u32 = 36_500;

/// The largest fee rate, in basis points (100%).
pub const MAX_FEE_BPS: u32 = 10_000;

/// The first of the parameter checks of `create_escrow` that fails, if any.
pub open spec fn create_params_error(
    amount: i128,
    fee_bps: u32,
    guarantee_days: u32,
    product_id: Seq<u8>,
) -> Option<EscrowError> {
    if amount <= 0 {
        Some(EscrowError::InvalidAmount)
    } else if fee_bps > 10_000 {
        Some(EscrowError::InvalidFeeBps)
    } else if guarantee_days < 1 || guarantee_days > 36_500 {
        Some(EscrowError::InvalidGuaranteeDays)
    } else if product_id.len() == 0 {
        Some(EscrowError::InvalidProductId)
    } else {
        None
    }
}

/// Whether an escrow may be disputed at time `now`, and if not, why: an
/// active escrow may be; so may one released early, while its guarantee
/// period runs.
pub open spec fn dispute_error(
    status: EscrowStatus,
    allow_early_release: bool,
    release_at: u64,
    now: u64,
) -> Option<EscrowError> {
    match status {
        EscrowStatus::Disputed => Some(EscrowError::AlreadyDisputed),
        EscrowStatus::Active => None,
        EscrowStatus::Released => if allow_early_release && now < release_at {
            None
        } else {
            Some(EscrowError::EscrowNotActive)
        },
        EscrowStatus::Refunded => Some(EscrowError::EscrowNotActive),
    }
}

/// The outcome that both proposals determine: the agreed side (`true` favors the buyer).
pub open spec fn agreed_resolution(
    buyer_proposal: Option<bool>,
    seller_proposal: Option<bool>,
) -> Result<bool, EscrowError> {
    match (buyer_proposal, seller_proposal) {
        (Some(b), Some(s)) => if b == s {
            Ok(b)
        } else {
            Err(EscrowError::BothPartiesMustAgree)
        },
        _ => Err(EscrowError::NoDisputeToResolve),
    }
}

// ============================================================================
// Input Validation Functions
// ============================================================================

/// Validate buyer and seller are different addresses
pub fn validate_buyer_not_seller(buyer: &Address, seller: &Address) -> (r: Result<(), EscrowError>)
    ensures
        r == (if *buyer == *seller {
            Err(EscrowError::InvalidSeller)
        } else {
            Ok(())
        }),
{
    if *buyer == *seller {
        Err(EscrowError::InvalidSeller)
    } else {
        Ok(())
    }
}

/// Validate fee_bps does not exceed the on-chain maximum configured by admin
pub fn validate_fee_bps_within_limit(fee_bps: u32, max_fee_bps: u32) -> (r: Result<(), EscrowError>)
    ensures
        r == (if fee_bps > max_fee_bps {
            Err(EscrowError::InvalidFeeBps)
        } else {
            Ok(())
        }),
{
    if fee_bps > max_fee_bps {
        Err(EscrowError::InvalidFeeBps)
    } else {
        Ok(())
    }
}

/// Validate that the seller is allowed to dispute (only after the guarantee period).
/// During the guarantee period the buyer has the self-service right to request a refund;
/// allowing the seller to dispute during that window would block it.
pub fn validate_seller_can_dispute(escrow: &EscrowData, now: u64) -> (r: Result<(), EscrowError>)
    ensures
        r == (if now < escrow.release_at {
            Err(EscrowError::DisputeNotAllowed)
        } else {
            Ok(())
        }),
{
    if now < escrow.release_at {
        Err(EscrowError::DisputeNotAllowed)
    } else {
        Ok(())
    }
}

/// Validate amount is positive
pub fn validate_amount_positive(amount: i128) -> (r: Result<(), EscrowError>)
    ensures
        r == (if amount <= 0 {
            Err(EscrowError::InvalidAmount)
        } else {
            Ok(())
        }),
{
    if amount <= 0 {
        Err(EscrowError::InvalidAmount)
    } else {
        Ok(())
    }
}

/// Validate fee basis points is within valid range (0-10000)
pub fn validate_fee_bps_range(fee_bps: u32) -> (r: Result<(), EscrowError>)
    ensures
        r == (if fee_bps > 10_000 {
            Err(EscrowError::InvalidFeeBps)
        } else {
            Ok(())
        }),
{
    if fee_bps > MAX_FEE_BPS {
        Err(EscrowError::InvalidFeeBps)
    } else {
        Ok(())
    }
}

/// Validate guarantee days is within reasonable range (1-36500)
/// days must be at least 1 to ensure buyer protection
/// Maximum 100 years (36500 days)
pub fn validate_guarantee_days(days: u32) -> (r: Result<(), EscrowError>)
    ensures
        r == (if days < 1 || days > 36_500 {
            Err(EscrowError::InvalidGuaranteeDays)
        } else {
            Ok(())
        }),
{
    if days < 1 || days > MAX_GUARANTEE_DAYS {
        Err(EscrowError::InvalidGuaranteeDays)
    } else {
        Ok(())
    }
}

/// Validate product ID is not empty
pub fn validate_product_id_not_empty(product_id: &Vec<u8>) -> (r: Result<(), EscrowError>)
    ensures
        r == (if product_id@.len() == 0 {
            Err(EscrowError::InvalidProductId)
        } else {
            Ok(())
        }),
{
    if product_id.len() == 0 {
        Err(EscrowError::InvalidProductId)
    } else {
        Ok(())
    }
}

/// Validate all parameters for create_escrow
pub fn validate_create_escrow_params(
    amount: i128,
    fee_bps: u32,
    guarantee_days: u32,
    product_id: &Vec<u8>,
) -> (r: Result<(), EscrowError>)
    ensures
        r == check_result(create_params_error(amount, fee_bps, guarantee_days, product_id@)),
{
    validate_amount_positive(amount)?;
    validate_fee_bps_range(fee_bps)?;
    validate_guarantee_days(guarantee_days)?;
    validate_product_id_not_empty(product_id)?;
    Ok(())
}

// ============================================================================
// Business Rule Validation Functions
// ============================================================================

/// Validate escrow is in active status
pub fn validate_escrow_active(status: EscrowStatus) -> (r: Result<(), EscrowError>)
    ensures
        r == (if status == EscrowStatus::Active {
            Ok(())
        } else {
            Err(EscrowError::EscrowNotActive)
        }),
{
    if let EscrowStatus::Active = status {
        Ok(())
    } else {
        Err(EscrowError::EscrowNotActive)
    }
}

/// Validate refund window has not expired
pub fn validate_refund_window(escrow: &EscrowData, now: u64) -> (r: Result<(), EscrowError>)
    ensures
        r == (if now >= escrow.release_at {
            Err(EscrowError::GuaranteePeriodExpired)
        } else {
            Ok(())
        }),
{
    if now >= escrow.release_at {
        Err(EscrowError::GuaranteePeriodExpired)
    } else {
        Ok(())
    }
}

/// Validate guarantee period has expired (for release_payment)
pub fn validate_guarantee_period_expired(release_at: u64, now: u64) -> (r: Result<(), EscrowError>)
    ensures
        r == (if now < release_at {
            Err(EscrowError::GuaranteePeriodNotExpired)
        } else {
            Ok(())
        }),
{
    if now < release_at {
        Err(EscrowError::GuaranteePeriodNotExpired)
    } else {
        Ok(())
    }
}

/// Validate fee does not exceed amount
pub fn validate_fee_not_exceeds_amount(amount: i128, fee: i128) -> (r: Result<(), EscrowError>)
    ensures
        r == (if fee > amount {
            Err(EscrowError::FeeExceedsAmount)
        } else {
            Ok(())
        }),
{
    if fee > amount {
        Err(EscrowError::FeeExceedsAmount)
    } else {
        Ok(())
    }
}

// ============================================================================
// Token Validation Functions
// ============================================================================

/// Validate token is in the allowed list
pub fn validate_token_allowed(st: &EscrowStorage, asset: &Address) -> (r: Result<(), EscrowError>)
    ensures
        r == (if st@.allowed().contains(*asset) {
            Ok(())
        } else {
            Err(EscrowError::TokenNotAllowed)
        }),
{
    if crate::escrow::storage::is_token_allowed(st, asset) {
        Ok(())
    } else {
        Err(EscrowError::TokenNotAllowed)
    }
}

// ============================================================================
// Dispute Validation Functions
// ============================================================================

/// Validate escrow is in disputed status
pub fn validate_escrow_disputed(status: EscrowStatus) -> (r: Result<(), EscrowError>)
    ensures
        r == (if status == EscrowStatus::Disputed {
            Ok(())
        } else {
            Err(EscrowError::NotDisputed)
        }),
{
    if let EscrowStatus::Disputed = status {
        Ok(())
    } else {
        Err(EscrowError::NotDisputed)
    }
}

/// Validate if an escrow can be disputed
/// Active escrows can be disputed, and so can escrows released early while
/// their guarantee period runs; refunds and other releases are final.
pub fn validate_can_dispute(escrow: &EscrowData, now: u64) -> (r: Result<(), EscrowError>)
    ensures
        r == check_result(
            dispute_error(escrow.status, escrow.allow_early_release, escrow.release_at, now),
        ),
{
    match escrow.status {
        EscrowStatus::Disputed => Err(EscrowError::AlreadyDisputed),
        EscrowStatus::Active => Ok(()),
        EscrowStatus::Released => {
            if escrow.allow_early_release && now < escrow.release_at {
                Ok(())
            } else {
                Err(EscrowError::EscrowNotActive)
            }
        },
        EscrowStatus::Refunded => Err(EscrowError::EscrowNotActive),
    }
}

/// Validate both parties have proposed and agree on resolution
pub fn validate_dispute_resolution(
    buyer_proposal: Option<bool>,
    seller_proposal: Option<bool>,
) -> (r: Result<bool, EscrowError>)
    ensures
        r == agreed_resolution(buyer_proposal, seller_proposal),
{
    match (buyer_proposal, seller_proposal) {
        (Some(buyer_choice), Some(seller_choice)) => {
            if buyer_choice == seller_choice {
                Ok(buyer_choice)
            } else {
                Err(EscrowError::BothPartiesMustAgree)
            }
        },
        _ => Err(EscrowError::NoDisputeToResolve),
    }
}

/// Validate party hasn't already proposed
pub fn validate_not_yet_proposed(proposal: Option<bool>) -> (r: Result<(), EscrowError>)
    ensures
        r == (if proposal is Some {
            Err(EscrowError::AlreadyProposed)
        } else {
            Ok(())
        }),
{
    if proposal.is_some() {
        Err(EscrowError::AlreadyProposed)
    } else {
        Ok(())
    }
}

} // verus!
