use vstd::prelude::*;

verus! {

/// Errors of the escrow contract.
#[derive(Clone, Copy, Debug, PartialEq, Eq, PartialOrd, Ord, Structural)]
pub enum EscrowError {
    /// Contract is already initialized
    AlreadyInitialized,
    /// Contract configuration not found
    ConfigNotInitialized,
    /// Unauthorized access
    Unauthorized,
    /// Escrow not found
    EscrowNotFound,
    /// Invalid amount (must be greater than 0)
    InvalidAmount,
    /// Invalid fee basis points (must be 0-10000)
    InvalidFeeBps,
    /// Invalid guarantee days (must be 1-36500)
    InvalidGuaranteeDays,
    /// Invalid product ID (cannot be empty)
    InvalidProductId,
    /// Escrow is not in active status
    EscrowNotActive,
    /// Guarantee period not expired
    GuaranteePeriodNotExpired,
    /// Guarantee period already expired
    GuaranteePeriodExpired,
    /// Fee amount exceeds escrow amount
    FeeExceedsAmount,
    /// Invalid signature for meta-transaction
    InvalidSignature,
    /// Nonce mismatch - replay attack detected
    InvalidNonce,
    /// Signature expired
    SignatureExpired,
    /// Invalid function selector for meta-transaction
    InvalidFunctionSelector,
    /// Counter overflow (too many escrows)
    CounterOverflow,
    /// Token not in allowed list
    TokenNotAllowed,
    /// Escrow is not in disputed status
    NotDisputed,
    /// Escrow is already disputed
    AlreadyDisputed,
    /// No dispute to resolve (no proposals exist)
    NoDisputeToResolve,
    /// Dispute already resolved
    DisputeAlreadyResolved,
    /// Both parties must agree on resolution
    BothPartiesMustAgree,
    /// Party has already proposed resolution
    AlreadyProposed,
    /// Seller cannot initiate a dispute during the buyer's guarantee period
    DisputeNotAllowed,
    /// Buyer and seller cannot be the same address
    InvalidSeller,
    /// Allowed token list is at its maximum capacity
    TokenLimitReached,
}

} // verus!
