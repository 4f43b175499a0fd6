//! The events that the escrow contract publishes.
use crate::address::Address;
use vstd::prelude::*;

verus! {

/// Event emitted when a new escrow is created
#[derive(Debug)]
pub struct CreateEscrowEvent {
    pub escrow_id: u64,
    pub buyer: Address,
    pub seller: Address,
    pub amount: i128,
    pub asset: Address,
    pub fee_bps: u32,
    pub guarantee_days: u32,
    pub product_id: Vec<u8>,
    pub allow_early_release: bool,
}

/// Event emitted when payment is released to seller
#[derive(Clone, Copy, Debug)]
pub struct ReleasePaymentEvent {
    pub escrow_id: u64,
    pub seller: Address,
    pub amount: i128,
    pub fee: i128,
    pub to_seller: i128,
}

/// Event emitted when refund is issued to buyer
#[derive(Clone, Copy, Debug)]
pub struct RequestRefundEvent {
    pub escrow_id: u64,
    pub buyer: Address,
    pub amount: i128,
    pub asset: Address,
}

/// Event emitted when a token is added to the allowed list
#[derive(Clone, Copy, Debug)]
pub struct TokenAddedEvent {
    pub token: Address,
}

/// Event emitted when a token is removed from the allowed list
#[derive(Clone, Copy, Debug)]
pub struct TokenRemovedEvent {
    pub token: Address,
}

/// Event emitted when a dispute is initiated
#[derive(Clone, Copy, Debug)]
pub struct DisputeEscrowEvent {
    pub escrow_id: u64,
    pub initiator: Address,
}

/// Event emitted when a party proposes a resolution
#[derive(Clone, Copy, Debug)]
pub struct ProposeResolutionEvent {
    pub escrow_id: u64,
    pub proposer: Address,
    pub favor_buyer: bool,
}

/// Event emitted when dispute is resolved
#[derive(Clone, Copy, Debug)]
pub struct ResolveDisputeEvent {
    pub escrow_id: u64,
    pub favor_buyer: bool,
    pub amount: i128,
    pub fee: i128,
    pub recipient: Address,
    pub resolved_by: Address,
}

/// Event emitted when admin withdraws funds
#[derive(Clone, Copy, Debug)]
pub struct AdminWithdrawEvent {
    pub admin: Address,
    pub asset: Address,
    pub amount: i128,
}

/// Any event of the escrow contract.
#[derive(Debug)]
pub enum EscrowEvent {
    CreateEscrow(CreateEscrowEvent),
    ReleasePayment(ReleasePaymentEvent),
    RequestRefund(RequestRefundEvent),
    TokenAdded(TokenAddedEvent),
    TokenRemoved(TokenRemovedEvent),
    DisputeEscrow(DisputeEscrowEvent),
    ProposeResolution(ProposeResolutionEvent),
    ResolveDispute(ResolveDisputeEvent),
    AdminWithdraw(AdminWithdrawEvent),
}

} // verus!
