//! The escrow contract's entry points, as transitions of its storage.
//!
//! Each entry point takes the storage and what it reads of the ledger, and
//! gives back what the host must carry out: the address whose authorization
//! the call requires, and on success the token transfers and the event.
//! A call that fails leaves the storage as it was, as the host rolls back
//! a failed invocation.
use crate::address::Address;
use crate::escrow::error::EscrowError;
use crate::escrow::events::{
    AdminWithdrawEvent, CreateEscrowEvent, DisputeEscrowEvent, EscrowEvent, ProposeResolutionEvent,
    ReleasePaymentEvent, RequestRefundEvent, ResolveDisputeEvent, TokenAddedEvent, TokenRemovedEvent,
};
use crate::escrow::math::{calc_fee, calc_release_timestamp, fee_computable, fee_of, release_time_of};
use crate::escrow::signature::verify_and_increment_nonce;
use crate::escrow::laws::lemma_payout_conserves_amount;
use crate::escrow::storage::{
    add_allowed_token, is_token_allowed, read_allowed_tokens,
    read_config, read_counter, read_escrow, read_fee_mode, read_nonce, remove_allowed_token,
    with_token_added, with_token_removed, write_config, write_counter, write_escrow, write_fee_mode,
    copy_bytes, Config, DataKey, EscrowData, EscrowRecord,
    EscrowStatus, EscrowStorage, StorageView,
};
use crate::escrow::validation::{
    agreed_resolution, create_params_error, dispute_error, validate_amount_positive,
    validate_can_dispute, validate_create_escrow_params, validate_dispute_resolution,
    validate_escrow_active, validate_escrow_disputed, validate_fee_not_exceeds_amount,
    validate_guarantee_period_expired, validate_not_yet_proposed, validate_refund_window,
    validate_token_allowed,
};
use vstd::prelude::*;

verus! {

/// What the contract reads of the ledger besides its storage.
#[derive(Clone, Copy, Debug)]
pub struct Ledger {
    /// The ledger's close time, in seconds.
    pub timestamp: u64,
    /// The contract's own address.
    pub contract: Address,
}

/// A token transfer that the contract makes.
#[derive(Clone, Copy, Debug, PartialEq, Eq)]
pub struct Transfer {
    pub asset: Address,
    pub from: Address,
    pub to: Address,
    pub amount: i128,
}

/// What a successful call leaves for the host to do: transfers, in order,
/// and the event to publish.
#[derive(Debug)]
pub struct Effects {
    pub transfers: Vec<Transfer>,
    pub event: Option<EscrowEvent>,
}

/// The outcome of a call: the address that must authorize it, where the
/// call gets as far as asking, and its result.
#[derive(Debug)]
pub struct Call<T> {
    pub auth: Option<Address>,
    pub result: Result<T, EscrowError>,
}

/// The escrow contract.
pub struct EscrowContract;

// ============================================================================
// Specifications shared by the entry points
// ============================================================================

/// Status changes that the contract makes: an active escrow is released,
/// refunded or disputed; a disputed one is released or refunded; a released
/// one may be disputed (while an early release's guarantee period runs);
/// a refunded one stays as it is.
pub open spec fn status_step(from: EscrowStatus, to: EscrowStatus) -> bool {
    ||| from == to
    ||| from == EscrowStatus::Active && to != EscrowStatus::Active
    ||| from == EscrowStatus::Disputed && (to == EscrowStatus::Released || to
        == EscrowStatus::Refunded)
    ||| from == EscrowStatus::Released && to == EscrowStatus::Disputed
}

/// No escrow disappears, and each one's status moves by `status_step`.
pub open spec fn escrows_advance(pre: StorageView, post: StorageView) -> bool {
    forall|id: u64|
        #[trigger] pre.escrows.contains_key(id) ==> post.escrows.contains_key(id) && status_step(
            pre.escrows[id].status,
            post.escrows[id].status,
        )
}

/// The transfers that pay out an escrowed amount to a recipient: where the
/// fee is collected now and is positive, it goes to the admin and the rest
/// to the recipient; otherwise the whole amount goes to the recipient.
pub open spec fn payout_transfers(
    asset: Address,
    contract: Address,
    admin: Address,
    recipient: Address,
    amount: i128,
    fee: i128,
    collect_on_create: bool,
) -> Seq<Transfer> {
    if !collect_on_create && fee > 0 {
        seq![
            Transfer { asset, from: contract, to: admin, amount: fee },
            Transfer { asset, from: contract, to: recipient, amount: (amount - fee) as i128 },
        ]
    } else {
        seq![Transfer { asset, from: contract, to: recipient, amount }]
    }
}

/// The error of a payout, if any: a fee collected now may not exceed the amount.
pub open spec fn payout_error(amount: i128, fee: i128, collect_on_create: bool) -> Option<
    EscrowError,
> {
    if !collect_on_create && fee > 0 && fee > amount {
        Some(EscrowError::FeeExceedsAmount)
    } else {
        None
    }
}

/// The fee of an escrow record, at the rate it was created with.
pub open spec fn record_fee(rec: EscrowRecord) -> i128 {
    fee_of(rec.amount as int, rec.fee_bps as int) as i128
}

/// The fee-collection mode that an escrow pays out under: the one recorded
/// when it was created, or, for a record stored without one, the configured one.
pub open spec fn fee_mode_of(pre: StorageView, escrow_id: u64) -> bool {
    if pre.fee_modes.contains_key(escrow_id) {
        pre.fee_modes[escrow_id]
    } else {
        pre.config.unwrap().collect_on_create
    }
}

/// The error of paying out a stored escrow, under its own fee mode.
pub open spec fn escrow_payout_error(pre: StorageView, escrow_id: u64) -> Option<EscrowError> {
    let rec = pre.escrows[escrow_id];
    payout_error(rec.amount, record_fee(rec), fee_mode_of(pre, escrow_id))
}

/// The fee that paying out a stored escrow reports: its fee at the rate it
/// was created with, whichever way it is collected.
pub open spec fn escrow_payout_fee(pre: StorageView, escrow_id: u64) -> i128 {
    record_fee(pre.escrows[escrow_id])
}

/// The net amount that paying out a stored escrow gives its recipient.
pub open spec fn escrow_payout_net(pre: StorageView, escrow_id: u64) -> i128 {
    let rec = pre.escrows[escrow_id];
    payout_net(rec.amount, record_fee(rec), fee_mode_of(pre, escrow_id))
}

/// The transfers that pay out a stored escrow to a recipient, under its own
/// fee mode, with any fee going to the current admin.
pub open spec fn escrow_payout_transfers(
    pre: StorageView,
    escrow_id: u64,
    contract: Address,
    recipient: Address,
) -> Seq<Transfer> {
    let rec = pre.escrows[escrow_id];
    payout_transfers(
        rec.asset,
        contract,
        pre.config.unwrap().admin,
        recipient,
        rec.amount,
        record_fee(rec),
        fee_mode_of(pre, escrow_id),
    )
}

/// The transfers of a refund: the whole amount back to the buyer.
pub open spec fn refund_transfers(pre: StorageView, escrow_id: u64, contract: Address) -> Seq<
    Transfer,
> {
    let rec = pre.escrows[escrow_id];
    seq![Transfer { asset: rec.asset, from: contract, to: rec.buyer, amount: rec.amount }]
}

/// Whether an escrow's status leaves its amount with the contract: an active
/// or disputed escrow is unsettled, a released or refunded one settled.
pub open spec fn is_settled(status: EscrowStatus) -> bool {
    status == EscrowStatus::Released || status == EscrowStatus::Refunded
}

/// Whether a call settles an escrow: it finds it unsettled and leaves it
/// released or refunded.
pub open spec fn settles(pre: StorageView, post: StorageView, id: u64) -> bool {
    &&& pre.escrows.contains_key(id)
    &&& !is_settled(pre.escrows[id].status)
    &&& post.escrows.contains_key(id)
    &&& is_settled(post.escrows[id].status)
}

/// Custody of one escrow across a call that pays `paid` out of it: no escrow
/// disappears or changes its amount, and its status moves by `status_step`;
/// a new escrow is funded and active; and a call pays out of an escrow
/// exactly when it settles it, and then it pays its whole amount.
pub open spec fn custody_step(pre: StorageView, post: StorageView, id: u64, paid: int) -> bool {
    &&& pre.escrows.contains_key(id) ==> post.escrows.contains_key(id)
        && post.escrows[id].amount == pre.escrows[id].amount && status_step(
        pre.escrows[id].status,
        post.escrows[id].status,
    )
    &&& !pre.escrows.contains_key(id) && post.escrows.contains_key(id) ==> post.escrows[id].amount
        > 0 && post.escrows[id].status == EscrowStatus::Active
    &&& paid != 0 || settles(pre, post, id) ==> settles(pre, post, id) && paid
        == pre.escrows[id].amount
}

/// A call that pays nothing out of any escrow.
pub open spec fn custody_kept(pre: StorageView, post: StorageView) -> bool {
    forall|id: u64| #[trigger] custody_step(pre, post, id, 0)
}

/// A call that pays `paid` out of `escrow_id`, and nothing out of any other.
pub open spec fn custody_paid(pre: StorageView, post: StorageView, escrow_id: u64, paid: int) -> bool {
    &&& custody_step(pre, post, escrow_id, paid)
    &&& forall|id: u64| id != escrow_id ==> #[trigger] custody_step(pre, post, id, 0)
}

/// What the transfers of a call add up to: nothing for a call that failed.
pub open spec fn paid_by(result: Result<Effects, EscrowError>) -> int {
    match result {
        Ok(eff) => total_amount(eff.transfers@),
        Err(_) => 0,
    }
}

/// The sum of the amounts of a list of transfers.
pub open spec fn total_amount(transfers: Seq<Transfer>) -> int
    decreases transfers.len(),
{
    if transfers.len() == 0 {
        0
    } else {
        total_amount(transfers.drop_last()) + transfers.last().amount
    }
}

/// A failed call leaves the storage as it was.
pub open spec fn unchanged_on_error<T>(
    pre: StorageView,
    post: StorageView,
    result: Result<T, EscrowError>,
) -> bool {
    result is Err ==> post == pre
}

// ============================================================================
// What each entry point does
// ============================================================================

/// The first check of `create_escrow` that fails, if any.
pub open spec fn create_escrow_error(
    pre: StorageView,
    amount: i128,
    asset: Address,
    fee_bps: u32,
    guarantee_days: u32,
    product_id: Seq<u8>,
) -> Option<EscrowError> {
    if create_params_error(amount, fee_bps, guarantee_days, product_id) is Some {
        create_params_error(amount, fee_bps, guarantee_days, product_id)
    } else if !pre.allowed().contains(asset) {
        Some(EscrowError::TokenNotAllowed)
    } else if pre.counter_value() == u64::MAX {
        Some(EscrowError::CounterOverflow)
    } else if pre.config.unwrap().collect_on_create && fee_of(amount as int, fee_bps as int) > 0
        && fee_of(amount as int, fee_bps as int) > amount {
        Some(EscrowError::FeeExceedsAmount)
    } else {
        None
    }
}

/// The record that `create_escrow` stores.
pub open spec fn created_record(
    now: u64,
    buyer: Address,
    seller: Address,
    amount: i128,
    asset: Address,
    fee_bps: u32,
    guarantee_days: u32,
    product_id: Seq<u8>,
    allow_early_release: bool,
) -> EscrowRecord {
    EscrowRecord {
        buyer,
        seller,
        amount,
        asset,
        created_at: now,
        release_at: release_time_of(now as int, guarantee_days as int) as u64,
        status: EscrowStatus::Active,
        product_id,
        guarantee_days,
        fee_bps,
        allow_early_release,
        buyer_proposal: None,
        seller_proposal: None,
    }
}

/// The transfers of `create_escrow`: the amount into custody, and the fee to
/// the admin where it is collected on creation and positive.
pub open spec fn creation_transfers(
    contract: Address,
    admin: Address,
    buyer: Address,
    asset: Address,
    amount: i128,
    fee: i128,
    collect_on_create: bool,
) -> Seq<Transfer> {
    let deposit = Transfer { asset, from: buyer, to: contract, amount };
    if collect_on_create && fee > 0 {
        seq![deposit, Transfer { asset, from: buyer, to: admin, amount: fee }]
    } else {
        seq![deposit]
    }
}

/// The checks of `release_payment` before it reads the configuration.
pub open spec fn release_precheck(
    pre: StorageView,
    now: u64,
    escrow_id: u64,
    seller: Address,
    nonce: u64,
) -> Option<EscrowError> {
    if nonce != pre.nonce_of(seller) {
        Some(EscrowError::InvalidNonce)
    } else if !pre.escrows.contains_key(escrow_id) {
        Some(EscrowError::EscrowNotFound)
    } else if pre.escrows[escrow_id].status != EscrowStatus::Active {
        Some(EscrowError::EscrowNotActive)
    } else if pre.escrows[escrow_id].seller != seller {
        Some(EscrowError::Unauthorized)
    } else if !pre.escrows[escrow_id].allow_early_release && now
        < pre.escrows[escrow_id].release_at {
        Some(EscrowError::GuaranteePeriodNotExpired)
    } else {
        None
    }
}

/// The first check of `release_payment` that fails, if any.
pub open spec fn release_error(
    pre: StorageView,
    now: u64,
    escrow_id: u64,
    seller: Address,
    nonce: u64,
) -> Option<EscrowError> {
    if release_precheck(pre, now, escrow_id, seller, nonce) is Some {
        release_precheck(pre, now, escrow_id, seller, nonce)
    } else {
        escrow_payout_error(pre, escrow_id)
    }
}

/// The first check of `request_refund` that fails, if any.
pub open spec fn refund_error(
    pre: StorageView,
    now: u64,
    escrow_id: u64,
    buyer: Address,
    nonce: u64,
) -> Option<EscrowError> {
    if nonce != pre.nonce_of(buyer) {
        Some(EscrowError::InvalidNonce)
    } else if !pre.escrows.contains_key(escrow_id) {
        Some(EscrowError::EscrowNotFound)
    } else if pre.escrows[escrow_id].buyer != buyer {
        Some(EscrowError::Unauthorized)
    } else if pre.escrows[escrow_id].status != EscrowStatus::Active {
        Some(EscrowError::EscrowNotActive)
    } else if now >= pre.escrows[escrow_id].release_at {
        Some(EscrowError::GuaranteePeriodExpired)
    } else {
        None
    }
}

/// Whether an address is a party (buyer or seller) of an escrow.
pub open spec fn is_party(rec: EscrowRecord, caller: Address) -> bool {
    rec.buyer == caller || rec.seller == caller
}

/// The checks of `dispute_escrow` on the escrow itself.
pub open spec fn dispute_escrow_precheck(
    pre: StorageView,
    now: u64,
    escrow_id: u64,
    caller: Address,
) -> Option<EscrowError> {
    if !pre.escrows.contains_key(escrow_id) {
        Some(EscrowError::EscrowNotFound)
    } else if !is_party(pre.escrows[escrow_id], caller) {
        Some(EscrowError::Unauthorized)
    } else {
        let rec = pre.escrows[escrow_id];
        dispute_error(rec.status, rec.allow_early_release, rec.release_at, now)
    }
}

/// The first check of `dispute_escrow` that fails, if any: the escrow's
/// checks come before the nonce's, so that disputing an escrow that is
/// already disputed is refused as such.
pub open spec fn dispute_escrow_error(
    pre: StorageView,
    now: u64,
    escrow_id: u64,
    caller: Address,
    nonce: u64,
) -> Option<EscrowError> {
    if dispute_escrow_precheck(pre, now, escrow_id, caller) is Some {
        dispute_escrow_precheck(pre, now, escrow_id, caller)
    } else if nonce != pre.nonce_of(caller) {
        Some(EscrowError::InvalidNonce)
    } else {
        None
    }
}

/// The first check of `propose_resolution` that fails, if any.
pub open spec fn propose_error(
    pre: StorageView,
    escrow_id: u64,
    caller: Address,
    nonce: u64,
) -> Option<EscrowError> {
    if nonce != pre.nonce_of(caller) {
        Some(EscrowError::InvalidNonce)
    } else if !pre.escrows.contains_key(escrow_id) {
        Some(EscrowError::EscrowNotFound)
    } else if !is_party(pre.escrows[escrow_id], caller) {
        Some(EscrowError::Unauthorized)
    } else if pre.escrows[escrow_id].status != EscrowStatus::Disputed {
        Some(EscrowError::NotDisputed)
    } else if pre.escrows[escrow_id].buyer == caller {
        if pre.escrows[escrow_id].buyer_proposal is Some {
            Some(EscrowError::AlreadyProposed)
        } else {
            None
        }
    } else if pre.escrows[escrow_id].seller_proposal is Some {
        Some(EscrowError::AlreadyProposed)
    } else {
        None
    }
}

/// The record after a proposal: the buyer's proposal where the caller is the
/// buyer, else the seller's.
pub open spec fn proposed_record(rec: EscrowRecord, caller: Address, favor_buyer: bool) -> EscrowRecord {
    if rec.buyer == caller {
        rec.with_buyer_proposal(Some(favor_buyer))
    } else {
        rec.with_seller_proposal(Some(favor_buyer))
    }
}

/// The checks of `resolve_dispute` before it settles.
pub open spec fn resolve_precheck(
    pre: StorageView,
    escrow_id: u64,
    caller: Address,
    nonce: u64,
) -> Option<EscrowError> {
    if nonce != pre.nonce_of(caller) {
        Some(EscrowError::InvalidNonce)
    } else if !pre.escrows.contains_key(escrow_id) {
        Some(EscrowError::EscrowNotFound)
    } else if !is_party(pre.escrows[escrow_id], caller) {
        Some(EscrowError::Unauthorized)
    } else if pre.escrows[escrow_id].status != EscrowStatus::Disputed {
        Some(EscrowError::NotDisputed)
    } else {
        match agreed_resolution(
            pre.escrows[escrow_id].buyer_proposal,
            pre.escrows[escrow_id].seller_proposal,
        ) {
            Ok(_) => None,
            Err(e) => Some(e),
        }
    }
}

/// The first check of `resolve_dispute` that fails, if any.
pub open spec fn resolve_error(
    pre: StorageView,
    escrow_id: u64,
    caller: Address,
    nonce: u64,
) -> Option<EscrowError> {
    if resolve_precheck(pre, escrow_id, caller, nonce) is Some {
        resolve_precheck(pre, escrow_id, caller, nonce)
    } else {
        escrow_payout_error(pre, escrow_id)
    }
}

/// The checks of `admin_resolve_dispute` before it settles.
pub open spec fn admin_resolve_precheck(pre: StorageView, escrow_id: u64, nonce: u64) -> Option<
    EscrowError,
> {
    if nonce != pre.nonce_of(pre.config.unwrap().admin) {
        Some(EscrowError::InvalidNonce)
    } else if !pre.escrows.contains_key(escrow_id) {
        Some(EscrowError::EscrowNotFound)
    } else if pre.escrows[escrow_id].status != EscrowStatus::Disputed {
        Some(EscrowError::NotDisputed)
    } else {
        None
    }
}

/// The first check of `admin_resolve_dispute` that fails, if any.
pub open spec fn admin_resolve_error(pre: StorageView, escrow_id: u64, nonce: u64) -> Option<
    EscrowError,
> {
    if admin_resolve_precheck(pre, escrow_id, nonce) is Some {
        admin_resolve_precheck(pre, escrow_id, nonce)
    } else {
        escrow_payout_error(pre, escrow_id)
    }
}

/// The outcome of settling a disputed escrow in favor of one side: the
/// storage, transfers and event that `execute_dispute_resolution` gives.
pub open spec fn settled(
    pre: StorageView,
    post: StorageView,
    ledger: Ledger,
    escrow_id: u64,
    favor_buyer: bool,
    resolved_by: Address,
    effects: Effects,
) -> bool {
    let rec = pre.escrows[escrow_id];
    let recipient = if favor_buyer {
        rec.buyer
    } else {
        rec.seller
    };
    let status = if favor_buyer {
        EscrowStatus::Refunded
    } else {
        EscrowStatus::Released
    };
    &&& post == pre.with_escrow(escrow_id, rec.with_status(status))
    &&& effects.transfers@ == escrow_payout_transfers(pre, escrow_id, ledger.contract, recipient)
    &&& total_amount(effects.transfers@) == rec.amount
    &&& effects.event == Some(
        EscrowEvent::ResolveDispute(
            ResolveDisputeEvent {
                escrow_id,
                favor_buyer,
                amount: rec.amount,
                fee: escrow_payout_fee(pre, escrow_id),
                recipient,
                resolved_by,
            },
        ),
    )
}

// ============================================================================
// Helpers
// ============================================================================

/// A call refused before it asks for authorization.
fn refused<T>(error: EscrowError) -> (r: Call<T>)
    ensures
        r.auth is None,
        r.result == Err::<T, EscrowError>(error),
{
    Call { auth: None, result: Err(error) }
}

/// A call that asks `who` to authorize it.
fn authorized<T>(who: Address, result: Result<T, EscrowError>) -> (r: Call<T>)
    ensures
        r.auth == Some(who),
        r.result == result,
{
    Call { auth: Some(who), result }
}

/// The net amount that reaches the recipient of a payout.
pub open spec fn payout_net(amount: i128, fee: i128, collect_on_create: bool) -> i128 {
    if !collect_on_create && fee > 0 {
        (amount - fee) as i128
    } else {
        amount
    }
}

/// The transfers that pay out an escrow under a fee mode, with the fee and
/// the net amount that reaches the recipient.
fn pay_out(
    esc: &EscrowData,
    collect_on_create: bool,
    admin: Address,
    ledger: &Ledger,
    recipient: Address,
) -> (r: Result<(Vec<Transfer>, i128, i128), EscrowError>)
    requires
        fee_computable(esc.amount as int, esc.fee_bps as int),
    ensures
        match r {
            Ok((transfers, fee, net)) => {
                &&& payout_error(esc.amount, record_fee(esc@), collect_on_create) is None
                &&& fee == record_fee(esc@)
                &&& net == payout_net(esc.amount, fee, collect_on_create)
                &&& transfers@ == payout_transfers(
                    esc.asset,
                    ledger.contract,
                    admin,
                    recipient,
                    esc.amount,
                    fee,
                    collect_on_create,
                )
                &&& total_amount(transfers@) == esc.amount
            },
            Err(e) => Some(e) == payout_error(esc.amount, record_fee(esc@), collect_on_create),
        },
{
    let fee = calc_fee(esc.amount, esc.fee_bps);
    let mut transfers: Vec<Transfer> = Vec::new();
    let mut net = esc.amount;
    if !collect_on_create {
        if fee > 0 {
            validate_fee_not_exceeds_amount(esc.amount, fee)?;
            transfers.push(
                Transfer { asset: esc.asset, from: ledger.contract, to: admin, amount: fee },
            );
            net = esc.amount - fee;
        }
    }
    transfers.push(Transfer { asset: esc.asset, from: ledger.contract, to: recipient, amount: net });
    proof {
        assert(transfers@ =~= payout_transfers(
            esc.asset,
            ledger.contract,
            admin,
            recipient,
            esc.amount,
            fee,
            collect_on_create,
        ));
        lemma_payout_conserves_amount(
            esc.asset,
            ledger.contract,
            admin,
            recipient,
            esc.amount,
            fee,
            collect_on_create,
        );
    }
    Ok((transfers, fee, net))
}

/// The fee-collection mode that a stored escrow pays out under.
fn stored_fee_mode(st: &EscrowStorage, escrow_id: u64, cfg: &Config) -> (mode: bool)
    requires
        st@.config == Some(*cfg),
    ensures
        mode == fee_mode_of(st@, escrow_id),
{
    match read_fee_mode(st, escrow_id) {
        Some(m) => m,
        None => cfg.collect_on_create,
    }
}

/// Every stored escrow and recorded fee mode is for an id that the counter
/// has reached.
pub open spec fn ids_within_counter(v: StorageView) -> bool {
    forall|id: u64|
        #![trigger v.escrows.contains_key(id)]
        #![trigger v.fee_modes.contains_key(id)]
        v.escrows.contains_key(id) || v.fee_modes.contains_key(id) ==> id <= v.counter_value()
}

/// Every stored escrow has the fee-collection mode it was created with.
pub open spec fn modes_recorded(v: StorageView) -> bool {
    forall|id: u64| #[trigger] v.escrows.contains_key(id) ==> v.fee_modes.contains_key(id)
}

/// What every call keeps of the storage: ids within the counter, and a fee
/// mode for every escrow.
pub open spec fn storage_wf(v: StorageView) -> bool {
    ids_within_counter(v) && modes_recorded(v)
}

/// The event of `create_escrow` describes the new escrow.
pub open spec fn is_create_event(
    event: Option<EscrowEvent>,
    escrow_id: u64,
    buyer: Address,
    seller: Address,
    amount: i128,
    asset: Address,
    fee_bps: u32,
    guarantee_days: u32,
    product_id: Seq<u8>,
    allow_early_release: bool,
) -> bool {
    match event {
        Some(EscrowEvent::CreateEscrow(ev)) => {
            &&& ev.escrow_id == escrow_id
            &&& ev.buyer == buyer
            &&& ev.seller == seller
            &&& ev.amount == amount
            &&& ev.asset == asset
            &&& ev.fee_bps == fee_bps
            &&& ev.guarantee_days == guarantee_days
            &&& ev.product_id@ == product_id
            &&& ev.allow_early_release == allow_early_release
        },
        _ => false,
    }
}

impl EscrowContract {
    /// Initialize contract configuration
    /// Can only be called once on deploy (or when empty).
    pub fn __constructor(st: &mut EscrowStorage, admin: Address, collect_on_create: bool) -> (r:
        Call<()>)
        ensures
            old(st)@.config is Some ==> r.auth is None && r.result == Err::<(), EscrowError>(
                EscrowError::AlreadyInitialized,
            ) && final(st)@ == old(st)@,
            old(st)@.config is None ==> r.auth == Some(admin) && r.result == Ok::<(), EscrowError>(())
                && final(st)@ == old(st)@.with_config(Config { admin, collect_on_create }),
            storage_wf(old(st)@) ==> storage_wf(final(st)@),
            custody_kept(old(st)@, final(st)@),
    {
        if st.has(&DataKey::Config) {
            return refused(EscrowError::AlreadyInitialized);
        }
        let cfg = Config { admin, collect_on_create };
        write_config(st, &cfg);
        authorized(admin, Ok(()))
    }

    /// Update configuration (only current admin)
    pub fn update_config(st: &mut EscrowStorage, new_admin: Address, collect_on_create: bool) -> (r:
        Call<Effects>)
        requires
            old(st)@.config is Some,
        ensures
            r.auth == Some(old(st)@.config.unwrap().admin),
            match r.result {
                Ok(eff) => eff.transfers@.len() == 0 && eff.event is None,
                Err(_) => false,
            },
            final(st)@ == old(st)@.with_config(Config { admin: new_admin, collect_on_create }),
            storage_wf(old(st)@) ==> storage_wf(final(st)@),
            custody_kept(old(st)@, final(st)@),
    {
        let cfg = read_config(st);
        let new_cfg = Config { admin: new_admin, collect_on_create };
        write_config(st, &new_cfg);
        authorized(cfg.admin, Ok(Effects { transfers: Vec::new(), event: None }))
    }

    pub fn get_config(st: &EscrowStorage) -> (cfg: Config)
        requires
            st@.config is Some,
        ensures
            st@.config == Some(cfg),
    {
        read_config(st)
    }

    /// Withdraw funds from the contract (admin only)
    pub fn admin_withdraw(st: &EscrowStorage, ledger: &Ledger, asset: Address, amount: i128) -> (r:
        Call<Effects>)
        requires
            st@.config is Some,
        ensures
            r.auth == Some(st@.config.unwrap().admin),
            match r.result {
                Ok(eff) => amount > 0 && eff.transfers@ == seq![
                    (Transfer { asset, from: ledger.contract, to: st@.config.unwrap().admin, amount }),
                ] && eff.event == Some(
                    EscrowEvent::AdminWithdraw(
                        AdminWithdrawEvent { admin: st@.config.unwrap().admin, asset, amount },
                    ),
                ),
                Err(e) => amount <= 0 && e == EscrowError::InvalidAmount,
            },
    {
        let cfg = read_config(st);
        if let Err(e) = validate_amount_positive(amount) {
            return authorized(cfg.admin, Err(e));
        }
        let mut transfers: Vec<Transfer> = Vec::new();
        transfers.push(Transfer { asset, from: ledger.contract, to: cfg.admin, amount });
        let event = EscrowEvent::AdminWithdraw(AdminWithdrawEvent { admin: cfg.admin, asset, amount });
        proof {
            assert(transfers@ =~= seq![
                (Transfer { asset, from: ledger.contract, to: cfg.admin, amount }),
            ]);
        }
        authorized(cfg.admin, Ok(Effects { transfers, event: Some(event) }))
    }

    // ============================================================================
    // Token Allowlist Management (Admin Only)
    // ============================================================================

    /// Add a token to the allowed list (admin only)
    /// This ensures only trusted tokens can be used in escrows
    pub fn add_allowed_token(st: &mut EscrowStorage, token: Address) -> (r: Call<Effects>)
        requires
            old(st)@.config is Some,
        ensures
            r.auth == Some(old(st)@.config.unwrap().admin),
            match r.result {
                Ok(eff) => eff.transfers@.len() == 0 && eff.event == Some(
                    EscrowEvent::TokenAdded(TokenAddedEvent { token }),
                ),
                Err(_) => false,
            },
            final(st)@ == old(st)@.with_allowed(with_token_added(old(st)@.allowed(), token)),
            storage_wf(old(st)@) ==> storage_wf(final(st)@),
            custody_kept(old(st)@, final(st)@),
    {
        let cfg = read_config(st);
        add_allowed_token(st, &token);
        let event = EscrowEvent::TokenAdded(TokenAddedEvent { token });
        authorized(cfg.admin, Ok(Effects { transfers: Vec::new(), event: Some(event) }))
    }

    /// Remove a token from the allowed list (admin only)
    /// Note: Existing escrows with this token will still function
    pub fn remove_allowed_token(st: &mut EscrowStorage, token: Address) -> (r: Call<Effects>)
        requires
            old(st)@.config is Some,
        ensures
            r.auth == Some(old(st)@.config.unwrap().admin),
            match r.result {
                Ok(eff) => eff.transfers@.len() == 0 && eff.event == Some(
                    EscrowEvent::TokenRemoved(TokenRemovedEvent { token }),
                ),
                Err(_) => false,
            },
            final(st)@ == old(st)@.with_allowed(with_token_removed(old(st)@.allowed(), token)),
            storage_wf(old(st)@) ==> storage_wf(final(st)@),
            custody_kept(old(st)@, final(st)@),
    {
        let cfg = read_config(st);
        remove_allowed_token(st, &token);
        let event = EscrowEvent::TokenRemoved(TokenRemovedEvent { token });
        authorized(cfg.admin, Ok(Effects { transfers: Vec::new(), event: Some(event) }))
    }

    /// Get the list of allowed tokens (public)
    pub fn get_allowed_tokens(st: &EscrowStorage) -> (tokens: Vec<Address>)
        ensures
            tokens@ == st@.allowed(),
    {
        read_allowed_tokens(st)
    }

    /// Check if a token is allowed (public helper function)
    pub fn is_token_allowed(st: &EscrowStorage, token: Address) -> (r: bool)
        ensures
            r == st@.allowed().contains(token),
    {
        is_token_allowed(st, &token)
    }

    /// Create escrow with guarantee period
    pub fn create_escrow(
        st: &mut EscrowStorage,
        ledger: &Ledger,
        buyer: Address,
        seller: Address,
        amount: i128,
        asset: Address,
        fee_bps: u32,
        guarantee_days: u32,
        product_id: Vec<u8>,
        allow_early_release: bool,
    ) -> (r: Call<(u64, Effects)>)
        requires
            create_params_error(amount, fee_bps, guarantee_days, product_id@) is None && old(
                st,
            )@.allowed().contains(asset) ==> release_time_of(
                ledger.timestamp as int,
                guarantee_days as int,
            ) <= u64::MAX,
            create_params_error(amount, fee_bps, guarantee_days, product_id@) is None && old(
                st,
            )@.allowed().contains(asset) && old(st)@.counter_value() < u64::MAX ==> old(
                st,
            )@.config is Some && fee_computable(amount as int, fee_bps as int),
        ensures
            r.auth == Some(buyer),
            unchanged_on_error(old(st)@, final(st)@, r.result),
            match r.result {
                Err(e) => Some(e) == create_escrow_error(
                    old(st)@,
                    amount,
                    asset,
                    fee_bps,
                    guarantee_days,
                    product_id@,
                ),
                Ok((escrow_id, eff)) => {
                    let pre = old(st)@;
                    let cfg = pre.config.unwrap();
                    let fee = fee_of(amount as int, fee_bps as int) as i128;
                    &&& create_escrow_error(
                        pre,
                        amount,
                        asset,
                        fee_bps,
                        guarantee_days,
                        product_id@,
                    ) is None
                    &&& escrow_id == pre.counter_value() + 1
                    &&& final(st)@ == pre.with_escrow(
                        escrow_id,
                        created_record(
                            ledger.timestamp,
                            buyer,
                            seller,
                            amount,
                            asset,
                            fee_bps,
                            guarantee_days,
                            product_id@,
                            allow_early_release,
                        ),
                    ).with_counter(escrow_id).with_fee_mode(escrow_id, cfg.collect_on_create)
                    &&& eff.transfers@ == creation_transfers(
                        ledger.contract,
                        cfg.admin,
                        buyer,
                        asset,
                        amount,
                        fee,
                        cfg.collect_on_create,
                    )
                    &&& is_create_event(
                        eff.event,
                        escrow_id,
                        buyer,
                        seller,
                        amount,
                        asset,
                        fee_bps,
                        guarantee_days,
                        product_id@,
                        allow_early_release,
                    )
                    &&& ids_within_counter(pre) ==> !pre.escrows.contains_key(escrow_id)
                },
            },
            storage_wf(old(st)@) ==> escrows_advance(old(st)@, final(st)@),
            r.result matches Ok((escrow_id, _)) ==> final(st)@.escrows[escrow_id].created_at
                == ledger.timestamp && final(st)@.escrows[escrow_id].release_at == ledger.timestamp
                + guarantee_days * 86_400,
            r.result is Ok ==> amount > 0 && fee_bps <= 10_000 && 1 <= guarantee_days <= 36_500
                && product_id@.len() > 0 && old(st)@.allowed().contains(asset),
            storage_wf(old(st)@) ==> storage_wf(final(st)@),
            storage_wf(old(st)@) ==> custody_kept(old(st)@, final(st)@),
    {
        // Input validation
        if let Err(e) = validate_create_escrow_params(amount, fee_bps, guarantee_days, &product_id) {
            return authorized(buyer, Err(e));
        }
        // Validate token is in allowed list
        if let Err(e) = validate_token_allowed(st, &asset) {
            return authorized(buyer, Err(e));
        }
        let now = ledger.timestamp;
        let release_time = calc_release_timestamp(now, guarantee_days);

        // Sequential ID
        let counter = read_counter(st);
        let escrow_id = match counter.checked_add(1) {
            Some(id) => id,
            None => {
                return authorized(buyer, Err(EscrowError::CounterOverflow));
            },
        };

        // Fee at the rate received as parameter (from backend)
        let cfg = read_config(st);
        let fee = calc_fee(amount, fee_bps);

        // 1) The buyer's amount goes into custody
        let mut transfers: Vec<Transfer> = Vec::new();
        transfers.push(Transfer { asset, from: buyer, to: ledger.contract, amount });

        // 2) If configured to collect fee on create: from buyer to admin
        if cfg.collect_on_create && fee > 0 {
            if let Err(e) = validate_fee_not_exceeds_amount(amount, fee) {
                return authorized(buyer, Err(e));
            }
            transfers.push(Transfer { asset, from: buyer, to: cfg.admin, amount: fee });
        }
        proof {
            assert(transfers@ =~= creation_transfers(
                ledger.contract,
                cfg.admin,
                buyer,
                asset,
                amount,
                fee,
                cfg.collect_on_create,
            ));
        }

        // Persist escrow
        let escrow = EscrowData {
            buyer,
            seller,
            amount,
            asset,
            created_at: now,
            release_at: release_time,
            status: EscrowStatus::Active,
            product_id: copy_bytes(&product_id),
            guarantee_days,
            fee_bps,
            allow_early_release,
            buyer_proposal: None,
            seller_proposal: None,
        };
        write_escrow(st, escrow_id, &escrow);
        write_counter(st, escrow_id);
        // The escrow pays out under the fee mode it was created with.
        write_fee_mode(st, escrow_id, cfg.collect_on_create);

        let event = EscrowEvent::CreateEscrow(
            CreateEscrowEvent {
                escrow_id,
                buyer,
                seller,
                amount,
                asset,
                fee_bps,
                guarantee_days,
                product_id,
                allow_early_release,
            },
        );
        authorized(buyer, Ok((escrow_id, Effects { transfers, event: Some(event) })))
    }

    // ============================================================================
    // Escrow Operations
    // ============================================================================

    /// Release payment to seller (after guarantee period or by seller)
    /// Includes nonce for replay attack protection and traceability
    pub fn release_payment(
        st: &mut EscrowStorage,
        ledger: &Ledger,
        escrow_id: u64,
        seller: Address,
        nonce: u64,
    ) -> (r: Call<Effects>)
        requires
            nonce == old(st)@.nonce_of(seller) ==> nonce < u64::MAX,
            release_precheck(old(st)@, ledger.timestamp, escrow_id, seller, nonce) is None ==> old(
                st,
            )@.config is Some && fee_computable(
                old(st)@.escrows[escrow_id].amount as int,
                old(st)@.escrows[escrow_id].fee_bps as int,
            ),
        ensures
            r.auth == (if nonce == old(st)@.nonce_of(seller) {
                Some(seller)
            } else {
                None
            }),
            unchanged_on_error(old(st)@, final(st)@, r.result),
            match r.result {
                Err(e) => Some(e) == release_error(
                    old(st)@,
                    ledger.timestamp,
                    escrow_id,
                    seller,
                    nonce,
                ),
                Ok(eff) => {
                    let pre = old(st)@;
                    let rec = pre.escrows[escrow_id];
                    &&& release_error(pre, ledger.timestamp, escrow_id, seller, nonce) is None
                    &&& final(st)@ == pre.with_escrow(
                        escrow_id,
                        rec.with_status(EscrowStatus::Released),
                    ).with_nonce(seller, (nonce + 1) as u64)
                    &&& eff.transfers@ == escrow_payout_transfers(
                        pre,
                        escrow_id,
                        ledger.contract,
                        rec.seller,
                    )
                    &&& eff.event == Some(
                        EscrowEvent::ReleasePayment(
                            ReleasePaymentEvent {
                                escrow_id,
                                seller: rec.seller,
                                amount: rec.amount,
                                fee: escrow_payout_fee(pre, escrow_id),
                                to_seller: escrow_payout_net(pre, escrow_id),
                            },
                        ),
                    )
                },
            },
            escrows_advance(old(st)@, final(st)@),
            r.result is Ok ==> old(st)@.escrows.contains_key(escrow_id) && old(
                st,
            )@.escrows[escrow_id].status == EscrowStatus::Active && old(st)@.escrows[escrow_id].seller
                == seller && nonce == old(st)@.nonce_of(seller) && (!old(
                st,
            )@.escrows[escrow_id].allow_early_release ==> ledger.timestamp >= old(
                st,
            )@.escrows[escrow_id].release_at),
            storage_wf(old(st)@) ==> storage_wf(final(st)@),
            custody_paid(old(st)@, final(st)@, escrow_id, paid_by(r.result)),
    {
        // 1. Verify nonce for replay protection
        if nonce != read_nonce(st, &seller) {
            return refused(EscrowError::InvalidNonce);
        }
        // 2. From here on the seller must authorize the call.
        // 3. Get and validate escrow
        let mut esc = match read_escrow(st, escrow_id) {
            Ok(esc) => esc,
            Err(e) => {
                return authorized(seller, Err(e));
            },
        };
        if let Err(e) = validate_escrow_active(esc.status) {
            return authorized(seller, Err(e));
        }
        // 4. Verify signer is the seller
        if esc.seller != seller {
            return authorized(seller, Err(EscrowError::Unauthorized));
        }
        // 5. Check guarantee period has expired OR early release is allowed
        if !esc.allow_early_release {
            if let Err(e) = validate_guarantee_period_expired(esc.release_at, ledger.timestamp) {
                return authorized(seller, Err(e));
            }
        }
        // 6. Process fee and payment, under the escrow's own fee mode
        let cfg = read_config(st);
        let collect_on_create = stored_fee_mode(st, escrow_id, &cfg);
        let (transfers, fee, to_seller) = match pay_out(
            &esc,
            collect_on_create,
            cfg.admin,
            ledger,
            esc.seller,
        ) {
            Ok(p) => p,
            Err(e) => {
                return authorized(seller, Err(e));
            },
        };
        esc.status = EscrowStatus::Released;
        write_escrow(st, escrow_id, &esc);
        // The checks have passed: the nonce is consumed.
        if let Err(e) = verify_and_increment_nonce(st, &seller, nonce) {
            return authorized(seller, Err(e));
        }
        let event = EscrowEvent::ReleasePayment(
            ReleasePaymentEvent { escrow_id, seller: esc.seller, amount: esc.amount, fee, to_seller },
        );
        authorized(seller, Ok(Effects { transfers, event: Some(event) }))
    }

    /// Refund (only buyer and within guarantee period)
    /// Includes nonce for replay attack protection and traceability
    pub fn request_refund(
        st: &mut EscrowStorage,
        ledger: &Ledger,
        escrow_id: u64,
        buyer: Address,
        nonce: u64,
    ) -> (r: Call<Effects>)
        requires
            nonce == old(st)@.nonce_of(buyer) ==> nonce < u64::MAX,
        ensures
            r.auth == (if nonce == old(st)@.nonce_of(buyer) {
                Some(buyer)
            } else {
                None
            }),
            unchanged_on_error(old(st)@, final(st)@, r.result),
            match r.result {
                Err(e) => Some(e) == refund_error(old(st)@, ledger.timestamp, escrow_id, buyer, nonce),
                Ok(eff) => {
                    let pre = old(st)@;
                    let rec = pre.escrows[escrow_id];
                    &&& refund_error(pre, ledger.timestamp, escrow_id, buyer, nonce) is None
                    &&& final(st)@ == pre.with_escrow(
                        escrow_id,
                        rec.with_status(EscrowStatus::Refunded),
                    ).with_nonce(buyer, (nonce + 1) as u64)
                    &&& eff.transfers@ == refund_transfers(pre, escrow_id, ledger.contract)
                    &&& eff.event == Some(
                        EscrowEvent::RequestRefund(
                            RequestRefundEvent {
                                escrow_id,
                                buyer: rec.buyer,
                                amount: rec.amount,
                                asset: rec.asset,
                            },
                        ),
                    )
                },
            },
            escrows_advance(old(st)@, final(st)@),
            r.result is Ok ==> old(st)@.escrows.contains_key(escrow_id) && old(
                st,
            )@.escrows[escrow_id].status == EscrowStatus::Active && old(st)@.escrows[escrow_id].buyer
                == buyer && nonce == old(st)@.nonce_of(buyer) && ledger.timestamp < old(
                st,
            )@.escrows[escrow_id].release_at,
            storage_wf(old(st)@) ==> storage_wf(final(st)@),
            custody_paid(old(st)@, final(st)@, escrow_id, paid_by(r.result)),
    {
        // 1. Verify nonce for replay protection
        if nonce != read_nonce(st, &buyer) {
            return refused(EscrowError::InvalidNonce);
        }
        // 2. From here on the buyer must authorize the call.
        // 3. Get and validate escrow
        let mut esc = match read_escrow(st, escrow_id) {
            Ok(esc) => esc,
            Err(e) => {
                return authorized(buyer, Err(e));
            },
        };
        // 4. Verify signer is the buyer
        if esc.buyer != buyer {
            return authorized(buyer, Err(EscrowError::Unauthorized));
        }
        // 5. Check escrow status
        if let Err(e) = validate_escrow_active(esc.status) {
            return authorized(buyer, Err(e));
        }
        // 6. Validate refund window
        if let Err(e) = validate_refund_window(&esc, ledger.timestamp) {
            return authorized(buyer, Err(e));
        }
        // 7. Process refund
        let mut transfers: Vec<Transfer> = Vec::new();
        transfers.push(
            Transfer { asset: esc.asset, from: ledger.contract, to: esc.buyer, amount: esc.amount },
        );
        esc.status = EscrowStatus::Refunded;
        write_escrow(st, escrow_id, &esc);
        if let Err(e) = verify_and_increment_nonce(st, &buyer, nonce) {
            return authorized(buyer, Err(e));
        }
        let event = EscrowEvent::RequestRefund(
            RequestRefundEvent {
                escrow_id,
                buyer: esc.buyer,
                amount: esc.amount,
                asset: esc.asset,
            },
        );
        proof {
            reveal_with_fuel(total_amount, 2);
            assert(transfers@.drop_last() =~= Seq::<Transfer>::empty());
            assert(transfers@ =~= refund_transfers(old(st)@, escrow_id, ledger.contract));
        }
        authorized(buyer, Ok(Effects { transfers, event: Some(event) }))
    }

    // ============================================================================
    // Dispute Resolution
    // ============================================================================

    /// Initiate a dispute on an active escrow
    pub fn dispute_escrow(
        st: &mut EscrowStorage,
        ledger: &Ledger,
        escrow_id: u64,
        caller: Address,
        nonce: u64,
    ) -> (r: Call<Effects>)
        requires
            dispute_escrow_precheck(old(st)@, ledger.timestamp, escrow_id, caller) is None && nonce
                == old(st)@.nonce_of(caller) ==> nonce < u64::MAX,
        ensures
            r.auth == Some(caller),
            unchanged_on_error(old(st)@, final(st)@, r.result),
            match r.result {
                Err(e) => Some(e) == dispute_escrow_error(old(st)@, ledger.timestamp, escrow_id, caller, nonce),
                Ok(eff) => {
                    let pre = old(st)@;
                    &&& dispute_escrow_error(pre, ledger.timestamp, escrow_id, caller, nonce) is None
                    &&& final(st)@ == pre.with_escrow(
                        escrow_id,
                        pre.escrows[escrow_id].with_status(EscrowStatus::Disputed),
                    ).with_nonce(caller, (nonce + 1) as u64)
                    &&& eff.transfers@.len() == 0
                    &&& eff.event == Some(
                        EscrowEvent::DisputeEscrow(DisputeEscrowEvent { escrow_id, initiator: caller }),
                    )
                },
            },
            escrows_advance(old(st)@, final(st)@),
            old(st)@.escrows.contains_key(escrow_id) && old(st)@.escrows[escrow_id].status
                == EscrowStatus::Active && (old(st)@.escrows[escrow_id].buyer == caller || old(
                st,
            )@.escrows[escrow_id].seller == caller) && nonce == old(st)@.nonce_of(caller)
                ==> r.result is Ok,
            r.result is Ok ==> old(st)@.escrows.contains_key(escrow_id) && (old(
                st,
            )@.escrows[escrow_id].buyer == caller || old(st)@.escrows[escrow_id].seller == caller)
                && nonce == old(st)@.nonce_of(caller) && (old(st)@.escrows[escrow_id].status
                == EscrowStatus::Active || old(st)@.escrows[escrow_id].status
                == EscrowStatus::Released && old(st)@.escrows[escrow_id].allow_early_release
                && ledger.timestamp < old(st)@.escrows[escrow_id].release_at),
            storage_wf(old(st)@) ==> storage_wf(final(st)@),
            custody_kept(old(st)@, final(st)@),
    {
        let mut esc = match read_escrow(st, escrow_id) {
            Ok(esc) => esc,
            Err(e) => {
                return authorized(caller, Err(e));
            },
        };
        if esc.buyer != caller && esc.seller != caller {
            return authorized(caller, Err(EscrowError::Unauthorized));
        }
        if let Err(e) = validate_can_dispute(&esc, ledger.timestamp) {
            return authorized(caller, Err(e));
        }
        if let Err(e) = verify_and_increment_nonce(st, &caller, nonce) {
            return authorized(caller, Err(e));
        }
        esc.status = EscrowStatus::Disputed;
        write_escrow(st, escrow_id, &esc);
        let event = EscrowEvent::DisputeEscrow(DisputeEscrowEvent { escrow_id, initiator: caller });
        authorized(caller, Ok(Effects { transfers: Vec::new(), event: Some(event) }))
    }

    /// Propose a resolution for a disputed escrow
    pub fn propose_resolution(
        st: &mut EscrowStorage,
        escrow_id: u64,
        caller: Address,
        nonce: u64,
        favor_buyer: bool,
    ) -> (r: Call<Effects>)
        requires
            nonce == old(st)@.nonce_of(caller) ==> nonce < u64::MAX,
        ensures
            r.auth == (if nonce == old(st)@.nonce_of(caller) {
                Some(caller)
            } else {
                None
            }),
            unchanged_on_error(old(st)@, final(st)@, r.result),
            match r.result {
                Err(e) => Some(e) == propose_error(old(st)@, escrow_id, caller, nonce),
                Ok(eff) => {
                    let pre = old(st)@;
                    &&& propose_error(pre, escrow_id, caller, nonce) is None
                    &&& final(st)@ == pre.with_escrow(
                        escrow_id,
                        proposed_record(pre.escrows[escrow_id], caller, favor_buyer),
                    ).with_nonce(caller, (nonce + 1) as u64)
                    &&& eff.transfers@.len() == 0
                    &&& eff.event == Some(
                        EscrowEvent::ProposeResolution(
                            ProposeResolutionEvent { escrow_id, proposer: caller, favor_buyer },
                        ),
                    )
                },
            },
            escrows_advance(old(st)@, final(st)@),
            r.result is Ok ==> old(st)@.escrows.contains_key(escrow_id) && old(
                st,
            )@.escrows[escrow_id].status == EscrowStatus::Disputed && (old(
                st,
            )@.escrows[escrow_id].buyer == caller || old(st)@.escrows[escrow_id].seller == caller)
                && nonce == old(st)@.nonce_of(caller),
            r.result is Ok ==> (if old(st)@.escrows[escrow_id].buyer == caller {
                old(st)@.escrows[escrow_id].buyer_proposal is None
            } else {
                old(st)@.escrows[escrow_id].seller_proposal is None
            }),
            storage_wf(old(st)@) ==> storage_wf(final(st)@),
            custody_kept(old(st)@, final(st)@),
    {
        if nonce != read_nonce(st, &caller) {
            return refused(EscrowError::InvalidNonce);
        }
        let mut esc = match read_escrow(st, escrow_id) {
            Ok(esc) => esc,
            Err(e) => {
                return authorized(caller, Err(e));
            },
        };
        let is_buyer = esc.buyer == caller;
        let is_seller = esc.seller == caller;
        if !is_buyer && !is_seller {
            return authorized(caller, Err(EscrowError::Unauthorized));
        }
        if let Err(e) = validate_escrow_disputed(esc.status) {
            return authorized(caller, Err(e));
        }
        if is_buyer {
            if let Err(e) = validate_not_yet_proposed(esc.buyer_proposal) {
                return authorized(caller, Err(e));
            }
            esc.buyer_proposal = Some(favor_buyer);
        } else {
            if let Err(e) = validate_not_yet_proposed(esc.seller_proposal) {
                return authorized(caller, Err(e));
            }
            esc.seller_proposal = Some(favor_buyer);
        }
        write_escrow(st, escrow_id, &esc);
        if let Err(e) = verify_and_increment_nonce(st, &caller, nonce) {
            return authorized(caller, Err(e));
        }
        let event = EscrowEvent::ProposeResolution(
            ProposeResolutionEvent { escrow_id, proposer: caller, favor_buyer },
        );
        authorized(caller, Ok(Effects { transfers: Vec::new(), event: Some(event) }))
    }

    /// Resolve a disputed escrow when both parties agree
    pub fn resolve_dispute(
        st: &mut EscrowStorage,
        ledger: &Ledger,
        escrow_id: u64,
        caller: Address,
        nonce: u64,
    ) -> (r: Call<Effects>)
        requires
            nonce == old(st)@.nonce_of(caller) ==> nonce < u64::MAX,
            resolve_precheck(old(st)@, escrow_id, caller, nonce) is None ==> old(st)@.config is Some
                && fee_computable(
                old(st)@.escrows[escrow_id].amount as int,
                old(st)@.escrows[escrow_id].fee_bps as int,
            ),
        ensures
            r.auth == (if nonce == old(st)@.nonce_of(caller) {
                Some(caller)
            } else {
                None
            }),
            unchanged_on_error(old(st)@, final(st)@, r.result),
            match r.result {
                Err(e) => Some(e) == resolve_error(old(st)@, escrow_id, caller, nonce),
                Ok(eff) => {
                    let pre = old(st)@;
                    let rec = pre.escrows[escrow_id];
                    &&& resolve_error(pre, escrow_id, caller, nonce) is None
                    &&& rec.buyer_proposal is Some
                    &&& rec.buyer_proposal == rec.seller_proposal
                    &&& settled(
                        pre.with_nonce(caller, (nonce + 1) as u64),
                        final(st)@,
                        *ledger,
                        escrow_id,
                        rec.buyer_proposal.unwrap(),
                        caller,
                        eff,
                    )
                },
            },
            escrows_advance(old(st)@, final(st)@),
            storage_wf(old(st)@) ==> storage_wf(final(st)@),
            custody_paid(old(st)@, final(st)@, escrow_id, paid_by(r.result)),
    {
        if nonce != read_nonce(st, &caller) {
            return refused(EscrowError::InvalidNonce);
        }
        let mut esc = match read_escrow(st, escrow_id) {
            Ok(esc) => esc,
            Err(e) => {
                return authorized(caller, Err(e));
            },
        };
        if esc.buyer != caller && esc.seller != caller {
            return authorized(caller, Err(EscrowError::Unauthorized));
        }
        if let Err(e) = validate_escrow_disputed(esc.status) {
            return authorized(caller, Err(e));
        }
        let favor_buyer = match validate_dispute_resolution(esc.buyer_proposal, esc.seller_proposal) {
            Ok(f) => f,
            Err(e) => {
                return authorized(caller, Err(e));
            },
        };
        let effects = match Self::execute_dispute_resolution(
            st,
            ledger,
            escrow_id,
            &mut esc,
            favor_buyer,
            caller,
        ) {
            Ok(effects) => effects,
            Err(e) => {
                return authorized(caller, Err(e));
            },
        };
        // Settled: the nonce is consumed.
        if let Err(e) = verify_and_increment_nonce(st, &caller, nonce) {
            return authorized(caller, Err(e));
        }
        authorized(caller, Ok(effects))
    }

    /// Admin resolves dispute when parties can't agree
    pub fn admin_resolve_dispute(
        st: &mut EscrowStorage,
        ledger: &Ledger,
        escrow_id: u64,
        favor_buyer: bool,
        nonce: u64,
    ) -> (r: Call<Effects>)
        requires
            old(st)@.config is Some,
            nonce == old(st)@.nonce_of(old(st)@.config.unwrap().admin) ==> nonce < u64::MAX,
            admin_resolve_precheck(old(st)@, escrow_id, nonce) is None ==> fee_computable(
                old(st)@.escrows[escrow_id].amount as int,
                old(st)@.escrows[escrow_id].fee_bps as int,
            ),
        ensures
            r.auth == (if nonce == old(st)@.nonce_of(old(st)@.config.unwrap().admin) {
                Some(old(st)@.config.unwrap().admin)
            } else {
                None
            }),
            unchanged_on_error(old(st)@, final(st)@, r.result),
            match r.result {
                Err(e) => Some(e) == admin_resolve_error(old(st)@, escrow_id, nonce),
                Ok(eff) => {
                    let pre = old(st)@;
                    let admin = pre.config.unwrap().admin;
                    &&& admin_resolve_error(pre, escrow_id, nonce) is None
                    &&& settled(
                        pre.with_nonce(admin, (nonce + 1) as u64),
                        final(st)@,
                        *ledger,
                        escrow_id,
                        favor_buyer,
                        admin,
                        eff,
                    )
                },
            },
            escrows_advance(old(st)@, final(st)@),
            storage_wf(old(st)@) ==> storage_wf(final(st)@),
            custody_paid(old(st)@, final(st)@, escrow_id, paid_by(r.result)),
    {
        let cfg = read_config(st);
        if nonce != read_nonce(st, &cfg.admin) {
            return refused(EscrowError::InvalidNonce);
        }
        let mut esc = match read_escrow(st, escrow_id) {
            Ok(esc) => esc,
            Err(e) => {
                return authorized(cfg.admin, Err(e));
            },
        };
        if let Err(e) = validate_escrow_disputed(esc.status) {
            return authorized(cfg.admin, Err(e));
        }
        let effects = match Self::execute_dispute_resolution(
            st,
            ledger,
            escrow_id,
            &mut esc,
            favor_buyer,
            cfg.admin,
        ) {
            Ok(effects) => effects,
            Err(e) => {
                return authorized(cfg.admin, Err(e));
            },
        };
        // Settled: the nonce is consumed.
        if let Err(e) = verify_and_increment_nonce(st, &cfg.admin, nonce) {
            return authorized(cfg.admin, Err(e));
        }
        authorized(cfg.admin, Ok(effects))
    }

    /// Helper function to execute dispute resolution (refund or release)
    fn execute_dispute_resolution(
        st: &mut EscrowStorage,
        ledger: &Ledger,
        escrow_id: u64,
        esc: &mut EscrowData,
        favor_buyer: bool,
        resolved_by: Address,
    ) -> (r: Result<Effects, EscrowError>)
        requires
            old(st)@.config is Some,
            old(st)@.escrows.contains_key(escrow_id),
            old(st)@.escrows[escrow_id] == old(esc)@,
            fee_computable(old(esc).amount as int, old(esc).fee_bps as int),
        ensures
            match r {
                Err(e) => {
                    &&& Some(e) == escrow_payout_error(old(st)@, escrow_id)
                    &&& final(st)@ == old(st)@
                },
                Ok(eff) => {
                    &&& escrow_payout_error(old(st)@, escrow_id) is None
                    &&& settled(old(st)@, final(st)@, *ledger, escrow_id, favor_buyer, resolved_by, eff)
                },
            },
    {
        let cfg = read_config(st);
        let collect_on_create = stored_fee_mode(st, escrow_id, &cfg);
        let recipient = if favor_buyer {
            esc.buyer
        } else {
            esc.seller
        };
        let (transfers, fee, _net) = pay_out(esc, collect_on_create, cfg.admin, ledger, recipient)?;
        esc.status = if favor_buyer {
            EscrowStatus::Refunded
        } else {
            EscrowStatus::Released
        };
        let event = EscrowEvent::ResolveDispute(
            ResolveDisputeEvent {
                escrow_id,
                favor_buyer,
                amount: esc.amount,
                fee,
                recipient,
                resolved_by,
            },
        );
        write_escrow(st, escrow_id, esc);
        Ok(Effects { transfers, event: Some(event) })
    }

    pub fn get_escrow(st: &EscrowStorage, escrow_id: u64) -> (r: Result<EscrowData, EscrowError>)
        ensures
            match r {
                Ok(data) => st@.escrows.contains_key(escrow_id) && data@ == st@.escrows[escrow_id],
                Err(e) => !st@.escrows.contains_key(escrow_id) && e == EscrowError::EscrowNotFound,
            },
    {
        read_escrow(st, escrow_id)
    }

    // ============================================================================
    // Nonce Management
    // ============================================================================

    /// Get current nonce for a user
    /// Used to get the current nonce before calling functions that require it
    pub fn get_nonce(st: &EscrowStorage, user: Address) -> (nonce: u64)
        ensures
            nonce == st@.nonce_of(user),
    {
        read_nonce(st, &user)
    }
}

} // verus!
