use chatcheckout::address::Address;
use chatcheckout::escrow::contract::{EscrowContract, Ledger, Transfer};
use chatcheckout::escrow::error::EscrowError;
use chatcheckout::escrow::events::EscrowEvent;
use chatcheckout::escrow::math;
use chatcheckout::escrow::storage::{Config, EscrowData, EscrowStatus, EscrowStorage};
use chatcheckout::escrow::validation;

const DAY: u64 = 86_400;

fn account(n: u8) -> Address {
    Address::account([n; 32])
}

/// A deployed contract: storage, the ledger it sees, its admin and an
/// allowed token.
struct Deployed {
    st: EscrowStorage,
    ledger: Ledger,
    admin: Address,
    token: Address,
}

impl Deployed {
    fn advance_days(&mut self, days: u64) {
        self.ledger.timestamp += days * DAY;
    }
}

/// Deploys the contract with fees collected on release, and allows one token.
fn setup_contract_with_token() -> Deployed {
    let admin = account(1);
    let token = Address::contract([2; 32]);
    let mut st = EscrowStorage::new();
    EscrowContract::__constructor(&mut st, admin, false).result.unwrap();
    // The token must be on the allow list before escrows can hold it.
    EscrowContract::add_allowed_token(&mut st, token).result.unwrap();
    Deployed { st, ledger: Ledger { timestamp: 0, contract: Address::contract([3; 32]) }, admin, token }
}

fn create_test_escrow(
    d: &mut Deployed,
    buyer: Address,
    seller: Address,
    amount: i128,
    fee_bps: u32,
    guarantee_days: u32,
) -> u64 {
    let call = EscrowContract::create_escrow(
        &mut d.st,
        &d.ledger,
        buyer,
        seller,
        amount,
        d.token,
        fee_bps,
        guarantee_days,
        b"product-123".to_vec(),
        false,
    );
    call.result.unwrap().0
}

fn status_of(d: &Deployed, escrow_id: u64) -> EscrowStatus {
    EscrowContract::get_escrow(&d.st, escrow_id).unwrap().status
}

#[test]
fn test_fee_calculation_correctness() {
    let fee = math::calc_fee(1000, 400); // 1000 * 400 / 10000 = 40
    assert_eq!(fee, 40);

    let fee2 = math::calc_fee(5000, 200); // 5000 * 200 / 10000 = 100
    assert_eq!(fee2, 100);

    let fee3 = math::calc_fee(100, 500); // 100 * 500 / 10000 = 5
    assert_eq!(fee3, 5);

    let fee4 = math::calc_fee(0, 400); // edge case: 0 amount
    assert_eq!(fee4, 0);
}

#[test]
fn test_config_struct_refactored() {
    let admin = account(9);
    let cfg = Config { admin, collect_on_create: true };
    assert_eq!(cfg.admin, admin);
    assert_eq!(cfg.collect_on_create, true);
}

#[test]
fn test_escrow_data_struct_refactored() {
    let escrow = EscrowData {
        buyer: account(4),
        seller: account(5),
        amount: 1000,
        asset: Address::contract([6; 32]),
        created_at: 0,
        release_at: 100,
        status: EscrowStatus::Active,
        product_id: b"test".to_vec(),
        guarantee_days: 7,
        fee_bps: 400,
        allow_early_release: false,
        buyer_proposal: None,
        seller_proposal: None,
    };
    assert_eq!(escrow.fee_bps, 400);
    assert_eq!(escrow.guarantee_days, 7);
    assert_eq!(escrow.allow_early_release, false);
    assert_eq!(escrow.buyer_proposal, None);
    assert_eq!(escrow.seller_proposal, None);
}

#[test]
fn test_escrow_status_enum() {
    let status1 = EscrowStatus::Active;
    let status2 = EscrowStatus::Released;
    let status3 = EscrowStatus::Refunded;
    let status4 = EscrowStatus::Disputed;

    assert_eq!(status1, EscrowStatus::Active);
    assert_eq!(status2, EscrowStatus::Released);
    assert_eq!(status3, EscrowStatus::Refunded);
    assert_eq!(status4, EscrowStatus::Disputed);
}

#[test]
fn test_get_nonce_initial_zero() {
    let d = setup_contract_with_token();
    let user = account(7);
    let nonce = EscrowContract::get_nonce(&d.st, user);
    assert_eq!(nonce, 0);
}

#[test]
fn test_validate_guarantee_days_zero_is_rejected() {
    let result = validation::validate_guarantee_days(0);
    assert!(matches!(result, Err(EscrowError::InvalidGuaranteeDays)));
}

#[test]
fn test_validate_guarantee_days_one_is_allowed() {
    let result = validation::validate_guarantee_days(1);
    assert!(result.is_ok());
}

#[test]
fn test_validate_guarantee_days_too_large_rejected() {
    let result = validation::validate_guarantee_days(36_501);
    assert!(result.is_err());
}

#[test]
fn test_release_payment_with_early_release_allowed() {
    let mut d = setup_contract_with_token();
    let buyer = account(4);
    let seller = account(5);
    let amount = 1000i128;
    let fee_bps = 400u32;
    let guarantee_days = 7u32;

    let created = EscrowContract::create_escrow(
        &mut d.st,
        &d.ledger,
        buyer,
        seller,
        amount,
        d.token,
        fee_bps,
        guarantee_days,
        b"product-123".to_vec(),
        true,
    );
    created.result.unwrap();
    let escrow_id = 1u64;

    EscrowContract::release_payment(&mut d.st, &d.ledger, escrow_id, seller, 0).result.unwrap();

    assert_eq!(status_of(&d, escrow_id), EscrowStatus::Released);
}

#[test]
#[should_panic(expected = "GuaranteePeriodNotExpired")]
fn test_release_payment_blocked_without_early_release() {
    let mut d = setup_contract_with_token();
    let buyer = account(4);
    let seller = account(5);
    let escrow_id = create_test_escrow(&mut d, buyer, seller, 1000, 400, 7);

    EscrowContract::release_payment(&mut d.st, &d.ledger, escrow_id, seller, 0).result.unwrap();
}

#[test]
fn test_create_escrow_with_early_release_true() {
    let mut d = setup_contract_with_token();
    let buyer = account(4);
    let seller = account(5);
    EscrowContract::create_escrow(
        &mut d.st,
        &d.ledger,
        buyer,
        seller,
        1000,
        d.token,
        400,
        7,
        b"product-123".to_vec(),
        true,
    )
    .result
    .unwrap();
    let escrow_id = 1u64;

    let escrow = EscrowContract::get_escrow(&d.st, escrow_id).unwrap();
    assert_eq!(escrow.allow_early_release, true);
}

#[test]
fn test_create_escrow_with_early_release_false() {
    let mut d = setup_contract_with_token();
    let escrow_id = create_test_escrow(&mut d, account(4), account(5), 1000, 400, 7);

    let escrow = EscrowContract::get_escrow(&d.st, escrow_id).unwrap();
    assert_eq!(escrow.allow_early_release, false);
}

#[test]
fn test_dispute_escrow_by_buyer() {
    let mut d = setup_contract_with_token();
    let buyer = account(4);
    let seller = account(5);
    let escrow_id = create_test_escrow(&mut d, buyer, seller, 1000, 400, 7);

    EscrowContract::dispute_escrow(&mut d.st, &d.ledger, escrow_id, buyer, 0).result.unwrap();

    assert_eq!(status_of(&d, escrow_id), EscrowStatus::Disputed);
}

#[test]
fn test_dispute_escrow_by_seller() {
    let mut d = setup_contract_with_token();
    let buyer = account(4);
    let seller = account(5);
    let escrow_id = create_test_escrow(&mut d, buyer, seller, 1000, 400, 7);

    EscrowContract::dispute_escrow(&mut d.st, &d.ledger, escrow_id, seller, 0).result.unwrap();

    assert_eq!(status_of(&d, escrow_id), EscrowStatus::Disputed);
}

#[test]
#[should_panic(expected = "AlreadyDisputed")]
fn test_dispute_escrow_already_disputed() {
    let mut d = setup_contract_with_token();
    let buyer = account(4);
    let seller = account(5);
    let escrow_id = create_test_escrow(&mut d, buyer, seller, 1000, 400, 7);

    EscrowContract::dispute_escrow(&mut d.st, &d.ledger, escrow_id, buyer, 0).result.unwrap();
    EscrowContract::dispute_escrow(&mut d.st, &d.ledger, escrow_id, seller, 1).result.unwrap();
}

#[test]
fn test_propose_resolution_buyer_favors_themselves() {
    let mut d = setup_contract_with_token();
    let buyer = account(4);
    let seller = account(5);
    let escrow_id = create_test_escrow(&mut d, buyer, seller, 1000, 400, 7);

    EscrowContract::dispute_escrow(&mut d.st, &d.ledger, escrow_id, buyer, 0).result.unwrap();
    EscrowContract::propose_resolution(&mut d.st, escrow_id, buyer, 1, true).result.unwrap();

    let escrow = EscrowContract::get_escrow(&d.st, escrow_id).unwrap();
    assert_eq!(escrow.buyer_proposal, Some(true));
}

#[test]
fn test_propose_resolution_both_agree_on_refund() {
    let mut d = setup_contract_with_token();
    let buyer = account(4);
    let seller = account(5);
    let escrow_id = create_test_escrow(&mut d, buyer, seller, 1000, 400, 7);

    EscrowContract::dispute_escrow(&mut d.st, &d.ledger, escrow_id, buyer, 0).result.unwrap();
    EscrowContract::propose_resolution(&mut d.st, escrow_id, buyer, 1, true).result.unwrap();
    EscrowContract::propose_resolution(&mut d.st, escrow_id, seller, 0, true).result.unwrap();
    EscrowContract::resolve_dispute(&mut d.st, &d.ledger, escrow_id, buyer, 2).result.unwrap();

    assert_eq!(status_of(&d, escrow_id), EscrowStatus::Refunded);
}

#[test]
fn test_propose_resolution_both_agree_on_release() {
    let mut d = setup_contract_with_token();
    let buyer = account(4);
    let seller = account(5);
    let escrow_id = create_test_escrow(&mut d, buyer, seller, 1000, 400, 7);

    EscrowContract::dispute_escrow(&mut d.st, &d.ledger, escrow_id, buyer, 0).result.unwrap();
    EscrowContract::propose_resolution(&mut d.st, escrow_id, buyer, 1, false).result.unwrap();
    EscrowContract::propose_resolution(&mut d.st, escrow_id, seller, 0, false).result.unwrap();
    EscrowContract::resolve_dispute(&mut d.st, &d.ledger, escrow_id, seller, 1).result.unwrap();

    assert_eq!(status_of(&d, escrow_id), EscrowStatus::Released);
}

#[test]
#[should_panic(expected = "BothPartiesMustAgree")]
fn test_resolve_dispute_parties_disagree() {
    let mut d = setup_contract_with_token();
    let buyer = account(4);
    let seller = account(5);
    let escrow_id = create_test_escrow(&mut d, buyer, seller, 1000, 400, 7);

    EscrowContract::dispute_escrow(&mut d.st, &d.ledger, escrow_id, buyer, 0).result.unwrap();
    EscrowContract::propose_resolution(&mut d.st, escrow_id, buyer, 1, true).result.unwrap();
    EscrowContract::propose_resolution(&mut d.st, escrow_id, seller, 0, false).result.unwrap();
    EscrowContract::resolve_dispute(&mut d.st, &d.ledger, escrow_id, buyer, 2).result.unwrap();
}

#[test]
fn test_admin_resolve_dispute_when_parties_disagree() {
    let mut d = setup_contract_with_token();
    let buyer = account(4);
    let seller = account(5);
    let escrow_id = create_test_escrow(&mut d, buyer, seller, 1000, 400, 7);

    EscrowContract::dispute_escrow(&mut d.st, &d.ledger, escrow_id, buyer, 0).result.unwrap();
    EscrowContract::propose_resolution(&mut d.st, escrow_id, buyer, 1, true).result.unwrap();
    EscrowContract::propose_resolution(&mut d.st, escrow_id, seller, 0, false).result.unwrap();
    EscrowContract::admin_resolve_dispute(&mut d.st, &d.ledger, escrow_id, false, 0).result.unwrap();

    assert_eq!(status_of(&d, escrow_id), EscrowStatus::Released);
}

#[test]
#[should_panic(expected = "NoDisputeToResolve")]
fn test_resolve_dispute_before_both_proposed() {
    let mut d = setup_contract_with_token();
    let buyer = account(4);
    let seller = account(5);
    let escrow_id = create_test_escrow(&mut d, buyer, seller, 1000, 400, 7);

    EscrowContract::dispute_escrow(&mut d.st, &d.ledger, escrow_id, buyer, 0).result.unwrap();
    EscrowContract::propose_resolution(&mut d.st, escrow_id, buyer, 1, true).result.unwrap();
    EscrowContract::resolve_dispute(&mut d.st, &d.ledger, escrow_id, buyer, 2).result.unwrap();
}

#[test]
#[should_panic(expected = "Unauthorized")]
fn test_dispute_by_unauthorized_party() {
    let mut d = setup_contract_with_token();
    let buyer = account(4);
    let seller = account(5);
    let third_party = account(8);
    let escrow_id = create_test_escrow(&mut d, buyer, seller, 1000, 400, 7);

    EscrowContract::dispute_escrow(&mut d.st, &d.ledger, escrow_id, third_party, 0).result.unwrap();
}

#[test]
fn test_escrow_status_enum_includes_disputed() {
    let status = EscrowStatus::Disputed;
    assert_eq!(status, EscrowStatus::Disputed);
}

// ============================================================================
// Further scenarios
// ============================================================================

#[test]
fn escrow_constructor_runs_once() {
    let mut d = setup_contract_with_token();
    let call = EscrowContract::__constructor(&mut d.st, account(9), true);
    assert!(call.auth.is_none());
    assert_eq!(call.result, Err(EscrowError::AlreadyInitialized));
    assert_eq!(EscrowContract::get_config(&d.st).admin, d.admin);
    assert_eq!(EscrowContract::get_config(&d.st).collect_on_create, false);
}

#[test]
fn create_moves_amount_into_custody_and_numbers_escrows() {
    let mut d = setup_contract_with_token();
    let buyer = account(4);
    let seller = account(5);
    let call = EscrowContract::create_escrow(
        &mut d.st,
        &d.ledger,
        buyer,
        seller,
        1000,
        d.token,
        400,
        7,
        b"product-123".to_vec(),
        false,
    );
    assert_eq!(call.auth, Some(buyer));
    let (id, effects) = call.result.unwrap();
    assert_eq!(id, 1);
    assert_eq!(
        effects.transfers,
        vec![Transfer { asset: d.token, from: buyer, to: d.ledger.contract, amount: 1000 }]
    );
    match effects.event {
        Some(EscrowEvent::CreateEscrow(ev)) => {
            assert_eq!(ev.escrow_id, 1);
            assert_eq!(ev.product_id, b"product-123".to_vec());
        }
        other => panic!("unexpected event {:?}", other),
    }
    let escrow = EscrowContract::get_escrow(&d.st, 1).unwrap();
    assert_eq!(escrow.release_at, 7 * DAY);
    assert_eq!(escrow.status, EscrowStatus::Active);
    assert_eq!(create_test_escrow(&mut d, buyer, seller, 50, 0, 1), 2);
}

#[test]
fn create_collects_fee_on_create_when_configured() {
    let mut d = setup_contract_with_token();
    let admin = d.admin;
    EscrowContract::update_config(&mut d.st, admin, true).result.unwrap();
    let buyer = account(4);
    let (_, effects) = EscrowContract::create_escrow(
        &mut d.st,
        &d.ledger,
        buyer,
        account(5),
        1000,
        d.token,
        400,
        7,
        b"p".to_vec(),
        false,
    )
    .result
    .unwrap();
    assert_eq!(
        effects.transfers,
        vec![
            Transfer { asset: d.token, from: buyer, to: d.ledger.contract, amount: 1000 },
            Transfer { asset: d.token, from: buyer, to: admin, amount: 40 },
        ]
    );
}

#[test]
fn create_rejects_each_invalid_parameter() {
    let mut d = setup_contract_with_token();
    let (b, s, t, l) = (account(4), account(5), d.token, d.ledger);
    let mut attempt = |amount: i128, asset: Address, bps: u32, days: u32, product: &[u8]| {
        EscrowContract::create_escrow(&mut d.st, &l, b, s, amount, asset, bps, days, product.to_vec(), false)
            .result
            .map(|(id, _)| id)
    };
    assert_eq!(attempt(0, t, 400, 7, b"p"), Err(EscrowError::InvalidAmount));
    assert_eq!(attempt(10, t, 10_001, 7, b"p"), Err(EscrowError::InvalidFeeBps));
    assert_eq!(attempt(10, t, 400, 0, b"p"), Err(EscrowError::InvalidGuaranteeDays));
    assert_eq!(attempt(10, t, 400, 36_501, b"p"), Err(EscrowError::InvalidGuaranteeDays));
    assert_eq!(attempt(10, t, 400, 7, b""), Err(EscrowError::InvalidProductId));
    assert_eq!(attempt(10, Address::contract([42; 32]), 400, 7, b"p"), Err(EscrowError::TokenNotAllowed));
    assert_eq!(attempt(10, t, 400, 7, b"p"), Ok(1));
}

#[test]
fn failed_call_leaves_storage_as_it_was() {
    let mut d = setup_contract_with_token();
    let buyer = account(4);
    let seller = account(5);
    let escrow_id = create_test_escrow(&mut d, buyer, seller, 1000, 400, 7);
    let call = EscrowContract::request_refund(&mut d.st, &d.ledger, escrow_id, seller, 0);
    assert_eq!(call.auth, Some(seller));
    assert_eq!(call.result.map(|_| ()), Err(EscrowError::Unauthorized));
    // The seller's nonce was not consumed.
    assert_eq!(EscrowContract::get_nonce(&d.st, seller), 0);
    assert_eq!(status_of(&d, escrow_id), EscrowStatus::Active);
}

#[test]
fn release_after_guarantee_period_pays_fee_and_seller() {
    let mut d = setup_contract_with_token();
    let buyer = account(4);
    let seller = account(5);
    let escrow_id = create_test_escrow(&mut d, buyer, seller, 1000, 400, 7);
    d.advance_days(7);
    let call = EscrowContract::release_payment(&mut d.st, &d.ledger, escrow_id, seller, 0);
    assert_eq!(call.auth, Some(seller));
    let effects = call.result.unwrap();
    assert_eq!(
        effects.transfers,
        vec![
            Transfer { asset: d.token, from: d.ledger.contract, to: d.admin, amount: 40 },
            Transfer { asset: d.token, from: d.ledger.contract, to: seller, amount: 960 },
        ]
    );
    match effects.event {
        Some(EscrowEvent::ReleasePayment(ev)) => {
            assert_eq!((ev.amount, ev.fee, ev.to_seller), (1000, 40, 960));
        }
        other => panic!("unexpected event {:?}", other),
    }
    assert_eq!(EscrowContract::get_nonce(&d.st, seller), 1);
}

#[test]
fn release_by_someone_else_is_unauthorized() {
    let mut d = setup_contract_with_token();
    let buyer = account(4);
    let seller = account(5);
    let escrow_id = create_test_escrow(&mut d, buyer, seller, 1000, 400, 7);
    d.advance_days(8);
    let call = EscrowContract::release_payment(&mut d.st, &d.ledger, escrow_id, buyer, 0);
    assert_eq!(call.result.map(|_| ()), Err(EscrowError::Unauthorized));
    let call = EscrowContract::release_payment(&mut d.st, &d.ledger, 99, seller, 0);
    assert_eq!(call.result.map(|_| ()), Err(EscrowError::EscrowNotFound));
}

#[test]
fn replayed_nonce_is_rejected() {
    let mut d = setup_contract_with_token();
    let buyer = account(4);
    let seller = account(5);
    let first = create_test_escrow(&mut d, buyer, seller, 1000, 400, 7);
    let second = create_test_escrow(&mut d, buyer, seller, 1000, 400, 7);
    EscrowContract::request_refund(&mut d.st, &d.ledger, first, buyer, 0).result.unwrap();
    let replay = EscrowContract::request_refund(&mut d.st, &d.ledger, second, buyer, 0);
    assert!(replay.auth.is_none());
    assert_eq!(replay.result.map(|_| ()), Err(EscrowError::InvalidNonce));
    EscrowContract::request_refund(&mut d.st, &d.ledger, second, buyer, 1).result.unwrap();
}

#[test]
fn refund_within_period_returns_whole_amount() {
    let mut d = setup_contract_with_token();
    let buyer = account(4);
    let seller = account(5);
    let escrow_id = create_test_escrow(&mut d, buyer, seller, 1000, 400, 7);
    d.advance_days(6);
    let effects = EscrowContract::request_refund(&mut d.st, &d.ledger, escrow_id, buyer, 0).result.unwrap();
    assert_eq!(
        effects.transfers,
        vec![Transfer { asset: d.token, from: d.ledger.contract, to: buyer, amount: 1000 }]
    );
    assert_eq!(status_of(&d, escrow_id), EscrowStatus::Refunded);
    // A refunded escrow is settled for good.
    let again = EscrowContract::dispute_escrow(&mut d.st, &d.ledger, escrow_id, buyer, 1);
    assert_eq!(again.result.map(|_| ()), Err(EscrowError::EscrowNotActive));
}

#[test]
fn refund_after_period_is_refused() {
    let mut d = setup_contract_with_token();
    let buyer = account(4);
    let escrow_id = create_test_escrow(&mut d, buyer, account(5), 1000, 400, 7);
    d.advance_days(7);
    let call = EscrowContract::request_refund(&mut d.st, &d.ledger, escrow_id, buyer, 0);
    assert_eq!(call.result.map(|_| ()), Err(EscrowError::GuaranteePeriodExpired));
}

#[test]
fn early_released_escrow_can_be_disputed_within_guarantee_period() {
    let mut d = setup_contract_with_token();
    let buyer = account(4);
    let seller = account(5);
    EscrowContract::create_escrow(
        &mut d.st,
        &d.ledger,
        buyer,
        seller,
        1000,
        d.token,
        400,
        7,
        b"p".to_vec(),
        true,
    )
    .result
    .unwrap();
    EscrowContract::release_payment(&mut d.st, &d.ledger, 1, seller, 0).result.unwrap();
    EscrowContract::dispute_escrow(&mut d.st, &d.ledger, 1, buyer, 0).result.unwrap();
    assert_eq!(status_of(&d, 1), EscrowStatus::Disputed);
}

#[test]
fn released_escrow_cannot_be_disputed_after_guarantee_period() {
    let mut d = setup_contract_with_token();
    let buyer = account(4);
    let seller = account(5);
    let escrow_id = create_test_escrow(&mut d, buyer, seller, 1000, 400, 7);
    d.advance_days(7);
    EscrowContract::release_payment(&mut d.st, &d.ledger, escrow_id, seller, 0).result.unwrap();
    let call = EscrowContract::dispute_escrow(&mut d.st, &d.ledger, escrow_id, buyer, 0);
    assert_eq!(call.result.map(|_| ()), Err(EscrowError::EscrowNotActive));
}

#[test]
fn propose_twice_is_refused_and_outsiders_cannot_propose() {
    let mut d = setup_contract_with_token();
    let buyer = account(4);
    let seller = account(5);
    let escrow_id = create_test_escrow(&mut d, buyer, seller, 1000, 400, 7);
    let early = EscrowContract::propose_resolution(&mut d.st, escrow_id, buyer, 0, true);
    assert_eq!(early.result.map(|_| ()), Err(EscrowError::NotDisputed));
    EscrowContract::dispute_escrow(&mut d.st, &d.ledger, escrow_id, buyer, 0).result.unwrap();
    EscrowContract::propose_resolution(&mut d.st, escrow_id, buyer, 1, true).result.unwrap();
    let twice = EscrowContract::propose_resolution(&mut d.st, escrow_id, buyer, 2, false);
    assert_eq!(twice.result.map(|_| ()), Err(EscrowError::AlreadyProposed));
    let outsider = EscrowContract::propose_resolution(&mut d.st, escrow_id, account(8), 0, false);
    assert_eq!(outsider.result.map(|_| ()), Err(EscrowError::Unauthorized));
}

#[test]
fn resolution_in_favor_of_buyer_refunds_net_of_fee() {
    let mut d = setup_contract_with_token();
    let buyer = account(4);
    let seller = account(5);
    let escrow_id = create_test_escrow(&mut d, buyer, seller, 1000, 400, 7);
    EscrowContract::dispute_escrow(&mut d.st, &d.ledger, escrow_id, seller, 0).result.unwrap();
    EscrowContract::propose_resolution(&mut d.st, escrow_id, buyer, 0, true).result.unwrap();
    EscrowContract::propose_resolution(&mut d.st, escrow_id, seller, 1, true).result.unwrap();
    let effects = EscrowContract::resolve_dispute(&mut d.st, &d.ledger, escrow_id, seller, 2).result.unwrap();
    assert_eq!(
        effects.transfers,
        vec![
            Transfer { asset: d.token, from: d.ledger.contract, to: d.admin, amount: 40 },
            Transfer { asset: d.token, from: d.ledger.contract, to: buyer, amount: 960 },
        ]
    );
    match effects.event {
        Some(EscrowEvent::ResolveDispute(ev)) => {
            assert!(ev.favor_buyer);
            assert_eq!(ev.recipient, buyer);
            assert_eq!(ev.resolved_by, seller);
        }
        other => panic!("unexpected event {:?}", other),
    }
}

#[test]
fn admin_resolution_needs_admin_nonce_and_dispute() {
    let mut d = setup_contract_with_token();
    let buyer = account(4);
    let escrow_id = create_test_escrow(&mut d, buyer, account(5), 1000, 400, 7);
    let not_disputed = EscrowContract::admin_resolve_dispute(&mut d.st, &d.ledger, escrow_id, true, 0);
    assert_eq!(not_disputed.auth, Some(d.admin));
    assert_eq!(not_disputed.result.map(|_| ()), Err(EscrowError::NotDisputed));
    EscrowContract::dispute_escrow(&mut d.st, &d.ledger, escrow_id, buyer, 0).result.unwrap();
    let wrong_nonce = EscrowContract::admin_resolve_dispute(&mut d.st, &d.ledger, escrow_id, true, 5);
    assert!(wrong_nonce.auth.is_none());
    assert_eq!(wrong_nonce.result.map(|_| ()), Err(EscrowError::InvalidNonce));
    EscrowContract::admin_resolve_dispute(&mut d.st, &d.ledger, escrow_id, true, 0).result.unwrap();
    assert_eq!(status_of(&d, escrow_id), EscrowStatus::Refunded);
    assert_eq!(EscrowContract::get_nonce(&d.st, d.admin), 1);
}

#[test]
fn full_fee_leaves_nothing_for_the_seller() {
    let mut d = setup_contract_with_token();
    let seller = account(5);
    let escrow_id = create_test_escrow(&mut d, account(4), seller, 100, 10_000, 1);
    d.advance_days(1);
    let effects = EscrowContract::release_payment(&mut d.st, &d.ledger, escrow_id, seller, 0).result.unwrap();
    assert_eq!(
        effects.transfers,
        vec![
            Transfer { asset: d.token, from: d.ledger.contract, to: d.admin, amount: 100 },
            Transfer { asset: d.token, from: d.ledger.contract, to: seller, amount: 0 },
        ]
    );
}

#[test]
fn config_update_keeps_escrow_fee_rates() {
    let mut d = setup_contract_with_token();
    let escrow_id = create_test_escrow(&mut d, account(4), account(5), 1000, 400, 7);
    let admin = d.admin;
    let call = EscrowContract::update_config(&mut d.st, account(9), false);
    assert_eq!(call.auth, Some(admin));
    assert_eq!(EscrowContract::get_config(&d.st).admin, account(9));
    assert_eq!(EscrowContract::get_escrow(&d.st, escrow_id).unwrap().fee_bps, 400);
}

#[test]
fn allow_list_add_is_idempotent_and_remove_undoes_it() {
    let mut d = setup_contract_with_token();
    let other = Address::contract([7; 32]);
    assert!(!EscrowContract::is_token_allowed(&d.st, other));
    EscrowContract::add_allowed_token(&mut d.st, other).result.unwrap();
    EscrowContract::add_allowed_token(&mut d.st, other).result.unwrap();
    assert_eq!(EscrowContract::get_allowed_tokens(&d.st), vec![d.token, other]);
    EscrowContract::remove_allowed_token(&mut d.st, other).result.unwrap();
    assert_eq!(EscrowContract::get_allowed_tokens(&d.st), vec![d.token]);
    assert!(!EscrowContract::is_token_allowed(&d.st, other));
    assert!(EscrowContract::is_token_allowed(&d.st, d.token));
}

#[test]
fn admin_withdraw_moves_funds_to_admin() {
    let d = setup_contract_with_token();
    let call = EscrowContract::admin_withdraw(&d.st, &d.ledger, d.token, 500);
    assert_eq!(call.auth, Some(d.admin));
    assert_eq!(
        call.result.unwrap().transfers,
        vec![Transfer { asset: d.token, from: d.ledger.contract, to: d.admin, amount: 500 }]
    );
    let refused = EscrowContract::admin_withdraw(&d.st, &d.ledger, d.token, 0);
    assert_eq!(refused.result.map(|_| ()), Err(EscrowError::InvalidAmount));
}

#[test]
fn fee_and_time_formulas() {
    assert_eq!(math::calc_fee(100, 100), 1);
    assert_eq!(math::calc_fee(10_000, 500), 500);
    assert_eq!(math::calc_fee(100, 10_000), 100);
    assert_eq!(math::calc_fee(-1000, 400), 0);
    assert_eq!(math::calc_fee(99, 1), 0);
    assert_eq!(math::calc_release_timestamp(1_000, 7), 1_000 + 7 * DAY);
}

#[test]
fn validators_report_their_errors() {
    let (a, b) = (account(1), account(2));
    assert_eq!(validation::validate_buyer_not_seller(&a, &a), Err(EscrowError::InvalidSeller));
    assert_eq!(validation::validate_buyer_not_seller(&a, &b), Ok(()));
    assert_eq!(validation::validate_fee_bps_within_limit(501, 500), Err(EscrowError::InvalidFeeBps));
    assert_eq!(validation::validate_fee_bps_within_limit(500, 500), Ok(()));
    assert_eq!(validation::validate_fee_bps_range(10_000), Ok(()));
    assert_eq!(validation::validate_amount_positive(-5), Err(EscrowError::InvalidAmount));
    assert_eq!(validation::validate_fee_not_exceeds_amount(100, 101), Err(EscrowError::FeeExceedsAmount));
    assert_eq!(validation::validate_fee_not_exceeds_amount(100, 100), Ok(()));
    assert_eq!(validation::validate_escrow_active(EscrowStatus::Released), Err(EscrowError::EscrowNotActive));
    assert_eq!(validation::validate_escrow_disputed(EscrowStatus::Active), Err(EscrowError::NotDisputed));
    assert_eq!(validation::validate_not_yet_proposed(Some(true)), Err(EscrowError::AlreadyProposed));
    assert_eq!(validation::validate_dispute_resolution(Some(false), Some(false)), Ok(false));
    assert_eq!(validation::validate_dispute_resolution(Some(true), None), Err(EscrowError::NoDisputeToResolve));
    assert_eq!(validation::validate_guarantee_period_expired(10, 9), Err(EscrowError::GuaranteePeriodNotExpired));
    assert_eq!(validation::validate_product_id_not_empty(&Vec::new()), Err(EscrowError::InvalidProductId));
    let escrow = EscrowData {
        buyer: a,
        seller: b,
        amount: 1,
        asset: account(3),
        created_at: 0,
        release_at: 100,
        status: EscrowStatus::Active,
        product_id: b"x".to_vec(),
        guarantee_days: 1,
        fee_bps: 0,
        allow_early_release: false,
        buyer_proposal: None,
        seller_proposal: None,
    };
    assert_eq!(validation::validate_seller_can_dispute(&escrow, 99), Err(EscrowError::DisputeNotAllowed));
    assert_eq!(validation::validate_seller_can_dispute(&escrow, 100), Ok(()));
    assert_eq!(validation::validate_refund_window(&escrow, 100), Err(EscrowError::GuaranteePeriodExpired));
    assert_eq!(validation::validate_can_dispute(&escrow, 0), Ok(()));
    assert_eq!(
        validation::validate_create_escrow_params(1, 0, 1, &b"x".to_vec()),
        Ok(())
    );
}

#[test]
fn fee_collected_on_create_is_not_charged_again_after_config_change() {
    let mut d = setup_contract_with_token();
    let admin = d.admin;
    EscrowContract::update_config(&mut d.st, admin, true).result.unwrap();
    let buyer = account(4);
    let seller = account(5);
    let (escrow_id, created) = EscrowContract::create_escrow(
        &mut d.st,
        &d.ledger,
        buyer,
        seller,
        1000,
        d.token,
        400,
        7,
        b"p".to_vec(),
        false,
    )
    .result
    .unwrap();
    assert_eq!(created.transfers[1], Transfer { asset: d.token, from: buyer, to: admin, amount: 40 });
    // The admin switches to collecting on release; the escrow keeps its own mode.
    EscrowContract::update_config(&mut d.st, admin, false).result.unwrap();
    d.advance_days(7);
    let effects = EscrowContract::release_payment(&mut d.st, &d.ledger, escrow_id, seller, 0).result.unwrap();
    assert_eq!(
        effects.transfers,
        vec![Transfer { asset: d.token, from: d.ledger.contract, to: seller, amount: 1000 }]
    );
    match effects.event {
        Some(EscrowEvent::ReleasePayment(ev)) => {
            assert_eq!((ev.amount, ev.fee, ev.to_seller), (1000, 40, 1000));
        }
        other => panic!("unexpected event {:?}", other),
    }
}

#[test]
fn fee_left_for_release_is_charged_after_switch_to_collect_on_create() {
    let mut d = setup_contract_with_token();
    let admin = d.admin;
    let buyer = account(4);
    let seller = account(5);
    let escrow_id = create_test_escrow(&mut d, buyer, seller, 1000, 400, 7);
    EscrowContract::update_config(&mut d.st, admin, true).result.unwrap();
    EscrowContract::dispute_escrow(&mut d.st, &d.ledger, escrow_id, buyer, 0).result.unwrap();
    let effects = EscrowContract::admin_resolve_dispute(&mut d.st, &d.ledger, escrow_id, false, 0)
        .result
        .unwrap();
    assert_eq!(
        effects.transfers,
        vec![
            Transfer { asset: d.token, from: d.ledger.contract, to: admin, amount: 40 },
            Transfer { asset: d.token, from: d.ledger.contract, to: seller, amount: 960 },
        ]
    );
}

#[test]
fn resolving_an_early_released_escrow_pays_the_favored_party() {
    let mut d = setup_contract_with_token();
    let buyer = account(4);
    let seller = account(5);
    let (escrow_id, _) = EscrowContract::create_escrow(
        &mut d.st,
        &d.ledger,
        buyer,
        seller,
        1000,
        d.token,
        400,
        7,
        b"p".to_vec(),
        true,
    )
    .result
    .unwrap();
    let released = EscrowContract::release_payment(&mut d.st, &d.ledger, escrow_id, seller, 0).result.unwrap();
    let paid: i128 = released.transfers.iter().map(|t| t.amount).sum();
    assert_eq!(paid, 1000);
    EscrowContract::dispute_escrow(&mut d.st, &d.ledger, escrow_id, buyer, 0).result.unwrap();
    EscrowContract::propose_resolution(&mut d.st, escrow_id, buyer, 1, true).result.unwrap();
    EscrowContract::propose_resolution(&mut d.st, escrow_id, seller, 1, true).result.unwrap();
    let effects = EscrowContract::resolve_dispute(&mut d.st, &d.ledger, escrow_id, buyer, 2).result.unwrap();
    // The buyer is paid on resolution: fee to the admin, the rest to the buyer.
    assert_eq!(
        effects.transfers,
        vec![
            Transfer { asset: d.token, from: d.ledger.contract, to: d.admin, amount: 40 },
            Transfer { asset: d.token, from: d.ledger.contract, to: buyer, amount: 960 },
        ]
    );
    match effects.event {
        Some(EscrowEvent::ResolveDispute(ev)) => {
            assert!(ev.favor_buyer);
            assert_eq!((ev.amount, ev.fee, ev.recipient), (1000, 40, buyer));
        }
        other => panic!("unexpected event {:?}", other),
    }
    assert_eq!(status_of(&d, escrow_id), EscrowStatus::Refunded);
}

#[test]
fn admin_resolution_of_an_early_released_escrow_pays_the_favored_party() {
    let mut d = setup_contract_with_token();
    let buyer = account(4);
    let seller = account(5);
    let (escrow_id, _) = EscrowContract::create_escrow(
        &mut d.st,
        &d.ledger,
        buyer,
        seller,
        500,
        d.token,
        0,
        3,
        b"p".to_vec(),
        true,
    )
    .result
    .unwrap();
    EscrowContract::release_payment(&mut d.st, &d.ledger, escrow_id, seller, 0).result.unwrap();
    EscrowContract::dispute_escrow(&mut d.st, &d.ledger, escrow_id, seller, 1).result.unwrap();
    let effects = EscrowContract::admin_resolve_dispute(&mut d.st, &d.ledger, escrow_id, true, 0)
        .result
        .unwrap();
    assert_eq!(
        effects.transfers,
        vec![Transfer { asset: d.token, from: d.ledger.contract, to: buyer, amount: 500 }]
    );
    assert_eq!(status_of(&d, escrow_id), EscrowStatus::Refunded);
}
