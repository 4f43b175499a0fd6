//! Properties of the escrow contract that relate several calls or hold of
//! every input.
use crate::address::Address;
use crate::escrow::contract::{
    admin_resolve_error, created_record, creation_transfers, custody_step, dispute_escrow_error,
    proposed_record,
    escrow_payout_error, escrow_payout_fee, escrow_payout_net, escrow_payout_transfers,
    fee_mode_of, is_settled, payout_error, payout_transfers, propose_error, refund_error,
    release_error, resolve_error, settles, status_step, storage_wf, total_amount, Transfer,
};
use crate::escrow::error::EscrowError;
use crate::escrow::storage::{with_token_added, with_token_removed, Config, EscrowStatus, StorageView};
use crate::escrow::validation::agreed_resolution;
use vstd::prelude::*;

verus! {

/// A payout moves exactly the escrowed amount out of custody, split into the
/// fee and the net amount: every transfer leaves the contract, in the
/// escrow's asset, and their amounts add up to the escrowed amount.
pub proof fn lemma_payout_conserves_amount(
    asset: Address,
    contract: Address,
    admin: Address,
    recipient: Address,
    amount: i128,
    fee: i128,
    collect_on_create: bool,
)
    requires
        payout_error(amount, fee, collect_on_create) is None,
    ensures
        total_amount(payout_transfers(asset, contract, admin, recipient, amount, fee, collect_on_create))
            == amount,
        forall|i: int|
            0 <= i < payout_transfers(
                asset,
                contract,
                admin,
                recipient,
                amount,
                fee,
                collect_on_create,
            ).len() ==> #[trigger] payout_transfers(
                asset,
                contract,
                admin,
                recipient,
                amount,
                fee,
                collect_on_create,
            )[i].from == contract && payout_transfers(
                asset,
                contract,
                admin,
                recipient,
                amount,
                fee,
                collect_on_create,
            )[i].asset == asset,
{
    let t = payout_transfers(asset, contract, admin, recipient, amount, fee, collect_on_create);
    reveal_with_fuel(total_amount, 3);
    if !collect_on_create && fee > 0 {
        assert(t.drop_last().drop_last() =~= Seq::<Transfer>::empty());
    } else {
        assert(t.drop_last() =~= Seq::<Transfer>::empty());
    }
}

/// Creating an escrow takes the amount from the buyer into custody, plus the
/// fee to the admin where it is collected on creation; nothing else moves.
pub proof fn lemma_creation_moves_amount_and_fee(
    contract: Address,
    admin: Address,
    buyer: Address,
    asset: Address,
    amount: i128,
    fee: i128,
    collect_on_create: bool,
)
    ensures
        total_amount(creation_transfers(contract, admin, buyer, asset, amount, fee, collect_on_create))
            == amount + (if collect_on_create && fee > 0 {
            fee as int
        } else {
            0
        }),
        creation_transfers(contract, admin, buyer, asset, amount, fee, collect_on_create)[0] == (
        Transfer { asset, from: buyer, to: contract, amount }),
{
    let t = creation_transfers(contract, admin, buyer, asset, amount, fee, collect_on_create);
    reveal_with_fuel(total_amount, 3);
    if collect_on_create && fee > 0 {
        assert(t.drop_last().drop_last() =~= Seq::<Transfer>::empty());
    } else {
        assert(t.drop_last() =~= Seq::<Transfer>::empty());
    }
}

/// Refunded escrows are final, and a released escrow can only become
/// disputed: no call makes a settled escrow active again.
pub proof fn lemma_settled_escrow_stays_settled(from: EscrowStatus, to: EscrowStatus)
    requires
        status_step(from, to),
        from == EscrowStatus::Released || from == EscrowStatus::Refunded,
    ensures
        from == EscrowStatus::Refunded ==> to == from,
        to != EscrowStatus::Active,
{
}

/// Fresh storage is well formed: it holds no escrow, fee mode or paid-out
/// mark; each entry point keeps the storage well formed, and `create_escrow`
/// then never reuses an id.
pub proof fn lemma_fresh_storage_well_formed()
    ensures
        storage_wf(StorageView::empty()),
{
}

/// The sum of a list of amounts.
pub open spec fn sum_of(amounts: Seq<int>) -> int
    decreases amounts.len(),
{
    if amounts.len() == 0 {
        0
    } else {
        sum_of(amounts.drop_last()) + amounts.last()
    }
}

/// What an escrow was funded with: its amount once it exists, else nothing.
pub open spec fn deposit_of(v: StorageView, id: u64) -> int {
    if v.escrows.contains_key(id) {
        v.escrows[id].amount as int
    } else {
        0
    }
}

/// How many of the first `k` calls of a run settle an escrow.
pub open spec fn settlements(states: Seq<StorageView>, id: u64, k: int) -> int
    decreases k,
{
    if k <= 0 {
        0
    } else {
        settlements(states, id, k - 1) + (if settles(states[k - 1], states[k], id) {
            1int
        } else {
            0
        })
    }
}

/// The steps of a run, each moving custody as `custody_step` says, from a
/// storage that does not hold the escrow yet.
pub open spec fn custody_run(states: Seq<StorageView>, paid: Seq<int>, id: u64) -> bool {
    &&& states.len() == paid.len() + 1
    &&& !states[0].escrows.contains_key(id)
    &&& forall|i: int|
        0 <= i < paid.len() ==> #[trigger] custody_step(states[i], states[i + 1], id, paid[i])
}

/// No call of a run disputes the escrow again once it has been released.
pub open spec fn never_reopened(states: Seq<StorageView>, id: u64) -> bool {
    forall|i: int|
        0 <= i < states.len() - 1 && #[trigger] states[i].escrows.contains_key(id)
            && states[i].escrows[id].status == EscrowStatus::Released ==> states[i
            + 1].escrows[id].status != EscrowStatus::Disputed
}

proof fn lemma_custody_accounting(states: Seq<StorageView>, paid: Seq<int>, id: u64, k: int)
    requires
        custody_run(states, paid, id),
        0 <= k <= paid.len(),
    ensures
        states[k].escrows.contains_key(id) ==> states[k].escrows[id].amount > 0 && sum_of(
            paid.take(k),
        ) == states[k].escrows[id].amount * settlements(states, id, k),
        !states[k].escrows.contains_key(id) ==> sum_of(paid.take(k)) == 0 && settlements(
            states,
            id,
            k,
        ) == 0,
        settlements(states, id, k) >= 0,
    decreases k,
{
    if k > 0 {
        lemma_custody_accounting(states, paid, id, k - 1);
        assert(paid.take(k).drop_last() =~= paid.take(k - 1));
        assert(custody_step(states[k - 1], states[k - 1 + 1], id, paid[k - 1]));
        let c = settlements(states, id, k - 1);
        assert(sum_of(paid.take(k)) == sum_of(paid.take(k - 1)) + paid[k - 1]);
        if states[k - 1].escrows.contains_key(id) {
            let amount = states[k - 1].escrows[id].amount as int;
            assert(states[k].escrows[id].amount == amount);
            assert(amount * (c + 1) == amount * c + amount) by (nonlinear_arith);
            if settles(states[k - 1], states[k], id) {
                assert(settlements(states, id, k) == c + 1);
                assert(paid[k - 1] == amount);
            } else {
                assert(settlements(states, id, k) == c);
                assert(paid[k - 1] == 0);
            }
        } else if states[k].escrows.contains_key(id) {
            let amount = states[k].escrows[id].amount as int;
            assert(settlements(states, id, k) == 0);
            assert(amount * 0 == 0) by (nonlinear_arith);
        }
    }
}

proof fn lemma_settled_at_most_once(states: Seq<StorageView>, paid: Seq<int>, id: u64, k: int)
    requires
        custody_run(states, paid, id),
        never_reopened(states, id),
        0 <= k <= paid.len(),
    ensures
        settlements(states, id, k) == (if states[k].escrows.contains_key(id) && is_settled(
            states[k].escrows[id].status,
        ) {
            1int
        } else {
            0
        }),
    decreases k,
{
    if k > 0 {
        lemma_settled_at_most_once(states, paid, id, k - 1);
        assert(custody_step(states[k - 1], states[k - 1 + 1], id, paid[k - 1]));
        if states[k - 1].escrows.contains_key(id) {
            assert(states[k - 1].escrows.contains_key(id));
        }
    }
}

/// Each settlement of an escrow pays out exactly its deposit, and nothing
/// else pays out of it. Along any run of calls that starts where the escrow
/// does not exist yet, each call moving custody as `custody_step` says (as
/// the contract of every entry point states, with what its transfers add up
/// to as the amount paid), the amounts paid out of the escrow add up to its
/// amount times the number of calls that settled it.
pub proof fn lemma_each_settlement_pays_the_deposit(
    states: Seq<StorageView>,
    paid: Seq<int>,
    id: u64,
)
    requires
        custody_run(states, paid, id),
    ensures
        sum_of(paid) == deposit_of(states.last(), id) * settlements(states, id, paid.len() as int),
{
    lemma_custody_accounting(states, paid, id, paid.len() as int);
    assert(paid.take(paid.len() as int) =~= paid);
}

/// An escrow that is not disputed again after its release pays out at most
/// its deposit over its whole life, and exactly its deposit once it is
/// released or refunded. (A dispute opened after an early release is settled
/// once more, and pays out the deposit once more.)
pub proof fn lemma_escrow_pays_out_at_most_its_deposit(
    states: Seq<StorageView>,
    paid: Seq<int>,
    id: u64,
)
    requires
        custody_run(states, paid, id),
        never_reopened(states, id),
    ensures
        sum_of(paid) <= deposit_of(states.last(), id),
        states.last().escrows.contains_key(id) && is_settled(states.last().escrows[id].status)
            ==> sum_of(paid) == deposit_of(states.last(), id),
{
    let n = paid.len() as int;
    lemma_custody_accounting(states, paid, id, n);
    lemma_settled_at_most_once(states, paid, id, n);
    assert(paid.take(n) =~= paid);
}

/// Changing the configuration never changes what an escrow pays out: an
/// escrow pays out under the fee mode that `create_escrow` records for it,
/// so whether its payout goes through, the fee it reports, the net amount
/// its recipient gets and the amounts of its transfers stay as they were
/// (with the same admin, the transfers themselves), and so do the errors of
/// releasing it and of resolving its dispute.
pub proof fn lemma_config_change_keeps_payouts(
    pre: StorageView,
    cfg: Config,
    id: u64,
    contract: Address,
    recipient: Address,
    now: u64,
    caller: Address,
    nonce: u64,
)
    requires
        pre.fee_modes.contains_key(id),
    ensures
        fee_mode_of(pre.with_config(cfg), id) == fee_mode_of(pre, id),
        escrow_payout_error(pre.with_config(cfg), id) == escrow_payout_error(pre, id),
        escrow_payout_fee(pre.with_config(cfg), id) == escrow_payout_fee(pre, id),
        escrow_payout_net(pre.with_config(cfg), id) == escrow_payout_net(pre, id),
        escrow_payout_transfers(pre.with_config(cfg), id, contract, recipient).map_values(
            |t: Transfer| t.amount,
        ) == escrow_payout_transfers(pre, id, contract, recipient).map_values(
            |t: Transfer| t.amount,
        ),
        cfg.admin == pre.config.unwrap().admin ==> escrow_payout_transfers(
            pre.with_config(cfg),
            id,
            contract,
            recipient,
        ) == escrow_payout_transfers(pre, id, contract, recipient),
        release_error(pre.with_config(cfg), now, id, caller, nonce) == release_error(
            pre,
            now,
            id,
            caller,
            nonce,
        ),
        resolve_error(pre.with_config(cfg), id, caller, nonce) == resolve_error(
            pre,
            id,
            caller,
            nonce,
        ),
{
    let post = pre.with_config(cfg);
    assert(escrow_payout_transfers(post, id, contract, recipient).map_values(|t: Transfer| t.amount)
        =~= escrow_payout_transfers(pre, id, contract, recipient).map_values(|t: Transfer| t.amount));
}

/// An escrow's fee is charged once. Under the fee mode recorded for it, its
/// creation and its payout together carry one transfer of a positive fee to
/// an admin, besides the deposit and the recipient's share; with no fee,
/// neither carries one.
pub proof fn lemma_fee_charged_once(
    contract: Address,
    admin: Address,
    payout_admin: Address,
    buyer: Address,
    recipient: Address,
    asset: Address,
    amount: i128,
    fee: i128,
    collect_on_create: bool,
)
    ensures
        (creation_transfers(contract, admin, buyer, asset, amount, fee, collect_on_create).len() - 1)
            + (payout_transfers(
            asset,
            contract,
            payout_admin,
            recipient,
            amount,
            fee,
            collect_on_create,
        ).len() - 1) == (if fee > 0 {
            1int
        } else {
            0
        }),
        collect_on_create && fee > 0 ==> creation_transfers(
            contract,
            admin,
            buyer,
            asset,
            amount,
            fee,
            collect_on_create,
        )[1] == (Transfer { asset, from: buyer, to: admin, amount: fee }),
        !collect_on_create && fee > 0 ==> payout_transfers(
            asset,
            contract,
            payout_admin,
            recipient,
            amount,
            fee,
            collect_on_create,
        )[0] == (Transfer { asset, from: contract, to: payout_admin, amount: fee }),
{
}

/// A consumed nonce cannot be used again: once a call has moved a user's
/// nonce on, every call of that user that presents the old nonce is refused,
/// with `InvalidNonce` where the nonce is the first thing checked.
pub proof fn lemma_consumed_nonce_is_rejected(
    pre: StorageView,
    post: StorageView,
    user: Address,
    now: u64,
    escrow_id: u64,
)
    requires
        post.nonce_of(user) == pre.nonce_of(user) + 1,
    ensures
        release_error(post, now, escrow_id, user, pre.nonce_of(user)) == Some(
            EscrowError::InvalidNonce,
        ),
        refund_error(post, now, escrow_id, user, pre.nonce_of(user)) == Some(
            EscrowError::InvalidNonce,
        ),
        dispute_escrow_error(post, now, escrow_id, user, pre.nonce_of(user)) is Some,
        propose_error(post, escrow_id, user, pre.nonce_of(user)) == Some(EscrowError::InvalidNonce),
        resolve_error(post, escrow_id, user, pre.nonce_of(user)) == Some(EscrowError::InvalidNonce),
        post.config matches Some(cfg) && cfg.admin == user ==> admin_resolve_error(
            post,
            escrow_id,
            pre.nonce_of(user),
        ) == Some(EscrowError::InvalidNonce),
{
}

/// A dispute is settled by the parties only when both proposed the same
/// outcome, and then it is that outcome.
pub proof fn lemma_resolution_needs_agreement(
    buyer_proposal: Option<bool>,
    seller_proposal: Option<bool>,
    favor_buyer: bool,
)
    ensures
        agreed_resolution(buyer_proposal, seller_proposal) == Ok::<bool, EscrowError>(favor_buyer)
            <==> (buyer_proposal == Some(favor_buyer) && seller_proposal == Some(favor_buyer)),
{
}

/// Changing the configuration leaves every escrow record, and so the fee
/// rate that each one was created with, as it was.
pub proof fn lemma_config_change_keeps_records(pre: StorageView, cfg: Config)
    ensures
        pre.with_config(cfg).escrows == pre.escrows,
{
}

/// An added token is allowed.
pub proof fn lemma_added_token_is_allowed(tokens: Seq<Address>, token: Address)
    ensures
        with_token_added(tokens, token).contains(token),
{
    if !tokens.contains(token) {
        assert(tokens.push(token)[tokens.len() as int] == token);
    }
}

/// Adding a token twice is the same as adding it once.
pub proof fn lemma_add_token_idempotent(tokens: Seq<Address>, token: Address)
    ensures
        with_token_added(with_token_added(tokens, token), token) == with_token_added(tokens, token),
{
    lemma_added_token_is_allowed(tokens, token);
}

/// A removed token is no longer allowed, and no other token is affected.
pub proof fn lemma_removed_token_is_not_allowed(tokens: Seq<Address>, token: Address, other: Address)
    ensures
        !with_token_removed(tokens, token).contains(token),
        other != token ==> (with_token_removed(tokens, token).contains(other) <==> tokens.contains(
            other,
        )),
{
    let keep = |t: Address| t != token;
    broadcast use Seq::lemma_filter_contains_rev;

    if with_token_removed(tokens, token).contains(token) {
        let i = choose|i: int|
            0 <= i < with_token_removed(tokens, token).len() && with_token_removed(tokens, token)[i]
                == token;
        tokens.lemma_filter_pred(keep, i);
    }
    if other != token && tokens.contains(other) {
        let i = choose|i: int| 0 <= i < tokens.len() && tokens[i] == other;
        tokens.lemma_filter_contains(keep, i);
    }
}

/// Removing a token that was not allowed undoes adding it.
pub proof fn lemma_remove_undoes_add(tokens: Seq<Address>, token: Address)
    requires
        !tokens.contains(token),
    ensures
        with_token_removed(with_token_added(tokens, token), token) == tokens,
    decreases tokens.len(),
{
    reveal(Seq::filter);
    lemma_filter_keeps_all(tokens, token);
    assert(tokens.push(token).drop_last() =~= tokens);
}

proof fn lemma_filter_keeps_all(tokens: Seq<Address>, token: Address)
    requires
        !tokens.contains(token),
    ensures
        with_token_removed(tokens, token) == tokens,
    decreases tokens.len(),
{
    reveal(Seq::filter);
    if tokens.len() > 0 {
        assert(!tokens.drop_last().contains(token)) by {
            if tokens.drop_last().contains(token) {
                let i = choose|i: int|
                    0 <= i < tokens.drop_last().len() && tokens.drop_last()[i] == token;
                assert(tokens[i] == token);
            }
        }
        lemma_filter_keeps_all(tokens.drop_last(), token);
        assert(tokens.last() != token) by {
            if tokens.last() == token {
                assert(tokens[tokens.len() - 1] == token);
            }
        }
        assert(tokens.drop_last().push(tokens.last()) =~= tokens);
    }
}

/// A created escrow is active and dated now, and its guarantee period runs
/// for `guarantee_days` whole days from now: it ends `guarantee_days * 86400`
/// seconds after the ledger time of the creation.
pub proof fn lemma_created_escrow_runs_guarantee_days(
    now: u64,
    buyer: Address,
    seller: Address,
    amount: i128,
    asset: Address,
    fee_bps: u32,
    guarantee_days: u32,
    product_id: Seq<u8>,
    allow_early_release: bool,
)
    requires
        now + guarantee_days * 86_400 <= u64::MAX,
    ensures
        ({
            let rec = created_record(
                now,
                buyer,
                seller,
                amount,
                asset,
                fee_bps,
                guarantee_days,
                product_id,
                allow_early_release,
            );
            &&& rec.status == EscrowStatus::Active
            &&& rec.created_at == now
            &&& rec.release_at == now + guarantee_days * 86_400
            &&& rec.release_at - rec.created_at == guarantee_days * 86_400
            &&& rec.buyer_proposal is None && rec.seller_proposal is None
        }),
{
}

/// Only an active escrow is released: a release that passes its checks was
/// asked for by the escrow's seller with the seller's current nonce, on an
/// active escrow whose guarantee period is over unless early release is
/// allowed; and a release of an escrow that is not active (a disputed one
/// among them) is refused as such once the nonce and the escrow are found.
pub proof fn lemma_release_needs_active_escrow(
    pre: StorageView,
    now: u64,
    escrow_id: u64,
    seller: Address,
    nonce: u64,
)
    ensures
        release_error(pre, now, escrow_id, seller, nonce) is None ==> {
            &&& pre.escrows.contains_key(escrow_id)
            &&& pre.escrows[escrow_id].status == EscrowStatus::Active
            &&& pre.escrows[escrow_id].seller == seller
            &&& nonce == pre.nonce_of(seller)
            &&& !pre.escrows[escrow_id].allow_early_release ==> now
                >= pre.escrows[escrow_id].release_at
        },
        nonce == pre.nonce_of(seller) && pre.escrows.contains_key(escrow_id)
            && pre.escrows[escrow_id].status != EscrowStatus::Active ==> release_error(
            pre,
            now,
            escrow_id,
            seller,
            nonce,
        ) == Some(EscrowError::EscrowNotActive),
{
}

/// A refund is given only within the guarantee period, whether or not early
/// release is allowed: a refund that passes its checks was asked for by the
/// escrow's buyer with the buyer's current nonce, on an active escrow, before
/// its release time; once that time has come, the buyer's refund of an
/// active escrow is refused as expired.
pub proof fn lemma_refund_only_within_guarantee_period(
    pre: StorageView,
    now: u64,
    escrow_id: u64,
    buyer: Address,
    nonce: u64,
)
    ensures
        refund_error(pre, now, escrow_id, buyer, nonce) is None ==> {
            &&& pre.escrows.contains_key(escrow_id)
            &&& pre.escrows[escrow_id].status == EscrowStatus::Active
            &&& pre.escrows[escrow_id].buyer == buyer
            &&& nonce == pre.nonce_of(buyer)
            &&& now < pre.escrows[escrow_id].release_at
        },
        nonce == pre.nonce_of(buyer) && pre.escrows.contains_key(escrow_id)
            && pre.escrows[escrow_id].buyer == buyer && pre.escrows[escrow_id].status
            == EscrowStatus::Active && now >= pre.escrows[escrow_id].release_at ==> refund_error(
            pre,
            now,
            escrow_id,
            buyer,
            nonce,
        ) == Some(EscrowError::GuaranteePeriodExpired),
{
}

/// Either party can always dispute an active escrow with its current nonce,
/// at any time, before or after the end of its guarantee period.
pub proof fn lemma_party_can_dispute_active_escrow(
    pre: StorageView,
    now: u64,
    escrow_id: u64,
    caller: Address,
    nonce: u64,
)
    requires
        pre.escrows.contains_key(escrow_id),
        pre.escrows[escrow_id].status == EscrowStatus::Active,
        pre.escrows[escrow_id].buyer == caller || pre.escrows[escrow_id].seller == caller,
        nonce == pre.nonce_of(caller),
    ensures
        dispute_escrow_error(pre, now, escrow_id, caller, nonce) is None,
{
}

/// A proposal, once recorded, is final: a proposal goes through only where
/// the caller's side has not proposed yet (the buyer's where the caller is
/// the buyer, else the seller's), and once that side has, another proposal
/// of the same party is refused as already made. A recorded proposal sets
/// the caller's side to the proposed outcome and leaves the other side as
/// it was.
pub proof fn lemma_proposal_is_final(
    pre: StorageView,
    escrow_id: u64,
    caller: Address,
    nonce: u64,
    favor_buyer: bool,
)
    ensures
        propose_error(pre, escrow_id, caller, nonce) is None ==> {
            &&& pre.escrows.contains_key(escrow_id)
            &&& pre.escrows[escrow_id].status == EscrowStatus::Disputed
            &&& pre.escrows[escrow_id].buyer == caller ==> pre.escrows[escrow_id].buyer_proposal is None
            &&& pre.escrows[escrow_id].buyer != caller ==> pre.escrows[escrow_id].seller == caller
                && pre.escrows[escrow_id].seller_proposal is None
        },
        nonce == pre.nonce_of(caller) && pre.escrows.contains_key(escrow_id)
            && pre.escrows[escrow_id].status == EscrowStatus::Disputed && (if pre.escrows[escrow_id].buyer
            == caller {
            pre.escrows[escrow_id].buyer_proposal is Some
        } else {
            pre.escrows[escrow_id].seller == caller && pre.escrows[escrow_id].seller_proposal is Some
        }) ==> propose_error(pre, escrow_id, caller, nonce) == Some(EscrowError::AlreadyProposed),
        pre.escrows[escrow_id].buyer == caller ==> proposed_record(
            pre.escrows[escrow_id],
            caller,
            favor_buyer,
        ).buyer_proposal == Some(favor_buyer) && proposed_record(
            pre.escrows[escrow_id],
            caller,
            favor_buyer,
        ).seller_proposal == pre.escrows[escrow_id].seller_proposal,
        pre.escrows[escrow_id].buyer != caller ==> proposed_record(
            pre.escrows[escrow_id],
            caller,
            favor_buyer,
        ).seller_proposal == Some(favor_buyer) && proposed_record(
            pre.escrows[escrow_id],
            caller,
            favor_buyer,
        ).buyer_proposal == pre.escrows[escrow_id].buyer_proposal,
{
}

} // verus!
