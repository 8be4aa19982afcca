//! Properties of the escrow proved over the transitions of `sale` and `contract`:
//! conservation, the cap, exact rollback and stage gating.

use crate::arith::lemma_fee_le_total;
use crate::contract::{
    buyer_resolve_outcome, is_buyer_resolution, sales_of, withdraw_outcome, KatherineSaleContract,
    Transfer,
};
use crate::ledger::amount_of;
use crate::sale::{
    collect_fees_error, collect_fees_state, collect_payments_error, collect_payments_state,
    conserved, covered, deposit_error, deposit_state, excess_error, excess_of, fund_error,
    fund_state, ledger_sound, payment_fee, restore_error, restore_excess_error, restore_fees_state,
    restore_payments_error, restore_payments_state, restore_state, sold_for, state_wf,
    withdraw_error, withdraw_excess_state, withdraw_state, SaleState,
};
use crate::types::SaleError;
use vstd::prelude::*;

verus! {

/// An operation that funds a sale: a buyer's payment, or the seller's deposit
/// of sold token.
pub ghost enum FundingOp {
    Payment { buyer: Seq<char>, amount: u128, now: u64 },
    SoldTokens { amount: u128, now: u64 },
}

/// Effect of one funding operation: the new state if it is accepted, the
/// same state if it is rejected (a rejected call changes nothing).
pub open spec fn apply_funding(s: SaleState, op: FundingOp) -> SaleState {
    match op {
        FundingOp::Payment { buyer, amount, now } => if deposit_error(s, buyer, amount, now) is None {
            deposit_state(s, buyer, amount)
        } else {
            s
        },
        FundingOp::SoldTokens { amount, now } => if fund_error(s, amount, now) is None {
            fund_state(s, amount)
        } else {
            s
        },
    }
}

/// State after a sequence of funding operations, applied in order.
pub open spec fn run_funding(s: SaleState, ops: Seq<FundingOp>) -> SaleState
    decreases ops.len(),
{
    if ops.len() == 0 {
        s
    } else {
        apply_funding(run_funding(s, ops.drop_last()), ops.last())
    }
}

proof fn lemma_funding_step(s: SaleState, op: FundingOp)
    requires
        state_wf(s),
        ledger_sound(s),
    ensures
        state_wf(apply_funding(s, op)),
        ledger_sound(apply_funding(s, op)),
        conserved(s) ==> conserved(apply_funding(s, op)),
{
    let t = apply_funding(s, op);
    if let FundingOp::Payment { buyer, amount, now } = op {
        if deposit_error(s, buyer, amount, now) is None {
            assert forall|k: Seq<char>| #[trigger] amount_of(t.claimable, k) <= t.claimable_total by {
                assert(amount_of(s.claimable, k) <= s.claimable_total);
            }
            assert forall|k: Seq<char>| #[trigger] amount_of(t.deposits, k) <= t.deposits_total by {
                assert(amount_of(s.deposits, k) <= s.deposits_total);
            }
        }
    }
}

/// Conservation: after any sequence of payments and seller deposits, the
/// buyers' claims sum to `required_sold_token` and their deposits sum to
/// `total_payment_token`, starting from any state where both held.
pub proof fn lemma_conservation(s: SaleState, ops: Seq<FundingOp>)
    requires
        state_wf(s),
        ledger_sound(s),
        conserved(s),
    ensures
        conserved(run_funding(s, ops)),
    decreases ops.len(),
{
    if ops.len() > 0 {
        lemma_cap_respected(s, ops.drop_last());
        lemma_conservation(s, ops.drop_last());
        lemma_funding_step(run_funding(s, ops.drop_last()), ops.last());
    }
}

/// Cap: no sequence of payments and seller deposits makes
/// `required_sold_token` exceed `max_available_sold_token`; a payment that
/// would do so is rejected with `Capacity` unless an earlier check rejects it,
/// and a rejected payment leaves the sale as it was.
pub proof fn lemma_cap_respected(s: SaleState, ops: Seq<FundingOp>)
    requires
        state_wf(s),
        ledger_sound(s),
    ensures
        state_wf(run_funding(s, ops)),
        ledger_sound(run_funding(s, ops)),
        run_funding(s, ops).required <= run_funding(s, ops).max_available,
        forall|buyer: Seq<char>, amount: u128, now: u64|
            sold_for(s, amount) + s.required > s.max_available ==> #[trigger] deposit_error(
                s,
                buyer,
                amount,
                now,
            ) is Some,
    decreases ops.len(),
{
    if ops.len() > 0 {
        lemma_cap_respected(s, ops.drop_last());
        lemma_funding_step(run_funding(s, ops.drop_last()), ops.last());
    }
}

/// Rollback of a buyer withdrawal: when the transfer fails, restoring the
/// withdrawn claim and deposit gives back exactly the sale as it was before
/// the withdrawal, and the buyer's set of sales (from which the withdrawal
/// removed this sale) is as it was too.
pub proof fn lemma_buyer_rollback_exact(
    s: SaleState,
    buyer_sales: Set<u32>,
    buyer: Seq<char>,
    now: u64,
)
    requires
        state_wf(s),
        ledger_sound(s),
        withdraw_error(s, buyer, now) is None,
        buyer_sales.contains(s.id),
    ensures
        restore_error(
            withdraw_state(s, buyer),
            buyer,
            amount_of(s.claimable, buyer) as u128,
            amount_of(s.deposits, buyer) as u128,
            covered(s),
        ) is None,
        restore_state(
            withdraw_state(s, buyer),
            buyer,
            amount_of(s.claimable, buyer) as u128,
            amount_of(s.deposits, buyer) as u128,
            covered(s),
        ) == s,
        buyer_sales.remove(s.id).insert(s.id) == buyer_sales,
{
    let w = withdraw_state(s, buyer);
    let c = amount_of(s.claimable, buyer) as u128;
    let d = amount_of(s.deposits, buyer) as u128;
    let r = restore_state(w, buyer, c, d, covered(s));
    assert(amount_of(s.claimable, buyer) <= s.claimable_total);
    assert(amount_of(s.deposits, buyer) <= s.deposits_total);
    assert(r.claimable =~= s.claimable);
    assert(r.deposits =~= s.deposits);
    assert(buyer_sales.remove(s.id).insert(s.id) =~= buyer_sales);
}

/// Rollback of a buyer withdrawal, for the whole registry: `withdraw_tokens`
/// followed by the report that its transfer failed leaves every sale and the
/// buyer's set of sales as they were before the withdrawal, and no other
/// buyer changes.
pub proof fn lemma_withdraw_then_failure_restores(
    c0: KatherineSaleContract,
    c1: KatherineSaleContract,
    c2: KatherineSaleContract,
    buyer: Seq<char>,
    id: u32,
    now: u64,
    t: Transfer,
    claimable: u128,
    deposit: u128,
    paid_in_sold_token: bool,
    r: Result<(), SaleError>,
)
    requires
        c0.wf(),
        withdraw_outcome(c0, c1, buyer, id, now, Ok(t)),
        is_buyer_resolution(t.resolution, buyer, id, claimable, deposit, paid_in_sold_token),
        buyer_resolve_outcome(
            c1,
            c2,
            buyer,
            claimable,
            deposit,
            id,
            paid_in_sold_token,
            false,
            r,
        ),
    ensures
        r is Ok,
        c2.sales@.len() == c0.sales@.len(),
        forall|j: int| 0 <= j < c0.sales@.len() ==> (#[trigger] c2.sales@[j])@ == c0.sales@[j]@,
        sales_of(c2.buyers@, buyer) == sales_of(c0.buyers@, buyer),
        c2.buyers@.remove(buyer) == c0.buyers@.remove(buyer),
{
    let sale = c0.sales@[id as int];
    assert(sale.wf());
    assert(sale@.claimable.contains_key(buyer));
    sale.lemma_sound();
    lemma_buyer_rollback_exact(sale@, sales_of(c0.buyers@, buyer), buyer, now);
    assert forall|j: int| 0 <= j < c0.sales@.len() implies (#[trigger] c2.sales@[j])@
        == c0.sales@[j]@ by {
        if j != id {
            assert(c1.sales@[j] == c0.sales@[j]);
        }
    }
    assert(c2.buyers@.remove(buyer) =~= c0.buyers@.remove(buyer));
}

/// Rollback of a payment collection: when the transfer of the net amount
/// fails, the escrow is exactly as before the collection, provided no fee
/// was pending when the collection was made.
pub proof fn lemma_payments_rollback_exact(s: SaleState, now: u64)
    requires
        state_wf(s),
        collect_payments_error(s, now) is None,
        s.total_fees == 0,
    ensures
        restore_payments_error(
            collect_payments_state(s),
            (s.total_payment - payment_fee(s)) as u128,
        ) is None,
        restore_payments_state(
            collect_payments_state(s),
            (s.total_payment - payment_fee(s)) as u128,
        ) == s,
{
    lemma_fee_le_total(s.total_payment as nat, s.fee_bps as nat);
}

/// Rollback of a fee collection: restoring the failed transfer gives back
/// exactly the sale as it was before the collection.
pub proof fn lemma_fees_rollback_exact(s: SaleState, now: u64)
    requires
        collect_fees_error(s, now) is None,
    ensures
        restore_fees_state(collect_fees_state(s), s.total_fees) == s,
{
}

/// Rollback of an excess withdrawal: restoring the failed transfer gives back
/// exactly the sale as it was before the withdrawal.
pub proof fn lemma_excess_rollback_exact(s: SaleState, now: u64)
    requires
        excess_error(s, now) is None,
    ensures
        restore_excess_error(withdraw_excess_state(s), excess_of(s)) is None,
        fund_state(withdraw_excess_state(s), excess_of(s)) == s,
{
}

/// Stage gating: payments fail before the open date and from the close date
/// on; collecting payments or fees and withdrawing excess fail up to and
/// including the close date; buyer withdrawals fail before the release date.
pub proof fn lemma_stage_gating(s: SaleState, buyer: Seq<char>, amount: u128, now: u64)
    ensures
        (now < s.open || now >= s.close) ==> deposit_error(s, buyer, amount, now) is Some,
        now <= s.close ==> collect_payments_error(s, now) == Some(
            SaleError::Stage,
        ),
        now <= s.close ==> collect_fees_error(s, now) == Some(SaleError::Stage),
        now <= s.close ==> excess_error(s, now) == Some(SaleError::Stage),
        now < s.release ==> withdraw_error(s, buyer, now) == Some(SaleError::Stage),
{
}

} // verus!
