use vstd::prelude::*;

use crate::address::Address;
use crate::errors::CnctdStudioError;
use crate::escrow::{
    complete_outcome,
    buyer_outflow, custody_outflow, delivery_action, Holder, delivery_rent, fulfill_outcome, reimbursement, open_outcome, payouts, Action, Delivery,
    OpenEscrowArgs, RentCosts,
};
use crate::rewards::BuyerReward;
use crate::state::{split_total, EscrowView, PaymentSplit};

verus! {

/// Custody outflow adds up over concatenated plans.
pub proof fn lemma_custody_outflow_concat(a: Seq<Action>, b: Seq<Action>)
    ensures
        custody_outflow(a + b) == custody_outflow(a) + custody_outflow(b),
    decreases b.len(),
{
    if b.len() == 0 {
        assert(a + b =~= a);
    } else {
        lemma_custody_outflow_concat(a, b.drop_last());
        assert((a + b).drop_last() =~= a + b.drop_last());
    }
}

/// The split payouts take exactly the split total out of custody: a zero
/// amount is skipped and moves nothing.
pub proof fn lemma_payouts_outflow(splits: Seq<PaymentSplit>)
    ensures
        custody_outflow(payouts(Holder::Custody, splits)) == split_total(splits),
    decreases splits.len(),
{
    if splits.len() > 0 {
        lemma_payouts_outflow(splits.drop_last());
        if splits.last().amount != 0 {
            let rest = payouts(Holder::Custody, splits.drop_last());
            let step = Action::Transfer {
                from: Holder::Custody,
                to: Holder::Recipient(splits.last().recipient_usdc_ata),
                amount: splits.last().amount,
            };
            assert(rest.push(step).drop_last() =~= rest);
        }
    }
}

/// A split total is never negative.
pub proof fn lemma_split_total_nonneg(splits: Seq<PaymentSplit>)
    ensures
        split_total(splits) >= 0,
    decreases splits.len(),
{
    if splits.len() > 0 {
        lemma_split_total_nonneg(splits.drop_last());
    }
}

/// Every entry that `open_escrow` leaves behind is well formed: its total is
/// its fee plus the sum of its splits.
pub proof fn lemma_open_keeps_totals(
    e: EscrowView,
    authorized: bool,
    args: OpenEscrowArgs,
    bump: u8,
    buyer_balance: u64,
    costs: RentCosts,
)
    requires
        e.wf(),
    ensures
        open_outcome(e, authorized, args, bump, buyer_balance, costs) matches Ok((e1, _)) ==> e1.wf(),
{
    lemma_split_total_nonneg(args.payment_splits@);
}

/// Every entry that `fulfill` leaves behind is well formed, and its amounts
/// are the ones recorded when it was opened.
pub proof fn lemma_fulfill_keeps_totals(
    e: EscrowView,
    authorized: bool,
    refs: Seq<Address>,
    fee_compensation: Option<u64>,
    costs: RentCosts,
    delivery: Delivery,
)
    requires
        e.wf(),
    ensures
        fulfill_outcome(e, authorized, refs, fee_compensation, costs, delivery) matches Ok((e1, _)) ==> {
            &&& e1.wf()
            &&& e1.total_amount == e.total_amount
            &&& e1.treasury_fee == e.treasury_fee
            &&& e1.payment_splits == e.payment_splits
        },
{
}

/// `complete` keeps an entry well formed and its amounts as recorded.
pub proof fn lemma_complete_keeps_totals(
    e: EscrowView,
    authorized: bool,
    reward_refs: Seq<Address>,
    custody_balance: u64,
    rule: BuyerReward,
    fee_compensation: Option<u64>,
)
    requires
        e.wf(),
    ensures
        complete_outcome(e, authorized, reward_refs, custody_balance, rule, fee_compensation) matches Ok((e1, _)) ==> {
            &&& e1.wf()
            &&& e1.total_amount == e.total_amount
            &&& e1.treasury_fee == e.treasury_fee
            &&& e1.payment_splits == e.payment_splits
        },
{
}

/// Opening an entry a second time with the same arguments succeeds, does not
/// charge the buyer again, and leaves the entry, its total, its splits and its
/// flags exactly as the first call left them.
pub proof fn lemma_open_idempotent(
    e: EscrowView,
    authorized: bool,
    args: OpenEscrowArgs,
    bump: u8,
    buyer_balance: u64,
    costs: RentCosts,
)
    requires
        open_outcome(e, authorized, args, bump, buyer_balance, costs) is Ok,
    ensures
        ({
            let e1 = open_outcome(e, authorized, args, bump, buyer_balance, costs)->Ok_0.0;
            let second = open_outcome(e1, authorized, args, bump, buyer_balance, costs);
            &&& second is Ok
            &&& second->Ok_0.0 == e1
            &&& buyer_outflow(second->Ok_0.1) == 0
        }),
{
    reveal_with_fuel(buyer_outflow, 3);
    lemma_split_total_nonneg(args.payment_splits@);
}

/// Once `fulfill` has succeeded on an entry, every later `fulfill` on it fails.
pub proof fn lemma_fulfill_exactly_once(
    e: EscrowView,
    authorized: bool,
    refs: Seq<Address>,
    fee_compensation: Option<u64>,
    costs: RentCosts,
    delivery: Delivery,
    authorized2: bool,
    refs2: Seq<Address>,
    fee_compensation2: Option<u64>,
    costs2: RentCosts,
    delivery2: Delivery,
)
    requires
        fulfill_outcome(e, authorized, refs, fee_compensation, costs, delivery) is Ok,
    ensures
        ({
            let e1 = fulfill_outcome(e, authorized, refs, fee_compensation, costs, delivery)->Ok_0.0;
            fulfill_outcome(e1, authorized2, refs2, fee_compensation2, costs2, delivery2) == if authorized2 {
                Err::<(EscrowView, Seq<Action>), CnctdStudioError>(CnctdStudioError::EscrowAlreadyFulfilled)
            } else {
                Err::<(EscrowView, Seq<Action>), CnctdStudioError>(CnctdStudioError::Unauthorized)
            }
        }),
{
}

/// When the reference supplied for split `i` is not the recorded recipient,
/// `fulfill` fails and transfers nothing, neither for split `i` nor for any
/// other. For an administrator fulfilling a funded entry with enough
/// references, the failure is `InvalidPaymentReceiver`.
pub proof fn lemma_substituted_recipient_refused(
    e: EscrowView,
    authorized: bool,
    refs: Seq<Address>,
    fee_compensation: Option<u64>,
    costs: RentCosts,
    delivery: Delivery,
    i: int,
)
    requires
        0 <= i < e.payment_splits.len(),
        i < refs.len(),
        refs[i].key() != e.payment_splits[i].recipient_usdc_ata.key(),
    ensures
        fulfill_outcome(e, authorized, refs, fee_compensation, costs, delivery) is Err,
        authorized && e.funded() && !e.fulfilled && refs.len() >= e.payment_splits.len() ==> fulfill_outcome(
            e,
            authorized,
            refs,
            fee_compensation,
            costs,
            delivery,
        ) == Err::<(EscrowView, Seq<Action>), CnctdStudioError>(CnctdStudioError::InvalidPaymentReceiver),
{
}

/// A successful `fulfill` takes out of custody exactly the fee plus the sum
/// of the non-zero splits, which is the entry's total.
pub proof fn lemma_fulfill_conserves(
    e: EscrowView,
    authorized: bool,
    refs: Seq<Address>,
    fee_compensation: Option<u64>,
    costs: RentCosts,
    delivery: Delivery,
)
    requires
        e.wf(),
        fulfill_outcome(e, authorized, refs, fee_compensation, costs, delivery) is Ok,
    ensures
        ({
            let plan = fulfill_outcome(e, authorized, refs, fee_compensation, costs, delivery)->Ok_0.1;
            &&& custody_outflow(plan) == e.treasury_fee + split_total(e.payment_splits)
            &&& custody_outflow(plan) == e.total_amount
        }),
{
    let plan = fulfill_outcome(e, authorized, refs, fee_compensation, costs, delivery)->Ok_0.1;
    let fee_step = seq![
        Action::Transfer {
            from: Holder::Custody,
            to: Holder::TreasuryPayment,
            amount: e.treasury_fee,
        },
    ];
    let owed = reimbursement(fee_compensation, delivery_rent(costs, delivery));
    let tail = seq![delivery_action(delivery), Action::Reimburse { amount: owed as u64 }];
    let ops = fee_step + payouts(Holder::Custody, e.payment_splits);
    assert(plan == ops + tail);
    lemma_custody_outflow_concat(ops, tail);
    lemma_custody_outflow_concat(fee_step, payouts(Holder::Custody, e.payment_splits));
    lemma_payouts_outflow(e.payment_splits);
    reveal_with_fuel(custody_outflow, 3);
    assert(fee_step.drop_last() =~= Seq::<Action>::empty());
    assert(tail.drop_last().drop_last() =~= Seq::<Action>::empty());
}

} // verus!
