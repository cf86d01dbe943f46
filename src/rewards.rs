use vstd::prelude::*;

use crate::escrow::{Action, Holder, RewardToken};
use crate::state::PaymentSplit;

verus! {

/// How much listener reward a buyer earns for a purchase.
#[derive(Clone, Copy, Debug, PartialEq, Eq, Structural)]
pub enum BuyerReward {
    /// As many reward units as the buyer paid in total.
    TotalPaid,
    /// This percentage of the total paid, rounded down.
    PercentOfTotal(u8),
}

/// The buyer's reward for a purchase of `total`.
pub open spec fn buyer_reward_amount(rule: BuyerReward, total: int) -> int {
    match rule {
        BuyerReward::TotalPaid => total,
        BuyerReward::PercentOfTotal(p) => total * p / 100,
    }
}

/// `n / d` rounded to the nearest integer, halves rounded up.
pub open spec fn div_round_half_up(n: int, d: int) -> int {
    (2 * n + d) / (2 * d)
}

/// The creator reward owed to each of `artist_count` recipients: the total
/// split equally among them.
pub open spec fn creator_reward_amount(total: int, artist_count: int) -> int {
    div_round_half_up(total, artist_count)
}

/// One creator-reward mint of `amount` per split, in table order.
pub open spec fn creator_mints(splits: Seq<PaymentSplit>, amount: u64) -> Seq<Action>
    decreases splits.len(),
{
    if splits.len() == 0 {
        seq![]
    } else {
        creator_mints(splits.drop_last(), amount).push(
            Action::MintReward {
                token: RewardToken::Cnctd,
                to: Holder::Recipient(splits.last().recipient_cnctd_ata),
                amount,
            },
        )
    }
}

/// The buyer's reward for a purchase of `total`, or `None` when the rule
/// asks for more than a `u64` holds.
pub fn buyer_reward(rule: BuyerReward, total: u64) -> (r: Option<u64>)
    ensures
        r == (if buyer_reward_amount(rule, total as int) <= u64::MAX {
            Some(buyer_reward_amount(rule, total as int) as u64)
        } else {
            None::<u64>
        }),
{
    match rule {
        BuyerReward::TotalPaid => Some(total),
        BuyerReward::PercentOfTotal(p) => {
            assert(total as int * p as int <= u64::MAX as int * 255) by (nonlinear_arith)
                requires
                    total <= u64::MAX,
                    p <= 255,
            ;
            let scaled: u128 = total as u128 * p as u128;
            let amount: u128 = scaled / 100;
            if amount > u64::MAX as u128 {
                None
            } else {
                Some(amount as u64)
            }
        },
    }
}

/// Each creator's share of `total` under the equal-split rule, rounded half up.
pub fn creator_reward(total: u64, artist_count: usize) -> (r: u64)
    requires
        artist_count > 0,
    ensures
        r == creator_reward_amount(total as int, artist_count as int),
        r <= total,
{
    let n: u128 = 2 * total as u128 + artist_count as u128;
    let d: u128 = 2 * artist_count as u128;
    let q: u128 = n / d;
    assert(q <= total) by (nonlinear_arith)
        requires
            q == n / d,
            n == 2 * total + artist_count,
            d == 2 * artist_count,
            artist_count >= 1,
    ;
    q as u64
}

/// Appends one creator-reward mint of `amount` per split.
pub(crate) fn build_creator_mints(plan: &mut Vec<Action>, splits: &Vec<PaymentSplit>, amount: u64)
    ensures
        final(plan)@ == old(plan)@ + creator_mints(splits@, amount),
{
    let ghost start = plan@;
    let mut i: usize = 0;
    while i < splits.len()
        invariant
            i <= splits@.len(),
            plan@ == start + creator_mints(splits@.take(i as int), amount),
        decreases splits@.len() - i,
    {
        assert(splits@.take(i as int + 1).drop_last() =~= splits@.take(i as int));
        plan.push(
            Action::MintReward {
                token: RewardToken::Cnctd,
                to: Holder::Recipient(splits[i].recipient_cnctd_ata),
                amount,
            },
        );
        i = i + 1;
        assert(plan@ =~= start + creator_mints(splits@.take(i as int), amount));
    }
    assert(splits@.take(i as int) =~= splits@);
}

} // verus!
