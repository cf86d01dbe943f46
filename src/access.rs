use vstd::prelude::*;

use crate::address::Address;
use crate::errors::CnctdStudioError;
use crate::escrow::{
    build_payouts, fulfill, payment_refs_match, payouts, reimbursement, reimbursement_amount,
    reward_refs_match, settles, fulfill_outcome, Action, Delivery, Holder, RentCosts, RewardToken,
    per_artist_reward, split_sum,
};
use crate::rewards::{
    buyer_reward, buyer_reward_amount, build_creator_mints, creator_mints, creator_reward, BuyerReward,
};
use crate::state::{split_total, PaymentSplit, ReleaseAccess, ReleaseEscrow, Treasury, MAX_PAYMENT_SPLITS};

verus! {

/// Arguments of `purchase_access`.
#[derive(Clone, Debug)]
pub struct PurchaseAccessArgs {
    pub buyer_id: String,
    pub release_id: String,
    pub treasury_fee: u64,
    pub payment_splits: Vec<PaymentSplit>,
    pub created_at: i64,
    pub expiration_date: Option<i64>,
    pub fee_compensation: Option<u64>,
}

/// Arguments of `close_release_access`.
#[derive(Clone, Debug)]
pub struct CloseReleaseAccessArgs {
    pub buyer_id: String,
    pub release_id: String,
    pub fee_compensation: Option<u64>,
}

/// Arguments of the two fulfil entry points. The name, symbol, address,
/// mutability, royalty and creators describe the collectible; the dates
/// describe an access grant.
#[derive(Clone, Debug)]
pub struct FulfillReleaseArgs {
    pub release_id: String,
    pub buyer_id: String,
    pub created_at: i64,
    pub expiration_date: Option<i64>,
    pub name: String,
    pub symbol: String,
    pub metadata_uri: String,
    pub is_mutable: bool,
    pub seller_fee_basis_points: u16,
    pub creators: Vec<crate::metadata::Creator>,
    pub fee_compensation: Option<u64>,
}

/// `seq` if `cond`, else nothing.
pub open spec fn when(cond: bool, actions: Seq<Action>) -> Seq<Action> {
    if cond {
        actions
    } else {
        seq![]
    }
}

/// What `purchase_access` does: the plan, or the error.
///
/// The caller supplies the split recipients' payment holders followed by
/// their reward holders.
pub open spec fn purchase_access_outcome(
    authorized: bool,
    args: PurchaseAccessArgs,
    refs: Seq<Address>,
    buyer_balance: u64,
    costs: RentCosts,
    rule: BuyerReward,
) -> Result<Seq<Action>, CnctdStudioError> {
    let splits = args.payment_splits@;
    let n = splits.len();
    let total = args.treasury_fee + split_total(splits);
    let owed = reimbursement(args.fee_compensation, costs.access_record as int);
    if !authorized {
        Err(CnctdStudioError::Unauthorized)
    } else if n > MAX_PAYMENT_SPLITS {
        Err(CnctdStudioError::InvalidPaymentSplits)
    } else if refs.len() < 2 * n {
        Err(CnctdStudioError::NotEnoughAccounts)
    } else if !payment_refs_match(splits, refs) {
        Err(CnctdStudioError::InvalidPaymentReceiver)
    } else if !reward_refs_match(splits, refs.skip(n as int)) {
        Err(CnctdStudioError::InvalidPaymentReceiver)
    } else if total > buyer_balance {
        Err(CnctdStudioError::InsufficientFunds)
    } else if buyer_reward_amount(rule, total) > u64::MAX {
        Err(CnctdStudioError::InvalidInput)
    } else if owed > u64::MAX {
        Err(CnctdStudioError::InsufficientFunds)
    } else {
        let music = buyer_reward_amount(rule, total) as u64;
        Ok(
            seq![Action::GrantAccess { created_at: args.created_at, expiration_date: args.expiration_date }]
                + when(
                args.treasury_fee > 0,
                seq![Action::Transfer { from: Holder::BuyerPayment, to: Holder::TreasuryPayment, amount: args.treasury_fee }],
            ) + payouts(Holder::BuyerPayment, splits) + when(
                music > 0,
                seq![Action::MintReward { token: RewardToken::Music, to: Holder::BuyerRewards, amount: music }],
            ) + creator_mints(splits, per_artist_reward(total as u64, n as int)) + seq![
                Action::Reimburse { amount: owed as u64 },
            ],
        )
    }
}

/// The access grant recorded for a purchase.
pub fn initialize_release_access(args: &PurchaseAccessArgs) -> (r: ReleaseAccess)
    ensures
        r.release_id@ == args.release_id@,
        r.buyer_id@ == args.buyer_id@,
        r.created_at == args.created_at,
        r.expiration_date == args.expiration_date,
{
    ReleaseAccess {
        release_id: args.release_id.clone(),
        buyer_id: args.buyer_id.clone(),
        created_at: args.created_at,
        expiration_date: args.expiration_date,
    }
}

/// Sells access to a release without an escrow: records the grant, pays the
/// fee and the splits straight from the buyer, and mints the rewards.
pub fn purchase_access(
    treasury: &Treasury,
    admin: &Address,
    args: &PurchaseAccessArgs,
    refs: &Vec<Address>,
    buyer_balance: u64,
    costs: &RentCosts,
    rule: BuyerReward,
) -> (r: Result<Vec<Action>, CnctdStudioError>)
    ensures
        match purchase_access_outcome(treasury.has_admin(admin.key()), *args, refs@, buyer_balance, *costs, rule) {
            Ok(plan) => r is Ok && r->Ok_0@ == plan,
            Err(e) => r == Err::<Vec<Action>, CnctdStudioError>(e),
        },
{
    if !treasury.is_admin(admin) {
        return Err(CnctdStudioError::Unauthorized);
    }
    let n = args.payment_splits.len();
    if n > MAX_PAYMENT_SPLITS {
        return Err(CnctdStudioError::InvalidPaymentSplits);
    }
    if refs.len() < 2 * n {
        return Err(CnctdStudioError::NotEnoughAccounts);
    }
    let ghost splits = args.payment_splits@;
    let mut i: usize = 0;
    while i < n
        invariant
            i <= n,
            n == splits.len() <= MAX_PAYMENT_SPLITS,
            splits == args.payment_splits@,
            2 * n <= refs@.len(),
            treasury.has_admin(admin.key()),
            forall|j: int| 0 <= j < i ==> #[trigger] refs@[j].key() == splits[j].recipient_usdc_ata.key(),
        decreases n - i,
    {
        if !refs[i].same(&args.payment_splits[i].recipient_usdc_ata) {
            assert(refs@[i as int].key() != splits[i as int].recipient_usdc_ata.key());
            return Err(CnctdStudioError::InvalidPaymentReceiver);
        }
        i = i + 1;
    }
    let ghost rewards = refs@.skip(n as int);
    let mut k: usize = 0;
    while k < n
        invariant
            k <= n,
            n == splits.len() <= MAX_PAYMENT_SPLITS,
            splits == args.payment_splits@,
            2 * n <= refs@.len(),
            rewards == refs@.skip(n as int),
            payment_refs_match(splits, refs@),
            treasury.has_admin(admin.key()),
            forall|j: int| 0 <= j < k ==> #[trigger] rewards[j].key() == splits[j].recipient_cnctd_ata.key(),
        decreases n - k,
    {
        if !refs[n + k].same(&args.payment_splits[k].recipient_cnctd_ata) {
            assert(rewards[k as int].key() != splits[k as int].recipient_cnctd_ata.key());
            return Err(CnctdStudioError::InvalidPaymentReceiver);
        }
        k = k + 1;
    }
    let sum = split_sum(&args.payment_splits);
    let total_wide: u128 = args.treasury_fee as u128 + sum;
    if total_wide > buyer_balance as u128 {
        return Err(CnctdStudioError::InsufficientFunds);
    }
    let total = total_wide as u64;
    let music = match buyer_reward(rule, total) {
        Some(m) => m,
        None => {
            return Err(CnctdStudioError::InvalidInput);
        },
    };
    let owed = match reimbursement_amount(args.fee_compensation, costs.access_record) {
        Some(o) => o,
        None => {
            return Err(CnctdStudioError::InsufficientFunds);
        },
    };
    let per_artist: u64 = if n > 0 {
        creator_reward(total, n)
    } else {
        0
    };
    let mut plan: Vec<Action> = Vec::new();
    plan.push(Action::GrantAccess { created_at: args.created_at, expiration_date: args.expiration_date });
    let ghost p0 = plan@;
    if args.treasury_fee > 0 {
        plan.push(Action::Transfer { from: Holder::BuyerPayment, to: Holder::TreasuryPayment, amount: args.treasury_fee });
    }
    let ghost p1 = plan@;
    build_payouts(&mut plan, Holder::BuyerPayment, &args.payment_splits);
    let ghost p2 = plan@;
    if music > 0 {
        plan.push(Action::MintReward { token: RewardToken::Music, to: Holder::BuyerRewards, amount: music });
    }
    let ghost p3 = plan@;
    build_creator_mints(&mut plan, &args.payment_splits, per_artist);
    let ghost p4 = plan@;
    plan.push(Action::Reimburse { amount: owed });
    proof {
        let fee_part = when(
            args.treasury_fee > 0,
            seq![Action::Transfer { from: Holder::BuyerPayment, to: Holder::TreasuryPayment, amount: args.treasury_fee }],
        );
        let music_part = when(
            music > 0,
            seq![Action::MintReward { token: RewardToken::Music, to: Holder::BuyerRewards, amount: music }],
        );
        assert(p1 =~= p0 + fee_part);
        assert(p3 =~= p2 + music_part);
        let oc = purchase_access_outcome(true, *args, refs@, buyer_balance, *costs, rule);
        assert(reward_refs_match(splits, refs@.skip(n as int)));
        assert(oc->Ok_0 =~= plan@);
    }
    Ok(plan)
}

/// Releases an access grant's storage on behalf of an administrator and
/// reimburses the administrator's declared compensation.
pub fn close_release_access(treasury: &Treasury, admin: &Address, args: &CloseReleaseAccessArgs) -> (r: Result<Vec<Action>, CnctdStudioError>)
    ensures
        !treasury.has_admin(admin.key()) ==> r == Err::<Vec<Action>, CnctdStudioError>(CnctdStudioError::Unauthorized),
        treasury.has_admin(admin.key()) ==> r is Ok && r->Ok_0@ == seq![
            Action::CloseAccessRecord,
            Action::Reimburse { amount: args.fee_compensation.unwrap_or(0) },
        ],
{
    if !treasury.is_admin(admin) {
        return Err(CnctdStudioError::Unauthorized);
    }
    let owed = match args.fee_compensation {
        Some(f) => f,
        None => 0,
    };
    let mut plan: Vec<Action> = Vec::new();
    plan.push(Action::CloseAccessRecord);
    plan.push(Action::Reimburse { amount: owed });
    assert(plan@ =~= seq![Action::CloseAccessRecord, Action::Reimburse { amount: owed }]);
    Ok(plan)
}

/// Fulfils an escrow entry by minting the collectible to the buyer.
pub fn fulfill_release_nft(
    escrow: &mut ReleaseEscrow,
    treasury: &Treasury,
    admin: &Address,
    args: &FulfillReleaseArgs,
    recipient_refs: &Vec<Address>,
    costs: &RentCosts,
) -> (r: Result<Vec<Action>, CnctdStudioError>)
    ensures
        settles(
            fulfill_outcome(
                old(escrow)@,
                treasury.has_admin(admin.key()),
                recipient_refs@,
                args.fee_compensation,
                *costs,
                Delivery::Collectible,
            ),
            old(escrow)@,
            final(escrow)@,
            r,
        ),
{
    fulfill(escrow, treasury, admin, recipient_refs, args.fee_compensation, costs, Delivery::Collectible)
}

/// Fulfils an escrow entry by granting the buyer access instead of a collectible.
pub fn fulfill_release_access(
    escrow: &mut ReleaseEscrow,
    treasury: &Treasury,
    admin: &Address,
    args: &FulfillReleaseArgs,
    recipient_refs: &Vec<Address>,
    costs: &RentCosts,
) -> (r: Result<Vec<Action>, CnctdStudioError>)
    ensures
        settles(
            fulfill_outcome(
                old(escrow)@,
                treasury.has_admin(admin.key()),
                recipient_refs@,
                args.fee_compensation,
                *costs,
                Delivery::Access { created_at: args.created_at, expiration_date: args.expiration_date },
            ),
            old(escrow)@,
            final(escrow)@,
            r,
        ),
{
    let delivery = Delivery::Access { created_at: args.created_at, expiration_date: args.expiration_date };
    fulfill(escrow, treasury, admin, recipient_refs, args.fee_compensation, costs, delivery)
}

} // verus!
