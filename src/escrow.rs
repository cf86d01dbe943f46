use vstd::prelude::*;

use crate::address::Address;
use crate::errors::CnctdStudioError;
use crate::rewards::{
    buyer_reward, buyer_reward_amount, build_creator_mints, creator_mints, creator_reward,
    creator_reward_amount, BuyerReward,
};
use crate::state::{
    split_total, EscrowView, PaymentSplit, ReleaseEscrow, Treasury, MAX_ID_LEN, MAX_PAYMENT_SPLITS,
};
use vstd::utf8::encode_utf8;

verus! {

/// Rent charged for a collectible's metadata record, in lamports.
pub const METADATA_RENT: u64 = 15_115_600;

/// A token holder that a settlement step moves funds between.
#[derive(Clone, Copy, Debug, PartialEq, Eq, Hash)]
pub enum Holder {
    /// The buyer's payment holder.
    BuyerPayment,
    /// The buyer's reward-token holder.
    BuyerRewards,
    /// The escrow entry's custodial holder.
    Custody,
    /// The operator's fee-collection holder.
    TreasuryPayment,
    /// A holder named by a payment split.
    Recipient(Address),
}

/// The two reward assets, both minted under the operator's authority.
#[derive(Clone, Copy, Debug, PartialEq, Eq, Structural)]
pub enum RewardToken {
    /// The listener reward, minted to the buyer.
    Music,
    /// The creator reward, minted to the recipients.
    Cnctd,
}

/// One step of a settlement, to be carried out in order by the caller.
#[derive(Clone, Copy, Debug, PartialEq, Eq)]
pub enum Action {
    /// Move `amount` of the payment asset.
    Transfer { from: Holder, to: Holder, amount: u64 },
    /// Mint `amount` of a reward asset.
    MintReward { token: RewardToken, to: Holder, amount: u64 },
    /// Mint one collectible unit to the buyer and attach its metadata.
    MintCollectible,
    /// Create the buyer's access grant.
    GrantAccess { created_at: i64, expiration_date: Option<i64> },
    /// Close the custodial holder; its deposit returns to the treasury.
    CloseCustody,
    /// Release the escrow entry's storage; its deposit returns to the treasury.
    CloseEscrowRecord,
    /// Release the access grant's storage; its deposit returns to the treasury.
    CloseAccessRecord,
    /// Pay the calling administrator `amount` lamports from the treasury.
    Reimburse { amount: u64 },
}

/// Storage deposits for the record sizes the engine creates, in lamports.
#[derive(Clone, Copy, Debug, PartialEq, Eq, Structural)]
pub struct RentCosts {
    /// Deposit for a mint record.
    pub mint_account: u64,
    /// Deposit for a token holder.
    pub token_account: u64,
    /// Deposit for an escrow entry (`ReleaseEscrow::space()` bytes).
    pub escrow_record: u64,
    /// Deposit for an access grant (`ReleaseAccess::space()` bytes).
    pub access_record: u64,
}

/// How an escrow entry is delivered to the buyer.
#[derive(Clone, Copy, Debug, PartialEq, Eq, Structural)]
pub enum Delivery {
    Collectible,
    Access { created_at: i64, expiration_date: Option<i64> },
}

/// Arguments of `open_escrow`.
#[derive(Clone, Debug)]
pub struct OpenEscrowArgs {
    pub buyer_id: String,
    pub release_id: String,
    pub treasury_fee: u64,
    pub payment_splits: Vec<PaymentSplit>,
    pub purchase_date: i64,
    pub fee_compensation: Option<u64>,
}

/// Funds that leave the custodial holder in a plan.
pub open spec fn custody_outflow(plan: Seq<Action>) -> int
    decreases plan.len(),
{
    if plan.len() == 0 {
        0
    } else {
        custody_outflow(plan.drop_last()) + match plan.last() {
            Action::Transfer { from: Holder::Custody, to: _, amount } => amount as int,
            _ => 0int,
        }
    }
}

/// Funds that leave the buyer's payment holder in a plan.
pub open spec fn buyer_outflow(plan: Seq<Action>) -> int
    decreases plan.len(),
{
    if plan.len() == 0 {
        0
    } else {
        buyer_outflow(plan.drop_last()) + match plan.last() {
            Action::Transfer { from: Holder::BuyerPayment, to: _, amount } => amount as int,
            _ => 0int,
        }
    }
}

/// The transfers from `from` that pay the splits, in table order, skipping
/// zero amounts.
pub open spec fn payouts(from: Holder, splits: Seq<PaymentSplit>) -> Seq<Action>
    decreases splits.len(),
{
    if splits.len() == 0 {
        seq![]
    } else if splits.last().amount == 0 {
        payouts(from, splits.drop_last())
    } else {
        payouts(from, splits.drop_last()).push(
            Action::Transfer {
                from,
                to: Holder::Recipient(splits.last().recipient_usdc_ata),
                amount: splits.last().amount,
            },
        )
    }
}

/// Each split's payment holder is the reference supplied at its position.
pub open spec fn payment_refs_match(splits: Seq<PaymentSplit>, refs: Seq<Address>) -> bool {
    &&& refs.len() >= splits.len()
    &&& forall|i: int| 0 <= i < splits.len() ==> #[trigger] refs[i].key() == splits[i].recipient_usdc_ata.key()
}

/// The lamports an administrator is owed: the declared compensation plus a deposit.
pub open spec fn reimbursement(fee_compensation: Option<u64>, rent: int) -> int {
    fee_compensation.unwrap_or(0) + rent
}

/// Deposits reimbursed for opening an entry: the entry and its custodial holder.
pub open spec fn open_rent(costs: RentCosts) -> int {
    costs.escrow_record + costs.token_account
}

/// Deposits reimbursed for delivering an entry.
pub open spec fn delivery_rent(costs: RentCosts, delivery: Delivery) -> int {
    match delivery {
        Delivery::Collectible => costs.mint_account + METADATA_RENT + costs.token_account,
        Delivery::Access { .. } => costs.access_record as int,
    }
}

pub open spec fn delivery_action(delivery: Delivery) -> Action {
    match delivery {
        Delivery::Collectible => Action::MintCollectible,
        Delivery::Access { created_at, expiration_date } => Action::GrantAccess { created_at, expiration_date },
    }
}

/// What `open_escrow` does: the new entry and the plan, or the error.
pub open spec fn open_outcome(
    e: EscrowView,
    authorized: bool,
    args: OpenEscrowArgs,
    bump: u8,
    buyer_balance: u64,
    costs: RentCosts,
) -> Result<(EscrowView, Seq<Action>), CnctdStudioError> {
    if !authorized {
        Err(CnctdStudioError::Unauthorized)
    } else if e.funded() {
        Ok((e, seq![Action::Reimburse { amount: args.fee_compensation.unwrap_or(0) }]))
    } else if encode_utf8(args.release_id@).len() > MAX_ID_LEN || encode_utf8(args.buyer_id@).len() > MAX_ID_LEN {
        Err(CnctdStudioError::InvalidInput)
    } else if args.payment_splits@.len() > MAX_PAYMENT_SPLITS {
        Err(CnctdStudioError::InvalidPaymentSplits)
    } else {
        let total = args.treasury_fee + split_total(args.payment_splits@);
        let owed = reimbursement(args.fee_compensation, open_rent(costs));
        if total > buyer_balance {
            Err(CnctdStudioError::InsufficientFunds)
        } else if owed > u64::MAX {
            Err(CnctdStudioError::InsufficientFunds)
        } else {
            Ok((
                EscrowView {
                    release_id: args.release_id@,
                    buyer_id: args.buyer_id@,
                    treasury_fee: args.treasury_fee,
                    payment_splits: args.payment_splits@,
                    total_amount: total as u64,
                    purchase_date: args.purchase_date,
                    bump,
                    ..e
                },
                seq![
                    Action::Transfer { from: Holder::BuyerPayment, to: Holder::Custody, amount: total as u64 },
                    Action::Reimburse { amount: owed as u64 },
                ],
            ))
        }
    }
}

/// What `fulfill` does: the new entry and the plan, or the error.
pub open spec fn fulfill_outcome(
    e: EscrowView,
    authorized: bool,
    refs: Seq<Address>,
    fee_compensation: Option<u64>,
    costs: RentCosts,
    delivery: Delivery,
) -> Result<(EscrowView, Seq<Action>), CnctdStudioError> {
    if !authorized {
        Err(CnctdStudioError::Unauthorized)
    } else if e.fulfilled || !e.funded() {
        Err(CnctdStudioError::EscrowAlreadyFulfilled)
    } else if refs.len() < e.payment_splits.len() {
        Err(CnctdStudioError::NotEnoughAccounts)
    } else if !payment_refs_match(e.payment_splits, refs) {
        Err(CnctdStudioError::InvalidPaymentReceiver)
    } else {
        let owed = reimbursement(fee_compensation, delivery_rent(costs, delivery));
        if owed > u64::MAX {
            Err(CnctdStudioError::InsufficientFunds)
        } else {
            Ok((
                EscrowView { payments_fulfilled: true, nft_minted: true, fulfilled: true, ..e },
                seq![Action::Transfer { from: Holder::Custody, to: Holder::TreasuryPayment, amount: e.treasury_fee }]
                    + payouts(Holder::Custody, e.payment_splits)
                    + seq![delivery_action(delivery), Action::Reimburse { amount: owed as u64 }],
            ))
        }
    }
}

/// Each split's reward holder is the reference supplied at its position.
pub open spec fn reward_refs_match(splits: Seq<PaymentSplit>, refs: Seq<Address>) -> bool {
    &&& refs.len() >= splits.len()
    &&& forall|i: int| 0 <= i < splits.len() ==> #[trigger] refs[i].key() == splits[i].recipient_cnctd_ata.key()
}

/// The creator reward per split of an entry with total `total`.
pub open spec fn per_artist_reward(total: u64, artist_count: int) -> u64 {
    if artist_count > 0 {
        creator_reward_amount(total as int, artist_count) as u64
    } else {
        0
    }
}

/// What `complete` does: the new entry and the plan, or the error.
pub open spec fn complete_outcome(
    e: EscrowView,
    authorized: bool,
    reward_refs: Seq<Address>,
    custody_balance: u64,
    rule: BuyerReward,
    fee_compensation: Option<u64>,
) -> Result<(EscrowView, Seq<Action>), CnctdStudioError> {
    if !authorized {
        Err(CnctdStudioError::Unauthorized)
    } else if !e.fulfilled {
        Err(CnctdStudioError::EscrowNotFulfilled)
    } else if !e.payments_fulfilled {
        Err(CnctdStudioError::PaymentsNotFulfilled)
    } else if !e.nft_minted {
        Err(CnctdStudioError::NFTNotMinted)
    } else if reward_refs.len() < e.payment_splits.len() {
        Err(CnctdStudioError::NotEnoughAccounts)
    } else if !reward_refs_match(e.payment_splits, reward_refs) {
        Err(CnctdStudioError::InvalidPaymentReceiver)
    } else if custody_balance > 0 {
        Err(CnctdStudioError::TokenAccountNotEmpty)
    } else if buyer_reward_amount(rule, e.total_amount as int) > u64::MAX {
        Err(CnctdStudioError::InvalidInput)
    } else {
        Ok((
            EscrowView { rewards_paid: true, ..e },
            seq![
                Action::MintReward {
                    token: RewardToken::Music,
                    to: Holder::BuyerRewards,
                    amount: buyer_reward_amount(rule, e.total_amount as int) as u64,
                },
            ] + creator_mints(e.payment_splits, per_artist_reward(e.total_amount, e.payment_splits.len() as int))
                + seq![
                Action::CloseCustody,
                Action::CloseEscrowRecord,
                Action::Reimburse { amount: fee_compensation.unwrap_or(0) },
            ],
        ))
    }
}

/// The plan that cancels an entry: whatever custody holds returns to the
/// treasury, then the custodial holder and the entry are closed.
pub open spec fn close_plan(custody_balance: u64) -> Seq<Action> {
    if custody_balance > 0 {
        seq![
            Action::Transfer { from: Holder::Custody, to: Holder::TreasuryPayment, amount: custody_balance },
            Action::CloseCustody,
            Action::CloseEscrowRecord,
        ]
    } else {
        seq![Action::CloseCustody, Action::CloseEscrowRecord]
    }
}

/// Ties an operation's result and its entry to the outcome that describes it:
/// on success the entry becomes the new one, on failure it is left unchanged.
pub open spec fn settles(
    outcome: Result<(EscrowView, Seq<Action>), CnctdStudioError>,
    before: EscrowView,
    after: EscrowView,
    r: Result<Vec<Action>, CnctdStudioError>,
) -> bool {
    match outcome {
        Ok((e, plan)) => r is Ok && r->Ok_0@ == plan && after == e,
        Err(err) => r == Err::<Vec<Action>, CnctdStudioError>(err) && after == before,
    }
}

/// Checked sum of an optional compensation and a deposit.
pub(crate) fn reimbursement_amount(fee_compensation: Option<u64>, rent: u64) -> (r: Option<u64>)
    ensures
        r == (if reimbursement(fee_compensation, rent as int) <= u64::MAX {
            Some(reimbursement(fee_compensation, rent as int) as u64)
        } else {
            None::<u64>
        }),
{
    let fee = match fee_compensation {
        Some(f) => f,
        None => 0,
    };
    fee.checked_add(rent)
}

/// Deposits reimbursed for opening an entry, or `None` when they overflow.
pub fn calculate_open_escrow_rent_cost(costs: &RentCosts) -> (r: Option<u64>)
    ensures
        r == (if open_rent(*costs) <= u64::MAX { Some(open_rent(*costs) as u64) } else { None::<u64> }),
{
    costs.escrow_record.checked_add(costs.token_account)
}

/// Deposits reimbursed for delivering an entry, or `None` when they overflow.
pub fn calculate_fulfill_rent_cost(costs: &RentCosts, delivery: Delivery) -> (r: Option<u64>)
    ensures
        r == (if delivery_rent(*costs, delivery) <= u64::MAX {
            Some(delivery_rent(*costs, delivery) as u64)
        } else {
            None::<u64>
        }),
{
    match delivery {
        Delivery::Collectible => match costs.mint_account.checked_add(METADATA_RENT) {
            Some(s) => s.checked_add(costs.token_account),
            None => None,
        },
        Delivery::Access { .. } => Some(costs.access_record),
    }
}

/// Sum of the split amounts of a table within capacity.
pub(crate) fn split_sum(splits: &Vec<PaymentSplit>) -> (r: u128)
    requires
        splits@.len() <= MAX_PAYMENT_SPLITS,
    ensures
        r == split_total(splits@),
        r <= MAX_PAYMENT_SPLITS * (u64::MAX as int),
{
    let mut sum: u128 = 0;
    let mut i: usize = 0;
    while i < splits.len()
        invariant
            i <= splits@.len() <= MAX_PAYMENT_SPLITS,
            sum == split_total(splits@.take(i as int)),
            sum <= i * (u64::MAX as int),
        decreases splits@.len() - i,
    {
        assert(splits@.take(i as int + 1).drop_last() =~= splits@.take(i as int));
        assert((i + 1) * (u64::MAX as int) == i * (u64::MAX as int) + u64::MAX) by (nonlinear_arith);
        sum = sum + splits[i].amount as u128;
        i = i + 1;
    }
    assert(splits@.take(i as int) =~= splits@);
    assert(i * (u64::MAX as int) <= MAX_PAYMENT_SPLITS * (u64::MAX as int)) by (nonlinear_arith)
        requires
            i <= MAX_PAYMENT_SPLITS,
    ;
    sum
}

/// Locks a buyer's payment into an escrow entry.
///
/// On an entry that is already funded this is a retry: the buyer is not
/// charged again, nothing is recorded, and only the administrator's declared
/// compensation is paid. On a new entry the identifiers must fit the record,
/// the fee and the splits are recorded, and their sum moves from the buyer to
/// custody, provided `buyer_balance` covers it.
pub fn open_escrow(
    escrow: &mut ReleaseEscrow,
    treasury: &Treasury,
    admin: &Address,
    args: &OpenEscrowArgs,
    bump: u8,
    buyer_balance: u64,
    costs: &RentCosts,
) -> (r: Result<Vec<Action>, CnctdStudioError>)
    ensures
        settles(
            open_outcome(old(escrow)@, treasury.has_admin(admin.key()), *args, bump, buyer_balance, *costs),
            old(escrow)@,
            final(escrow)@,
            r,
        ),
{
    if !treasury.is_admin(admin) {
        return Err(CnctdStudioError::Unauthorized);
    }
    if escrow.total_amount > 0 {
        let owed = match args.fee_compensation {
            Some(f) => f,
            None => 0,
        };
        let mut plan: Vec<Action> = Vec::new();
        plan.push(Action::Reimburse { amount: owed });
        assert(plan@ =~= seq![Action::Reimburse { amount: owed }]);
        return Ok(plan);
    }
    let release_bytes = args.release_id.as_str().as_bytes();
    let buyer_bytes = args.buyer_id.as_str().as_bytes();
    if release_bytes.len() > MAX_ID_LEN || buyer_bytes.len() > MAX_ID_LEN {
        return Err(CnctdStudioError::InvalidInput);
    }
    if args.payment_splits.len() > MAX_PAYMENT_SPLITS {
        return Err(CnctdStudioError::InvalidPaymentSplits);
    }
    let sum = split_sum(&args.payment_splits);
    let total_wide: u128 = args.treasury_fee as u128 + sum;
    if total_wide > buyer_balance as u128 {
        return Err(CnctdStudioError::InsufficientFunds);
    }
    let total = total_wide as u64;
    let owed = match calculate_open_escrow_rent_cost(costs) {
        Some(rent) => match reimbursement_amount(args.fee_compensation, rent) {
            Some(owed) => owed,
            None => {
                return Err(CnctdStudioError::InsufficientFunds);
            },
        },
        None => {
            return Err(CnctdStudioError::InsufficientFunds);
        },
    };
    escrow.release_id = args.release_id.clone();
    escrow.buyer_id = args.buyer_id.clone();
    escrow.treasury_fee = args.treasury_fee;
    escrow.payment_splits = args.payment_splits.clone();
    assert(escrow.payment_splits@ =~= args.payment_splits@);
    escrow.total_amount = total;
    escrow.purchase_date = args.purchase_date;
    escrow.bump = bump;
    let mut plan: Vec<Action> = Vec::new();
    plan.push(Action::Transfer { from: Holder::BuyerPayment, to: Holder::Custody, amount: total });
    plan.push(Action::Reimburse { amount: owed });
    assert(plan@ =~= seq![
        Action::Transfer { from: Holder::BuyerPayment, to: Holder::Custody, amount: total },
        Action::Reimburse { amount: owed },
    ]);
    Ok(plan)
}

/// The payout transfers for `splits`, computed in table order.
pub(crate) fn build_payouts(plan: &mut Vec<Action>, from: Holder, splits: &Vec<PaymentSplit>)
    ensures
        final(plan)@ == old(plan)@ + payouts(from, splits@),
{
    let ghost start = plan@;
    let mut i: usize = 0;
    while i < splits.len()
        invariant
            i <= splits@.len(),
            plan@ == start + payouts(from, splits@.take(i as int)),
        decreases splits@.len() - i,
    {
        let split = splits[i];
        assert(splits@.take(i as int + 1).drop_last() =~= splits@.take(i as int));
        if split.amount != 0 {
            plan.push(
                Action::Transfer {
                    from,
                    to: Holder::Recipient(split.recipient_usdc_ata),
                    amount: split.amount,
                },
            );
        }
        i = i + 1;
        assert(plan@ =~= start + payouts(from, splits@.take(i as int)));
    }
    assert(splits@.take(i as int) =~= splits@);
}

/// Settles a funded entry: pays the fee to the treasury and each non-zero
/// split to its recipient, delivers the purchase, and marks the entry
/// fulfilled.
///
/// The recipient references supplied by the caller must match the recorded
/// split table position by position; on any mismatch, or when too few are
/// supplied, nothing is paid. An entry that is already fulfilled, or was
/// never funded, is refused.
pub fn fulfill(
    escrow: &mut ReleaseEscrow,
    treasury: &Treasury,
    admin: &Address,
    recipient_refs: &Vec<Address>,
    fee_compensation: Option<u64>,
    costs: &RentCosts,
    delivery: Delivery,
) -> (r: Result<Vec<Action>, CnctdStudioError>)
    ensures
        settles(
            fulfill_outcome(
                old(escrow)@,
                treasury.has_admin(admin.key()),
                recipient_refs@,
                fee_compensation,
                *costs,
                delivery,
            ),
            old(escrow)@,
            final(escrow)@,
            r,
        ),
{
    if !treasury.is_admin(admin) {
        return Err(CnctdStudioError::Unauthorized);
    }
    if escrow.fulfilled || escrow.total_amount == 0 {
        return Err(CnctdStudioError::EscrowAlreadyFulfilled);
    }
    let n = escrow.payment_splits.len();
    if recipient_refs.len() < n {
        return Err(CnctdStudioError::NotEnoughAccounts);
    }
    let mut i: usize = 0;
    while i < n
        invariant
            i <= n,
            n == escrow.payment_splits@.len(),
            n <= recipient_refs@.len(),
            escrow@ == old(escrow)@,
            treasury.has_admin(admin.key()),
            !escrow.fulfilled,
            escrow.total_amount > 0,
            forall|j: int| 0 <= j < i ==> #[trigger] recipient_refs@[j].key() == escrow.payment_splits@[j].recipient_usdc_ata.key(),
        decreases n - i,
    {
        if !recipient_refs[i].same(&escrow.payment_splits[i].recipient_usdc_ata) {
            assert(!payment_refs_match(escrow.payment_splits@, recipient_refs@)) by {
                assert(recipient_refs@[i as int].key() != escrow.payment_splits@[i as int].recipient_usdc_ata.key());
            }
            return Err(CnctdStudioError::InvalidPaymentReceiver);
        }
        i = i + 1;
    }
    let owed = match calculate_fulfill_rent_cost(costs, delivery) {
        Some(rent) => match reimbursement_amount(fee_compensation, rent) {
            Some(owed) => owed,
            None => {
                return Err(CnctdStudioError::InsufficientFunds);
            },
        },
        None => {
            return Err(CnctdStudioError::InsufficientFunds);
        },
    };
    let mut plan: Vec<Action> = Vec::new();
    plan.push(Action::Transfer { from: Holder::Custody, to: Holder::TreasuryPayment, amount: escrow.treasury_fee });
    build_payouts(&mut plan, Holder::Custody, &escrow.payment_splits);
    let handover = match delivery {
        Delivery::Collectible => Action::MintCollectible,
        Delivery::Access { created_at, expiration_date } => Action::GrantAccess { created_at, expiration_date },
    };
    plan.push(handover);
    plan.push(Action::Reimburse { amount: owed });
    escrow.payments_fulfilled = true;
    escrow.nft_minted = true;
    escrow.fulfilled = true;
    proof {
        let fee_step = seq![Action::Transfer { from: Holder::Custody, to: Holder::TreasuryPayment, amount: old(escrow).treasury_fee }];
        assert(plan@ =~= fee_step + payouts(Holder::Custody, old(escrow)@.payment_splits) + seq![delivery_action(delivery), Action::Reimburse { amount: owed }]);
    }
    Ok(plan)
}

/// Arguments of `complete`.
#[derive(Clone, Debug)]
pub struct CompleteReleaseArgs {
    pub release_id: String,
    pub buyer_id: String,
    pub fee_compensation: Option<u64>,
}

impl CompleteReleaseArgs {
    pub fn new(release_id: String, buyer_id: String, fee_compensation: Option<u64>) -> (r: Self)
        ensures
            r.release_id@ == release_id@,
            r.buyer_id@ == buyer_id@,
            r.fee_compensation == fee_compensation,
    {
        CompleteReleaseArgs { release_id, buyer_id, fee_compensation }
    }
}

/// Finishes a fulfilled entry: mints the buyer's reward and one equal creator
/// reward per split, then closes the emptied custodial holder and the entry.
///
/// The reward references supplied by the caller must match the recorded
/// reward holders position by position.
pub fn complete(
    escrow: &mut ReleaseEscrow,
    treasury: &Treasury,
    admin: &Address,
    args: &CompleteReleaseArgs,
    reward_refs: &Vec<Address>,
    custody_balance: u64,
    rule: BuyerReward,
) -> (r: Result<Vec<Action>, CnctdStudioError>)
    ensures
        settles(
            complete_outcome(
                old(escrow)@,
                treasury.has_admin(admin.key()),
                reward_refs@,
                custody_balance,
                rule,
                args.fee_compensation,
            ),
            old(escrow)@,
            final(escrow)@,
            r,
        ),
{
    if !treasury.is_admin(admin) {
        return Err(CnctdStudioError::Unauthorized);
    }
    if !escrow.fulfilled {
        return Err(CnctdStudioError::EscrowNotFulfilled);
    }
    if !escrow.payments_fulfilled {
        return Err(CnctdStudioError::PaymentsNotFulfilled);
    }
    if !escrow.nft_minted {
        return Err(CnctdStudioError::NFTNotMinted);
    }
    let n = escrow.payment_splits.len();
    if reward_refs.len() < n {
        return Err(CnctdStudioError::NotEnoughAccounts);
    }
    let mut i: usize = 0;
    while i < n
        invariant
            i <= n,
            n == escrow.payment_splits@.len(),
            n <= reward_refs@.len(),
            escrow@ == old(escrow)@,
            treasury.has_admin(admin.key()),
            escrow.fulfilled && escrow.payments_fulfilled && escrow.nft_minted,
            forall|j: int| 0 <= j < i ==> #[trigger] reward_refs@[j].key() == escrow.payment_splits@[j].recipient_cnctd_ata.key(),
        decreases n - i,
    {
        if !reward_refs[i].same(&escrow.payment_splits[i].recipient_cnctd_ata) {
            assert(reward_refs@[i as int].key() != escrow.payment_splits@[i as int].recipient_cnctd_ata.key());
            return Err(CnctdStudioError::InvalidPaymentReceiver);
        }
        i = i + 1;
    }
    if custody_balance > 0 {
        return Err(CnctdStudioError::TokenAccountNotEmpty);
    }
    let music = match buyer_reward(rule, escrow.total_amount) {
        Some(m) => m,
        None => {
            return Err(CnctdStudioError::InvalidInput);
        },
    };
    let per_artist: u64 = if n > 0 {
        creator_reward(escrow.total_amount, n)
    } else {
        0
    };
    let owed = match args.fee_compensation {
        Some(f) => f,
        None => 0,
    };
    let mut plan: Vec<Action> = Vec::new();
    plan.push(Action::MintReward { token: RewardToken::Music, to: Holder::BuyerRewards, amount: music });
    build_creator_mints(&mut plan, &escrow.payment_splits, per_artist);
    plan.push(Action::CloseCustody);
    plan.push(Action::CloseEscrowRecord);
    plan.push(Action::Reimburse { amount: owed });
    escrow.rewards_paid = true;
    proof {
        let first = seq![Action::MintReward { token: RewardToken::Music, to: Holder::BuyerRewards, amount: music }];
        assert(plan@ =~= first + creator_mints(old(escrow)@.payment_splits, per_artist) + seq![
            Action::CloseCustody,
            Action::CloseEscrowRecord,
            Action::Reimburse { amount: owed },
        ]);
        let oc = complete_outcome(old(escrow)@, true, reward_refs@, custody_balance, rule, args.fee_compensation);
        assert(oc->Ok_0.0 == escrow@);
        assert(oc->Ok_0.1 == plan@);
    }
    Ok(plan)
}

/// Cancels an entry on behalf of an administrator: returns whatever custody
/// holds to the treasury and releases the custodial holder and the entry.
pub fn close_escrow(treasury: &Treasury, admin: &Address, custody_balance: u64) -> (r: Result<Vec<Action>, CnctdStudioError>)
    ensures
        !treasury.has_admin(admin.key()) ==> r == Err::<Vec<Action>, CnctdStudioError>(CnctdStudioError::Unauthorized),
        treasury.has_admin(admin.key()) ==> r is Ok && r->Ok_0@ == close_plan(custody_balance),
{
    if !treasury.is_admin(admin) {
        return Err(CnctdStudioError::Unauthorized);
    }
    let mut plan: Vec<Action> = Vec::new();
    if custody_balance > 0 {
        plan.push(Action::Transfer { from: Holder::Custody, to: Holder::TreasuryPayment, amount: custody_balance });
    }
    plan.push(Action::CloseCustody);
    plan.push(Action::CloseEscrowRecord);
    assert(plan@ =~= close_plan(custody_balance));
    Ok(plan)
}

} // verus!
