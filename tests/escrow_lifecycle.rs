use std::collections::HashMap;

use cnctd_studio::access::{fulfill_release_access, fulfill_release_nft, FulfillReleaseArgs};
use cnctd_studio::address::Address;
use cnctd_studio::errors::CnctdStudioError;
use cnctd_studio::escrow::{
    calculate_fulfill_rent_cost, calculate_open_escrow_rent_cost, close_escrow, complete, fulfill,
    open_escrow, Action, CompleteReleaseArgs, Delivery, Holder, OpenEscrowArgs, RentCosts,
    RewardToken, METADATA_RENT,
};
use cnctd_studio::rewards::BuyerReward;
use cnctd_studio::state::{PaymentSplit, ReleaseEscrow, Treasury};

fn addr(n: u8) -> Address {
    Address::new([n; 32])
}

fn treasury() -> Treasury {
    Treasury { admins: vec![addr(1)], bump: 255, version: 1 }
}

fn admin() -> Address {
    addr(1)
}

fn costs() -> RentCosts {
    RentCosts { mint_account: 1_461_600, token_account: 2_039_280, escrow_record: 6_633_600, access_record: 1_621_680 }
}

fn split(usdc: u8, cnctd: u8, amount: u64) -> PaymentSplit {
    PaymentSplit { recipient_usdc_ata: addr(usdc), recipient_cnctd_ata: addr(cnctd), amount }
}

fn open_args(fee: u64, splits: Vec<PaymentSplit>) -> OpenEscrowArgs {
    OpenEscrowArgs {
        buyer_id: "test-buyer-456".to_string(),
        release_id: "test-release-123".to_string(),
        treasury_fee: fee,
        payment_splits: splits,
        purchase_date: 1678900000,
        fee_compensation: Some(10000),
    }
}

fn fulfill_args() -> FulfillReleaseArgs {
    FulfillReleaseArgs {
        release_id: "test-release-123".to_string(),
        buyer_id: "test-buyer-456".to_string(),
        created_at: 1678900000,
        expiration_date: None,
        name: "Test Release".to_string(),
        symbol: "TEST".to_string(),
        metadata_uri: "https://example.com/metadata.json".to_string(),
        is_mutable: false,
        seller_fee_basis_points: 500,
        creators: Vec::new(),
        fee_compensation: Some(10000),
    }
}

/// Net balance change of each holder after carrying out the transfers of a plan.
fn balance_changes(plan: &[Action]) -> HashMap<Holder, i128> {
    let mut changes = HashMap::new();
    for action in plan {
        if let Action::Transfer { from, to, amount } = action {
            *changes.entry(*from).or_insert(0) -= *amount as i128;
            *changes.entry(*to).or_insert(0) += *amount as i128;
        }
    }
    changes
}

fn change(plan: &[Action], holder: Holder) -> i128 {
    balance_changes(plan).get(&holder).copied().unwrap_or(0)
}

fn opened_scenario() -> ReleaseEscrow {
    let mut escrow = ReleaseEscrow::empty();
    let args = open_args(500_000, vec![split(11, 21, 1_000_000), split(12, 22, 1_000_000)]);
    open_escrow(&mut escrow, &treasury(), &admin(), &args, 254, 10_000_000, &costs()).unwrap();
    escrow
}

#[test]
fn scenario_open_locks_total() {
    let mut escrow = ReleaseEscrow::empty();
    let args = open_args(500_000, vec![split(11, 21, 1_000_000), split(12, 22, 1_000_000)]);
    let plan = open_escrow(&mut escrow, &treasury(), &admin(), &args, 254, 10_000_000, &costs()).unwrap();
    assert_eq!(escrow.total_amount, 2_500_000);
    assert_eq!(escrow.treasury_fee, 500_000);
    assert_eq!(escrow.payment_splits.len(), 2);
    assert_eq!(escrow.release_id, "test-release-123");
    assert_eq!(escrow.buyer_id, "test-buyer-456");
    assert_eq!(escrow.purchase_date, 1678900000);
    assert_eq!(escrow.bump, 254);
    assert!(!escrow.fulfilled);
    assert_eq!(change(&plan, Holder::BuyerPayment), -2_500_000);
    assert_eq!(change(&plan, Holder::Custody), 2_500_000);
    let rent = 6_633_600 + 2_039_280;
    assert_eq!(plan.last(), Some(&Action::Reimburse { amount: 10000 + rent }));
}

#[test]
fn scenario_fulfill_pays_everyone() {
    let mut escrow = opened_scenario();
    let refs = vec![addr(11), addr(12)];
    let plan = fulfill(&mut escrow, &treasury(), &admin(), &refs, Some(10000), &costs(), Delivery::Collectible).unwrap();
    assert_eq!(change(&plan, Holder::TreasuryPayment), 500_000);
    assert_eq!(change(&plan, Holder::Recipient(addr(11))), 1_000_000);
    assert_eq!(change(&plan, Holder::Recipient(addr(12))), 1_000_000);
    assert_eq!(change(&plan, Holder::Custody), -2_500_000);
    assert_eq!(plan.iter().filter(|a| **a == Action::MintCollectible).count(), 1);
    assert!(escrow.payments_fulfilled && escrow.nft_minted && escrow.fulfilled);
    let rent = 1_461_600 + METADATA_RENT + 2_039_280;
    assert_eq!(plan.last(), Some(&Action::Reimburse { amount: 10000 + rent }));
}

#[test]
fn scenario_second_fulfill_refused() {
    let mut escrow = opened_scenario();
    let refs = vec![addr(11), addr(12)];
    fulfill(&mut escrow, &treasury(), &admin(), &refs, None, &costs(), Delivery::Collectible).unwrap();
    let before = escrow.clone();
    let again = fulfill(&mut escrow, &treasury(), &admin(), &refs, None, &costs(), Delivery::Collectible);
    assert_eq!(again, Err(CnctdStudioError::EscrowAlreadyFulfilled));
    assert_eq!(escrow.total_amount, before.total_amount);
    assert_eq!(escrow.fulfilled, before.fulfilled);
}

#[test]
fn scenario_open_insufficient_funds() {
    let mut escrow = ReleaseEscrow::empty();
    let args = open_args(500_000, vec![split(11, 21, 1_000_000), split(12, 22, 1_000_000)]);
    let r = open_escrow(&mut escrow, &treasury(), &admin(), &args, 254, 2_499_999, &costs());
    assert_eq!(r, Err(CnctdStudioError::InsufficientFunds));
    assert_eq!(escrow.total_amount, 0);
    assert!(escrow.payment_splits.is_empty());
}

#[test]
fn scenario_close_returns_custody() {
    let plan = close_escrow(&treasury(), &admin(), 2_500_000).unwrap();
    assert_eq!(
        plan,
        vec![
            Action::Transfer { from: Holder::Custody, to: Holder::TreasuryPayment, amount: 2_500_000 },
            Action::CloseCustody,
            Action::CloseEscrowRecord,
        ]
    );
    assert_eq!(change(&plan, Holder::TreasuryPayment), 2_500_000);
}

#[test]
fn close_empty_custody_skips_transfer() {
    let plan = close_escrow(&treasury(), &admin(), 0).unwrap();
    assert_eq!(plan, vec![Action::CloseCustody, Action::CloseEscrowRecord]);
}

#[test]
fn close_unauthorized() {
    assert_eq!(close_escrow(&treasury(), &addr(9), 5), Err(CnctdStudioError::Unauthorized));
}

#[test]
fn test_payment_limits() {
    let splits: Vec<PaymentSplit> = (0..8u8).map(|i| split(30 + i, 50 + i, 1_000_000)).collect();
    let mut escrow = ReleaseEscrow {
        release_id: "test-release-123".to_string(),
        buyer_id: "test-buyer-456".to_string(),
        treasury_fee: 500_000,
        payment_splits: splits.clone(),
        total_amount: 8_500_000,
        payments_fulfilled: false,
        nft_minted: false,
        rewards_paid: false,
        fulfilled: false,
        purchase_date: 1678900000,
        bump: 254,
    };
    let refs: Vec<Address> = splits.iter().map(|s| s.recipient_usdc_ata).collect();
    let args = fulfill_args();
    let plan = fulfill_release_nft(&mut escrow, &treasury(), &admin(), &args, &refs, &costs()).unwrap();
    assert_eq!(change(&plan, Holder::Custody), -8_500_000);
    for s in &splits {
        assert_eq!(change(&plan, Holder::Recipient(s.recipient_usdc_ata)), 1_000_000);
    }
    assert!(escrow.fulfilled);
}

#[test]
fn open_is_idempotent() {
    let mut escrow = opened_scenario();
    let args = open_args(500_000, vec![split(11, 21, 1_000_000), split(12, 22, 1_000_000)]);
    let plan = open_escrow(&mut escrow, &treasury(), &admin(), &args, 254, 10_000_000, &costs()).unwrap();
    assert_eq!(escrow.total_amount, 2_500_000);
    assert_eq!(change(&plan, Holder::BuyerPayment), 0);
    assert_eq!(plan, vec![Action::Reimburse { amount: 10000 }]);
}

#[test]
fn open_keeps_total_invariant() {
    let mut escrow = ReleaseEscrow::empty();
    let args = open_args(7, vec![split(11, 21, 3), split(12, 22, 0), split(13, 23, 40)]);
    open_escrow(&mut escrow, &treasury(), &admin(), &args, 1, 100, &costs()).unwrap();
    let sum: u64 = escrow.payment_splits.iter().map(|s| s.amount).sum();
    assert_eq!(escrow.total_amount, escrow.treasury_fee + sum);
    assert_eq!(escrow.total_amount, 50);
}

#[test]
fn open_unauthorized() {
    let mut escrow = ReleaseEscrow::empty();
    let args = open_args(1, vec![]);
    let r = open_escrow(&mut escrow, &treasury(), &addr(9), &args, 1, 100, &costs());
    assert_eq!(r, Err(CnctdStudioError::Unauthorized));
    assert_eq!(escrow.total_amount, 0);
}

#[test]
fn open_too_many_splits() {
    let mut escrow = ReleaseEscrow::empty();
    let splits: Vec<PaymentSplit> = (0..11u8).map(|i| split(30 + i, 50 + i, 1)).collect();
    let r = open_escrow(&mut escrow, &treasury(), &admin(), &open_args(1, splits), 1, 100, &costs());
    assert_eq!(r, Err(CnctdStudioError::InvalidPaymentSplits));
}

#[test]
fn open_with_ten_splits_accepted() {
    let mut escrow = ReleaseEscrow::empty();
    let splits: Vec<PaymentSplit> = (0..10u8).map(|i| split(30 + i, 50 + i, u64::MAX / 16)).collect();
    let total = 10 * (u64::MAX / 16);
    let r = open_escrow(&mut escrow, &treasury(), &admin(), &open_args(0, splits), 1, u64::MAX, &costs());
    assert!(r.is_ok());
    assert_eq!(escrow.total_amount, total);
}

#[test]
fn open_total_overflowing_u64_is_insufficient() {
    let mut escrow = ReleaseEscrow::empty();
    let splits = vec![split(11, 21, u64::MAX), split(12, 22, 1)];
    let r = open_escrow(&mut escrow, &treasury(), &admin(), &open_args(0, splits), 1, u64::MAX, &costs());
    assert_eq!(r, Err(CnctdStudioError::InsufficientFunds));
}

#[test]
fn open_reimbursement_overflow_is_insufficient() {
    let mut escrow = ReleaseEscrow::empty();
    let mut args = open_args(1, vec![]);
    args.fee_compensation = Some(u64::MAX);
    let r = open_escrow(&mut escrow, &treasury(), &admin(), &args, 1, 100, &costs());
    assert_eq!(r, Err(CnctdStudioError::InsufficientFunds));
    assert_eq!(escrow.total_amount, 0);
}

#[test]
fn fulfill_substituted_recipient_refused() {
    let mut escrow = opened_scenario();
    let refs = vec![addr(11), addr(99)];
    let r = fulfill(&mut escrow, &treasury(), &admin(), &refs, None, &costs(), Delivery::Collectible);
    assert_eq!(r, Err(CnctdStudioError::InvalidPaymentReceiver));
    assert!(!escrow.fulfilled && !escrow.payments_fulfilled);
}

#[test]
fn fulfill_too_few_references() {
    let mut escrow = opened_scenario();
    let refs = vec![addr(11)];
    let r = fulfill(&mut escrow, &treasury(), &admin(), &refs, None, &costs(), Delivery::Collectible);
    assert_eq!(r, Err(CnctdStudioError::NotEnoughAccounts));
}

#[test]
fn fulfill_unfunded_entry_refused() {
    let mut escrow = ReleaseEscrow::empty();
    let r = fulfill(&mut escrow, &treasury(), &admin(), &vec![], None, &costs(), Delivery::Collectible);
    assert_eq!(r, Err(CnctdStudioError::EscrowAlreadyFulfilled));
}

#[test]
fn fulfill_unauthorized() {
    let mut escrow = opened_scenario();
    let r = fulfill(&mut escrow, &treasury(), &addr(9), &vec![addr(11), addr(12)], None, &costs(), Delivery::Collectible);
    assert_eq!(r, Err(CnctdStudioError::Unauthorized));
}

#[test]
fn fulfill_skips_zero_splits() {
    let mut escrow = ReleaseEscrow::empty();
    let args = open_args(5, vec![split(11, 21, 0), split(12, 22, 9)]);
    open_escrow(&mut escrow, &treasury(), &admin(), &args, 1, 100, &costs()).unwrap();
    let plan = fulfill(&mut escrow, &treasury(), &admin(), &vec![addr(11), addr(12)], None, &costs(), Delivery::Collectible)
        .unwrap();
    let transfers = plan.iter().filter(|a| matches!(a, Action::Transfer { .. })).count();
    assert_eq!(transfers, 2);
    assert_eq!(change(&plan, Holder::Recipient(addr(11))), 0);
    assert_eq!(change(&plan, Holder::Custody), -14);
}

#[test]
fn fulfill_access_branch_grants_access() {
    let mut escrow = opened_scenario();
    let mut args = fulfill_args();
    args.expiration_date = Some(1700000000);
    let plan = fulfill_release_access(&mut escrow, &treasury(), &admin(), &args, &vec![addr(11), addr(12)], &costs()).unwrap();
    assert!(plan.contains(&Action::GrantAccess { created_at: 1678900000, expiration_date: Some(1700000000) }));
    assert!(!plan.contains(&Action::MintCollectible));
    assert_eq!(plan.last(), Some(&Action::Reimburse { amount: 10000 + 1_621_680 }));
    assert!(escrow.fulfilled);
}

#[test]
fn complete_mints_rewards_and_closes() {
    let mut escrow = opened_scenario();
    fulfill(&mut escrow, &treasury(), &admin(), &vec![addr(11), addr(12)], None, &costs(), Delivery::Collectible).unwrap();
    let args = CompleteReleaseArgs::new("test-release-123".to_string(), "test-buyer-456".to_string(), Some(5000));
    let plan = complete(&mut escrow, &treasury(), &admin(), &args, &vec![addr(21), addr(22)], 0, BuyerReward::TotalPaid).unwrap();
    assert_eq!(
        plan,
        vec![
            Action::MintReward { token: RewardToken::Music, to: Holder::BuyerRewards, amount: 2_500_000 },
            Action::MintReward { token: RewardToken::Cnctd, to: Holder::Recipient(addr(21)), amount: 1_250_000 },
            Action::MintReward { token: RewardToken::Cnctd, to: Holder::Recipient(addr(22)), amount: 1_250_000 },
            Action::CloseCustody,
            Action::CloseEscrowRecord,
            Action::Reimburse { amount: 5000 },
        ]
    );
    assert!(escrow.rewards_paid);
}

#[test]
fn complete_rounds_creator_reward_half_up() {
    let mut escrow = ReleaseEscrow::empty();
    let args = open_args(1, vec![split(11, 21, 1), split(12, 22, 1), split(13, 23, 2)]);
    open_escrow(&mut escrow, &treasury(), &admin(), &args, 1, 100, &costs()).unwrap();
    fulfill(&mut escrow, &treasury(), &admin(), &vec![addr(11), addr(12), addr(13)], None, &costs(), Delivery::Collectible)
        .unwrap();
    let cargs = CompleteReleaseArgs::new(String::new(), String::new(), None);
    let plan = complete(&mut escrow, &treasury(), &admin(), &cargs, &vec![addr(21), addr(22), addr(23)], 0, BuyerReward::PercentOfTotal(5))
        .unwrap();
    // 5 split three ways is 1.67, which rounds to 2; 5% of 5 rounds down to 0.
    assert_eq!(plan[0], Action::MintReward { token: RewardToken::Music, to: Holder::BuyerRewards, amount: 0 });
    assert_eq!(plan[1], Action::MintReward { token: RewardToken::Cnctd, to: Holder::Recipient(addr(21)), amount: 2 });
}

#[test]
fn complete_requires_fulfilled() {
    let mut escrow = opened_scenario();
    let args = CompleteReleaseArgs::new(String::new(), String::new(), None);
    let r = complete(&mut escrow, &treasury(), &admin(), &args, &vec![addr(21), addr(22)], 0, BuyerReward::TotalPaid);
    assert_eq!(r, Err(CnctdStudioError::EscrowNotFulfilled));
}

#[test]
fn complete_requires_payments_and_collectible() {
    let args = CompleteReleaseArgs::new(String::new(), String::new(), None);
    let mut escrow = opened_scenario();
    escrow.fulfilled = true;
    escrow.nft_minted = true;
    let r = complete(&mut escrow, &treasury(), &admin(), &args, &vec![addr(21), addr(22)], 0, BuyerReward::TotalPaid);
    assert_eq!(r, Err(CnctdStudioError::PaymentsNotFulfilled));
    escrow.payments_fulfilled = true;
    escrow.nft_minted = false;
    let r = complete(&mut escrow, &treasury(), &admin(), &args, &vec![addr(21), addr(22)], 0, BuyerReward::TotalPaid);
    assert_eq!(r, Err(CnctdStudioError::NFTNotMinted));
}

#[test]
fn complete_checks_reward_references_and_custody() {
    let mut escrow = opened_scenario();
    fulfill(&mut escrow, &treasury(), &admin(), &vec![addr(11), addr(12)], None, &costs(), Delivery::Collectible).unwrap();
    let args = CompleteReleaseArgs::new(String::new(), String::new(), None);
    let r = complete(&mut escrow, &treasury(), &admin(), &args, &vec![addr(21)], 0, BuyerReward::TotalPaid);
    assert_eq!(r, Err(CnctdStudioError::NotEnoughAccounts));
    let r = complete(&mut escrow, &treasury(), &admin(), &args, &vec![addr(21), addr(11)], 0, BuyerReward::TotalPaid);
    assert_eq!(r, Err(CnctdStudioError::InvalidPaymentReceiver));
    let r = complete(&mut escrow, &treasury(), &admin(), &args, &vec![addr(21), addr(22)], 3, BuyerReward::TotalPaid);
    assert_eq!(r, Err(CnctdStudioError::TokenAccountNotEmpty));
    assert!(!escrow.rewards_paid);
}

#[test]
fn complete_reward_too_large_is_invalid_input() {
    let mut escrow = ReleaseEscrow::empty();
    let args = open_args(u64::MAX, vec![]);
    open_escrow(&mut escrow, &treasury(), &admin(), &args, 1, u64::MAX, &costs()).unwrap();
    fulfill(&mut escrow, &treasury(), &admin(), &vec![], None, &costs(), Delivery::Collectible).unwrap();
    let cargs = CompleteReleaseArgs::new(String::new(), String::new(), None);
    let r = complete(&mut escrow, &treasury(), &admin(), &cargs, &vec![], 0, BuyerReward::PercentOfTotal(200));
    assert_eq!(r, Err(CnctdStudioError::InvalidInput));
}

#[test]
fn rent_costs_add_up() {
    assert_eq!(calculate_open_escrow_rent_cost(&costs()), Some(6_633_600 + 2_039_280));
    assert_eq!(calculate_fulfill_rent_cost(&costs(), Delivery::Collectible), Some(1_461_600 + 15_115_600 + 2_039_280));
    let huge = RentCosts { mint_account: u64::MAX, token_account: 1, escrow_record: u64::MAX, access_record: 0 };
    assert_eq!(calculate_open_escrow_rent_cost(&huge), None);
    assert_eq!(calculate_fulfill_rent_cost(&huge, Delivery::Collectible), None);
}

#[test]
fn open_retry_ignores_new_arguments() {
    let mut escrow = opened_scenario();
    let mut args = open_args(1, vec![split(99, 98, 5)]);
    args.fee_compensation = None;
    let plan = open_escrow(&mut escrow, &treasury(), &admin(), &args, 7, 0, &costs()).unwrap();
    assert_eq!(plan, vec![Action::Reimburse { amount: 0 }]);
    assert_eq!(escrow.total_amount, 2_500_000);
    assert_eq!(escrow.treasury_fee, 500_000);
    assert_eq!(escrow.bump, 254);
}

#[test]
fn open_identifier_too_long() {
    let mut escrow = ReleaseEscrow::empty();
    let mut args = open_args(1, vec![]);
    args.release_id = "x".repeat(37);
    let r = open_escrow(&mut escrow, &treasury(), &admin(), &args, 1, 100, &costs());
    assert_eq!(r, Err(CnctdStudioError::InvalidInput));
    assert_eq!(escrow.total_amount, 0);
}

#[test]
fn open_accepts_hyphenated_uuids() {
    let mut escrow = ReleaseEscrow::empty();
    let mut args = open_args(1, vec![]);
    args.release_id = "123e4567-e89b-12d3-a456-426614174000".to_string();
    args.buyer_id = "123e4567-e89b-12d3-a456-426614174001".to_string();
    assert!(open_escrow(&mut escrow, &treasury(), &admin(), &args, 1, 100, &costs()).is_ok());
    assert_eq!(escrow.release_id.len(), 36);
}
