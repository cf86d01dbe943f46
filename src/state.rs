use vstd::prelude::*;

use crate::address::Address;
use crate::errors::CnctdStudioError;

verus! {

/// Largest number of payment splits that an escrow entry can hold.
pub const MAX_PAYMENT_SPLITS: usize = 10;

/// Largest identifier an escrow entry can hold, in bytes: a UUID with its hyphens.
pub const MAX_ID_LEN: usize = 36;

/// One recipient's share of a purchase.
#[derive(Clone, Copy, Debug, PartialEq, Eq)]
pub struct PaymentSplit {
    /// Token holder that receives the payment.
    pub recipient_usdc_ata: Address,
    /// Token holder that receives the creator reward.
    pub recipient_cnctd_ata: Address,
    pub amount: u64,
}

/// Sum of the split amounts.
pub open spec fn split_total(splits: Seq<PaymentSplit>) -> int
    decreases splits.len(),
{
    if splits.len() == 0 {
        0
    } else {
        split_total(splits.drop_last()) + splits.last().amount
    }
}

/// The custodial record of one in-flight purchase.
#[derive(Clone, Debug)]
pub struct ReleaseEscrow {
    pub release_id: String,
    pub buyer_id: String,
    pub treasury_fee: u64,
    pub payment_splits: Vec<PaymentSplit>,
    pub total_amount: u64,
    /// Payments have been sent to the treasury and the recipients.
    pub payments_fulfilled: bool,
    /// The collectible (or access grant) has been delivered to the buyer.
    pub nft_minted: bool,
    /// Rewards have been issued.
    pub rewards_paid: bool,
    /// Overall completion flag.
    pub fulfilled: bool,
    pub purchase_date: i64,
    pub bump: u8,
}

/// What an escrow entry holds, as mathematical values.
pub struct EscrowView {
    pub release_id: Seq<char>,
    pub buyer_id: Seq<char>,
    pub treasury_fee: u64,
    pub payment_splits: Seq<PaymentSplit>,
    pub total_amount: u64,
    pub payments_fulfilled: bool,
    pub nft_minted: bool,
    pub rewards_paid: bool,
    pub fulfilled: bool,
    pub purchase_date: i64,
    pub bump: u8,
}

impl View for ReleaseEscrow {
    type V = EscrowView;

    open spec fn view(&self) -> EscrowView {
        EscrowView {
            release_id: self.release_id@,
            buyer_id: self.buyer_id@,
            treasury_fee: self.treasury_fee,
            payment_splits: self.payment_splits@,
            total_amount: self.total_amount,
            payments_fulfilled: self.payments_fulfilled,
            nft_minted: self.nft_minted,
            rewards_paid: self.rewards_paid,
            fulfilled: self.fulfilled,
            purchase_date: self.purchase_date,
            bump: self.bump,
        }
    }
}

impl EscrowView {
    /// The entry's total is its fee plus its splits, the split table is
    /// within its capacity, and completion implies both deliveries.
    pub open spec fn wf(self) -> bool {
        &&& self.payment_splits.len() <= MAX_PAYMENT_SPLITS
        &&& self.total_amount == self.treasury_fee + split_total(self.payment_splits)
        &&& self.fulfilled ==> self.payments_fulfilled && self.nft_minted
    }

    /// Funds have been locked: the entry shows a positive total.
    pub open spec fn funded(self) -> bool {
        self.total_amount > 0
    }
}

impl ReleaseEscrow {
    /// An entry that has not been opened yet.
    pub fn empty() -> (r: ReleaseEscrow)
        ensures
            r@.wf(),
            !r@.funded(),
            r@.payment_splits.len() == 0,
            r@.treasury_fee == 0,
            !r@.fulfilled && !r@.payments_fulfilled && !r@.nft_minted && !r@.rewards_paid,
    {
        ReleaseEscrow {
            release_id: String::new(),
            buyer_id: String::new(),
            treasury_fee: 0,
            payment_splits: Vec::new(),
            total_amount: 0,
            payments_fulfilled: false,
            nft_minted: false,
            rewards_paid: false,
            fulfilled: false,
            purchase_date: 0,
            bump: 0,
        }
    }

    /// Bytes of storage reserved for an entry: a discriminator, two
    /// identifiers of at most `MAX_ID_LEN` bytes each behind a 4-byte length,
    /// the fee, a split table of full capacity behind a 4-byte length, the
    /// total, four flags, the purchase date and the bump.
    pub fn space() -> (r: usize)
        ensures
            r == 8 + (4 + MAX_ID_LEN) + (4 + MAX_ID_LEN) + 8 + 4 + MAX_PAYMENT_SPLITS * (32 + 32 + 8) + 8 + 1 + 1
                + 1 + 1 + 8 + 1,
    {
        8 + (4 + MAX_ID_LEN) + (4 + MAX_ID_LEN) + 8 + 4 + MAX_PAYMENT_SPLITS * (32 + 32 + 8) + 8 + 1 + 1 + 1 + 1 + 8
            + 1
    }
}

/// A time- and rights-scoped grant of access, delivered in place of a collectible.
#[derive(Clone, Debug)]
pub struct ReleaseAccess {
    pub release_id: String,
    pub buyer_id: String,
    pub created_at: i64,
    pub expiration_date: Option<i64>,
}

impl ReleaseAccess {
    /// Bytes of storage reserved for an access grant: a discriminator, two
    /// identifiers of at most `MAX_ID_LEN` bytes each behind a 4-byte length,
    /// the creation date, and the optional expiration date (a tag and a date).
    pub fn space() -> (r: usize)
        ensures
            r == 8 + (4 + MAX_ID_LEN) + (4 + MAX_ID_LEN) + 8 + (1 + 8),
    {
        8 + (4 + MAX_ID_LEN) + (4 + MAX_ID_LEN) + 8 + (1 + 8)
    }
}

/// Whether `key` is one of `admins`.
pub open spec fn admin_in(admins: Seq<Address>, key: Seq<u8>) -> bool {
    exists|i: int| 0 <= i < admins.len() && #[trigger] admins[i].key() == key
}

/// The operator's registry of administrators.
#[derive(Clone, Debug)]
pub struct Treasury {
    pub admins: Vec<Address>,
    pub bump: u8,
    pub version: u8,
}

/// An administrator-roster change.
#[derive(Clone, Copy, Debug, PartialEq, Eq, Structural)]
pub enum AdminAction {
    Add,
    Remove,
}

impl Treasury {
    /// A registry always holds at least one administrator.
    pub open spec fn wf(&self) -> bool {
        self.admins@.len() >= 1
    }

    pub open spec fn has_admin(&self, key: Seq<u8>) -> bool {
        admin_in(self.admins@, key)
    }

    /// A new registry: the given administrators, or the payer alone when none
    /// are given.
    pub fn initialize(payer: &Address, initial_admins: Vec<Address>, bump: u8) -> (r: Treasury)
        ensures
            r.wf(),
            r.admins@ == (if initial_admins@.len() == 0 { seq![*payer] } else { initial_admins@ }),
            r.bump == bump,
            r.version == 1,
    {
        let mut admins = initial_admins;
        if admins.len() == 0 {
            admins.push(*payer);
            assert(admins@ =~= seq![*payer]);
        }
        Treasury { admins, bump, version: 1 }
    }

    pub fn is_admin(&self, pubkey: &Address) -> (r: bool)
        ensures
            r == self.has_admin(pubkey.key()),
    {
        let mut i: usize = 0;
        while i < self.admins.len()
            invariant
                i <= self.admins@.len(),
                forall|j: int| 0 <= j < i ==> self.admins@[j].key() != pubkey.key(),
            decreases self.admins@.len() - i,
        {
            if self.admins[i].same(pubkey) {
                return true;
            }
            i = i + 1;
        }
        false
    }

    /// Adds or removes `target_admin` on behalf of `current_admin`.
    ///
    /// Only an administrator may change the roster; an address is never listed
    /// twice, and the last administrator cannot be removed.
    pub fn update_admins(&mut self, current_admin: &Address, target_admin: &Address, action: AdminAction) -> (r: Result<(), CnctdStudioError>)
        requires
            old(self).wf(),
        ensures
            final(self).wf(),
            final(self).bump == old(self).bump,
            final(self).version == old(self).version,
            !old(self).has_admin(current_admin.key()) ==> r == Err::<(), CnctdStudioError>(CnctdStudioError::Unauthorized),
            r is Err ==> final(self).admins@ == old(self).admins@,
            old(self).has_admin(current_admin.key()) && action == AdminAction::Add ==> {
                if old(self).has_admin(target_admin.key()) {
                    r == Err::<(), CnctdStudioError>(CnctdStudioError::AdminAlreadyExists)
                } else {
                    r is Ok && final(self).admins@ == old(self).admins@.push(*target_admin)
                }
            },
            old(self).has_admin(current_admin.key()) && action == AdminAction::Remove ==> {
                if old(self).admins@.len() <= 1 {
                    r == Err::<(), CnctdStudioError>(CnctdStudioError::CannotRemoveLastAdmin)
                } else if !old(self).has_admin(target_admin.key()) {
                    r == Err::<(), CnctdStudioError>(CnctdStudioError::AdminNotFound)
                } else {
                    r is Ok && exists|i: int|
                        0 <= i < old(self).admins@.len() && old(self).admins@[i].key() == target_admin.key()
                        && (forall|j: int| 0 <= j < i ==> old(self).admins@[j].key() != target_admin.key())
                        && final(self).admins@ == old(self).admins@.remove(i)
                }
            },
    {
        if !self.is_admin(current_admin) {
            return Err(CnctdStudioError::Unauthorized);
        }
        match action {
            AdminAction::Add => {
                if self.is_admin(target_admin) {
                    return Err(CnctdStudioError::AdminAlreadyExists);
                }
                self.admins.push(*target_admin);
                Ok(())
            },
            AdminAction::Remove => {
                if self.admins.len() <= 1 {
                    return Err(CnctdStudioError::CannotRemoveLastAdmin);
                }
                let mut i: usize = 0;
                while i < self.admins.len()
                    invariant
                        i <= self.admins@.len(),
                        self.admins@ == old(self).admins@,
                        self.bump == old(self).bump,
                        self.version == old(self).version,
                        self.admins@.len() >= 2,
                        old(self).has_admin(current_admin.key()),
                        action == AdminAction::Remove,
                        forall|j: int| 0 <= j < i ==> self.admins@[j].key() != target_admin.key(),
                    decreases self.admins@.len() - i,
                {
                    if self.admins[i].same(target_admin) {
                        self.admins.remove(i);
                        return Ok(());
                    }
                    i = i + 1;
                }
                Err(CnctdStudioError::AdminNotFound)
            },
        }
    }

    /// Moves `fee_compensation` plus `additional_rent` lamports from the
    /// treasury to the administrator; all or nothing.
    pub fn reimburse_admin(
        &self,
        treasury_lamports: &mut u64,
        admin_lamports: &mut u64,
        fee_compensation: Option<u64>,
        additional_rent: Option<u64>,
    ) -> (r: Result<(), CnctdStudioError>)
        ensures
            ({
                let total = fee_compensation.unwrap_or(0) + additional_rent.unwrap_or(0);
                if total > *old(treasury_lamports) {
                    r == Err::<(), CnctdStudioError>(CnctdStudioError::InsufficientFunds)
                } else if *old(admin_lamports) + total > u64::MAX {
                    r == Err::<(), CnctdStudioError>(CnctdStudioError::OperationFailed)
                } else {
                    r is Ok && *final(treasury_lamports) == *old(treasury_lamports) - total
                        && *final(admin_lamports) == *old(admin_lamports) + total
                }
            }),
            r is Err ==> *final(treasury_lamports) == *old(treasury_lamports) && *final(admin_lamports) == *old(admin_lamports),
    {
        let fee = fee_compensation.unwrap_or(0);
        let rent = additional_rent.unwrap_or(0);
        if fee > *treasury_lamports || rent > *treasury_lamports - fee {
            return Err(CnctdStudioError::InsufficientFunds);
        }
        let total = fee + rent;
        if *admin_lamports > u64::MAX - total {
            return Err(CnctdStudioError::OperationFailed);
        }
        *treasury_lamports = *treasury_lamports - total;
        *admin_lamports = *admin_lamports + total;
        Ok(())
    }
}

} // verus!
