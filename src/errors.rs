use vstd::prelude::*;

verus! {

/// Every failure that the settlement engine reports.
#[derive(Clone, Copy, Debug, PartialEq, Eq, Structural)]
pub enum CnctdStudioError {
    NotImplemented,
    InvalidInput,
    Unauthorized,
    NotFound,
    OperationFailed,
    InsufficientFunds,
    InvalidTokenAccountOwner,
    InvalidTreasuryATA,
    InvalidTreasuryPDA,
    InvalidMint,
    InvalidMintAuthority,
    InvalidArtistPDA,
    InvalidTokenAccount,
    InvalidTokenMint,
    InvalidSplitTotal,
    CannotRemoveLastAdmin,
    AdminAlreadyExists,
    InvalidUser,
    AdminNotFound,
    NotEnoughAccounts,
    EscrowAlreadyFulfilled,
    TokenAccountNotEmpty,
    CloseAccountFailed,
    TransferFailed,
    InvalidPaymentReceiver,
    InvalidPaymentSplits,
    EscrowNotFulfilled,
    PaymentsNotFulfilled,
    NFTNotMinted,
}

/// The human-readable message of each error.
pub open spec fn error_message(e: CnctdStudioError) -> &'static str {
    match e {
        CnctdStudioError::NotImplemented => "Not implemented yet.",
        CnctdStudioError::InvalidInput => "Invalid input provided.",
        CnctdStudioError::Unauthorized => "Unauthorized action.",
        CnctdStudioError::NotFound => "Resource not found.",
        CnctdStudioError::OperationFailed => "Operation failed due to an unknown error.",
        CnctdStudioError::InsufficientFunds => "Insufficient funds.",
        CnctdStudioError::InvalidTokenAccountOwner => "Invalid token account owner",
        CnctdStudioError::InvalidTreasuryATA => "Treasury ATA does not match expected address",
        CnctdStudioError::InvalidTreasuryPDA => "Treasury PDA does not match expected address",
        CnctdStudioError::InvalidMint => "Invalid Mint",
        CnctdStudioError::InvalidMintAuthority => "Invalid Mint Authority",
        CnctdStudioError::InvalidArtistPDA => "Invalid artist PDA",
        CnctdStudioError::InvalidTokenAccount => "Invalid token account",
        CnctdStudioError::InvalidTokenMint => "Invalid token mint",
        CnctdStudioError::InvalidSplitTotal => "Splits must add up to 100%",
        CnctdStudioError::CannotRemoveLastAdmin => "Cannot remove the last admin",
        CnctdStudioError::AdminAlreadyExists => "Admin already exists",
        CnctdStudioError::InvalidUser => "Invalid user",
        CnctdStudioError::AdminNotFound => "Admin not found",
        CnctdStudioError::NotEnoughAccounts => "Not enough accounts provided",
        CnctdStudioError::EscrowAlreadyFulfilled => "Escrow already fulfilled",
        CnctdStudioError::TokenAccountNotEmpty => "Token account not empty",
        CnctdStudioError::CloseAccountFailed => "Close account failed",
        CnctdStudioError::TransferFailed => "Transfer failed",
        CnctdStudioError::InvalidPaymentReceiver => "Invalid payment recipient",
        CnctdStudioError::InvalidPaymentSplits => "Invalid payment splits",
        CnctdStudioError::EscrowNotFulfilled => "Escrow not fulfilled",
        CnctdStudioError::PaymentsNotFulfilled => "Payments not fulfilled",
        CnctdStudioError::NFTNotMinted => "NFT not minted",
    }
}

impl CnctdStudioError {
    /// The human-readable message that accompanies the error.
    pub fn message(&self) -> (r: &'static str)
        ensures
            r == error_message(*self),
    {
        match self {
            CnctdStudioError::NotImplemented => "Not implemented yet.",
            CnctdStudioError::InvalidInput => "Invalid input provided.",
            CnctdStudioError::Unauthorized => "Unauthorized action.",
            CnctdStudioError::NotFound => "Resource not found.",
            CnctdStudioError::OperationFailed => "Operation failed due to an unknown error.",
            CnctdStudioError::InsufficientFunds => "Insufficient funds.",
            CnctdStudioError::InvalidTokenAccountOwner => "Invalid token account owner",
            CnctdStudioError::InvalidTreasuryATA => "Treasury ATA does not match expected address",
            CnctdStudioError::InvalidTreasuryPDA => "Treasury PDA does not match expected address",
            CnctdStudioError::InvalidMint => "Invalid Mint",
            CnctdStudioError::InvalidMintAuthority => "Invalid Mint Authority",
            CnctdStudioError::InvalidArtistPDA => "Invalid artist PDA",
            CnctdStudioError::InvalidTokenAccount => "Invalid token account",
            CnctdStudioError::InvalidTokenMint => "Invalid token mint",
            CnctdStudioError::InvalidSplitTotal => "Splits must add up to 100%",
            CnctdStudioError::CannotRemoveLastAdmin => "Cannot remove the last admin",
            CnctdStudioError::AdminAlreadyExists => "Admin already exists",
            CnctdStudioError::InvalidUser => "Invalid user",
            CnctdStudioError::AdminNotFound => "Admin not found",
            CnctdStudioError::NotEnoughAccounts => "Not enough accounts provided",
            CnctdStudioError::EscrowAlreadyFulfilled => "Escrow already fulfilled",
            CnctdStudioError::TokenAccountNotEmpty => "Token account not empty",
            CnctdStudioError::CloseAccountFailed => "Close account failed",
            CnctdStudioError::TransferFailed => "Transfer failed",
            CnctdStudioError::InvalidPaymentReceiver => "Invalid payment recipient",
            CnctdStudioError::InvalidPaymentSplits => "Invalid payment splits",
            CnctdStudioError::EscrowNotFulfilled => "Escrow not fulfilled",
            CnctdStudioError::PaymentsNotFulfilled => "Payments not fulfilled",
            CnctdStudioError::NFTNotMinted => "NFT not minted",
        }
    }
}

} // verus!
