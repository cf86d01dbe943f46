pub mod address;
pub mod errors;
pub mod state;
pub mod escrow;
pub mod laws;
pub mod rewards;
pub mod metadata;
pub mod access;
pub mod uuid;
pub mod identity;
