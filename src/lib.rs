pub mod address;
pub mod auction;
pub mod codec;
pub mod key;
pub mod laws;
pub mod solana_wallet;
pub mod token_wallet;
pub mod transfer;
pub mod vault;
