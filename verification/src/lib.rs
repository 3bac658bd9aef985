//! Asset identification and amount resolution for cross-chain transfers.

pub mod converter;
pub mod currency;
pub mod filter;
pub mod location;
pub mod matcher;
pub mod registry;
pub mod scale;
pub mod transact;
