//! Index of cross-chain atomic-swap orders and hashed-timelock locks.

pub mod bytes;
pub mod events;
pub mod evm;
pub mod hashing;
pub mod hexstr;
pub mod index;
pub mod laws;
pub mod native;
pub mod query;
pub mod retry;
pub mod scale;
pub mod shared;
pub mod tracker;
