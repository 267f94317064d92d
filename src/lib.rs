//! Accounting core of a two-asset constant-product market maker: per-asset
//! deposit ledgers, the reserve pair, and the swap and liquidity operations.

pub mod wide;
pub mod pricing;
pub mod error;
pub mod ledger;
pub mod account;
pub mod amm;
