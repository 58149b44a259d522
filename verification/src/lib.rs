//! Accounting core of a collateralized vault registry backing a wrapped asset.
//!
//! Each vault posts collateral and is authorized to mint and redeem pegged
//! tokens up to a ratio of that collateral.  The modules below track, per
//! vault, the lifecycle of token balances and collateral, enforce the
//! collateralization checks that gate every balance change, and handle the
//! failure path by slashing collateral and moving outstanding obligations to
//! a pooled liquidation account.

pub mod collateral;
pub mod oracle;
pub mod types;
pub mod vault;
