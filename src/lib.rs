//! A collateral-backed debt ledger: collateral is locked per owner, a pegged
//! synthetic asset is issued against it, and positions are unwound by their
//! owners or liquidated by anyone once they fall under the minimum ratio.
//!
//! The asset transfers themselves are made by an outside service. Each
//! operation has a `plan_*` counterpart that checks a request without
//! changing anything; the transfers are made only when it succeeds, and the
//! operation then takes what the service reported and commits only on
//! success, so a failed transfer never leaves the ledger changed.
pub mod ratio;
pub mod types;
pub mod position;
pub mod ledger;
pub mod config;
pub mod manager;
pub mod laws;

pub use config::{initialize, update_collateral_price, update_min_ratio};
pub use ledger::Ledger;
pub use manager::{
    close, deposit_weth_mint_shusd, liquidate, plan_deposit, plan_liquidation,
    plan_partial_withdraw, withdraw_partial, withdraw_weth,
};
pub use types::{
    AssetError, DepositState, DepositWeth, ErrorCode, Initialize, PartialWithdraw, Pubkey, State,
    WithdrawWeth,
};
