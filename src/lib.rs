//! Custody ledger of an incentive-market protocol: configuration, market vaults and
//! farmer positions, with fee arithmetic, record layouts, address derivation and the
//! account checks that guard every operation.
pub mod account;
pub mod action;
pub mod address;
pub mod bytes;
pub mod errors;
pub mod instructions;
pub mod interfaces;
pub mod ledger;
pub mod math;
pub mod processor;
pub mod states;
