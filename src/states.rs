//! The program's records and their fixed-size byte layouts.
pub mod config;
pub mod farmer_position;
pub mod market_vault;
