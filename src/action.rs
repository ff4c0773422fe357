//! The work an operation hands to the asset and system programs.
use vstd::prelude::*;

use crate::address::{Address, Pda};

verus! {

/// A call into another program that an operation asks for, in the order given. A derived
/// record that has to sign names its derivation and bump.
#[derive(Clone, Copy, Debug)]
pub enum Action {
    /// Allocate `account` with `space` bytes, owned by `owner`, paid by `payer`; the new
    /// account signs as the derived record `pda` with `bump`.
    CreateAccount { payer: Address, account: Address, space: u64, owner: Address, pda: Pda, bump: u8 },
    /// Make `account` a custody record of `mint` controlled by `owner`.
    InitializeTokenAccount { account: Address, mint: Address, owner: Address },
    /// Move `amount` of an asset from `from` to `to` under `authority`; where `signer` is
    /// given, the authority is a derived record that signs with those seeds.
    Transfer { from: Address, to: Address, authority: Address, amount: u64, signer: Option<(Pda, u8)> },
    /// Close `account`, returning its balance to `destination`.
    Close { account: Address, destination: Address },
}

} // verus!
