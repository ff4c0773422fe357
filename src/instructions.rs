//! The operations of the program: each one checks the accounts it is handed, reads its
//! payload, and yields the records it writes and the calls it makes.
use vstd::prelude::*;

use crate::errors::{ProgramError, ReflexError};

pub mod add_incentives;
pub mod cancel_market;
pub mod create_market_vault;
pub mod initialize;
pub mod settle_market;
pub mod stake_outcome_token;
pub mod unstake_outcome_token;
pub mod update_config;

verus! {

/// The check on an eight-byte amount payload: any other length is refused.
pub open spec fn amount_payload_check(b: Seq<u8>) -> Result<(), ProgramError> {
    if b.len() != 8 {
        Err(ProgramError::Custom(ReflexError::InvalidAccountSize))
    } else {
        Ok(())
    }
}

/// The check on a four-byte payload of two rates: any other length is refused.
pub open spec fn rates_payload_check(b: Seq<u8>) -> Result<(), ProgramError> {
    if b.len() != 4 {
        Err(ProgramError::Custom(ReflexError::InvalidAccountSize))
    } else {
        Ok(())
    }
}

} // verus!
