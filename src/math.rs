use vstd::prelude::*;

use crate::errors::ProgramError;

verus! {

/// The number of basis points in a whole.
pub const BPS_DENOMINATOR: u64 = 10_000;

/// The fee on `amount` at `fee_bps` basis points, rounded down.
pub open spec fn fee_of(amount: u64, fee_bps: u16) -> int {
    (amount as int * fee_bps as int) / 10_000
}

/// The fee on `amount` at a rate of `fee_bps` basis points. The product is formed in
/// 128 bits, so it never overflows; only a result above `u64::MAX` (a rate over 100%)
/// is refused.
pub fn fee_calculation(amount: u64, fee_bps: u16) -> (r: Result<u64, ProgramError>)
    ensures
        fee_of(amount, fee_bps) <= u64::MAX ==> r == Ok::<u64, ProgramError>(
            fee_of(amount, fee_bps) as u64,
        ),
        fee_of(amount, fee_bps) > u64::MAX ==> r == Err::<u64, ProgramError>(
            ProgramError::ArithmeticOverflow,
        ),
{
    let a: u128 = amount as u128;
    let b: u128 = fee_bps as u128;
    assert(a * b <= 0xffff_ffff_ffff_ffffu128 * 0xffffu128) by (nonlinear_arith)
        requires
            a <= 0xffff_ffff_ffff_ffffu128,
            b <= 0xffffu128,
    ;
    let product: u128 = a * b;
    let fee: u128 = product / 10_000;
    if fee > u64::MAX as u128 {
        Err(ProgramError::ArithmeticOverflow)
    } else {
        Ok(fee as u64)
    }
}

/// A rate of at most 100% never overflows, and takes no more than the amount.
pub proof fn lemma_fee_within_amount(amount: u64, fee_bps: u16)
    requires
        fee_bps <= 10_000,
    ensures
        0 <= fee_of(amount, fee_bps) <= amount,
{
    assert(amount as int * fee_bps as int <= amount as int * 10_000) by (nonlinear_arith)
        requires
            fee_bps <= 10_000,
    ;
}

} // verus!
