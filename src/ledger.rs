//! How a market's holdings of each outcome asset follow the assets moved in and out.
use vstd::prelude::*;

use crate::instructions::stake_outcome_token::market_after_stake;
use crate::instructions::unstake_outcome_token::market_after_unstake;
use crate::math::fee_of;
use crate::states::market_vault::MarketVaultView;

verus! {

/// What the market holds of one side's outcome asset: the stake plus the fees taken on it.
pub open spec fn held(m: MarketVaultView, yes: bool) -> int {
    if yes {
        m.total_yes_staked + m.total_yes_fees
    } else {
        m.total_no_staked + m.total_no_fees
    }
}

/// One movement of an outcome asset of a market: a stake of `amount` into the side, or
/// an unstake of `amount` out of it.
pub struct Flow {
    pub yes: bool,
    pub stake: bool,
    pub amount: u64,
}

/// The market after one movement, as the stake and unstake operations leave it.
pub open spec fn after_flow(m: MarketVaultView, f: Flow) -> MarketVaultView {
    if f.stake {
        let fee = fee_of(f.amount, m.fee_bps);
        market_after_stake(m, f.yes, f.amount - fee, fee)
    } else {
        market_after_unstake(m, f.yes, f.amount as int)
    }
}

/// Whether the operation that makes the movement succeeds on its accumulators: a stake
/// whose fee fits in the amount and whose credits do not overflow, or an unstake of no
/// more than is staked.
pub open spec fn flow_succeeds(m: MarketVaultView, f: Flow) -> bool {
    if f.stake {
        let fee = fee_of(f.amount, m.fee_bps);
        &&& fee <= f.amount
        &&& f.yes ==> m.total_yes_staked + (f.amount - fee) <= u64::MAX && m.total_yes_fees + fee
            <= u64::MAX
        &&& !f.yes ==> m.total_no_staked + (f.amount - fee) <= u64::MAX && m.total_no_fees + fee
            <= u64::MAX
    } else {
        &&& f.yes ==> f.amount <= m.total_yes_staked
        &&& !f.yes ==> f.amount <= m.total_no_staked
    }
}

/// The market after a run of movements.
pub open spec fn after_flows(m: MarketVaultView, flows: Seq<Flow>) -> MarketVaultView
    decreases flows.len(),
{
    if flows.len() == 0 {
        m
    } else {
        after_flows(after_flow(m, flows[0]), flows.drop_first())
    }
}

/// Whether every movement of the run succeeds on the market as the earlier ones left it.
pub open spec fn flows_succeed(m: MarketVaultView, flows: Seq<Flow>) -> bool
    decreases flows.len(),
{
    flows.len() == 0 || (flow_succeeds(m, flows[0]) && flows_succeed(
        after_flow(m, flows[0]),
        flows.drop_first(),
    ))
}

/// The net amount of one side's asset moved into the market by a run of movements.
pub open spec fn net_inflow(flows: Seq<Flow>, yes: bool) -> int
    decreases flows.len(),
{
    if flows.len() == 0 {
        0
    } else {
        let f = flows[0];
        let here = if f.yes != yes {
            0
        } else if f.stake {
            f.amount as int
        } else {
            -(f.amount as int)
        };
        here + net_inflow(flows.drop_first(), yes)
    }
}

/// One successful movement changes what the market holds of its side by exactly the
/// amount moved, and leaves the other side alone.
pub proof fn lemma_flow_moves_held(m: MarketVaultView, f: Flow, yes: bool)
    requires
        flow_succeeds(m, f),
    ensures
        held(after_flow(m, f), yes) == held(m, yes) + (if f.yes != yes {
            0
        } else if f.stake {
            f.amount as int
        } else {
            -(f.amount as int)
        }),
        after_flow(m, f).fee_bps == m.fee_bps,
{
}

/// Through any run of successful stakes and unstakes, what a market holds of each side's
/// asset (stake plus fees) equals what it held at the start plus the net amount of that
/// asset moved in; it never goes negative, since an unstake beyond the stake fails.
pub proof fn lemma_held_tracks_transfers(m: MarketVaultView, flows: Seq<Flow>, yes: bool)
    requires
        flows_succeed(m, flows),
    ensures
        held(after_flows(m, flows), yes) == held(m, yes) + net_inflow(flows, yes),
        held(after_flows(m, flows), yes) >= 0,
    decreases flows.len(),
{
    if flows.len() > 0 {
        let m1 = after_flow(m, flows[0]);
        lemma_flow_moves_held(m, flows[0], yes);
        lemma_held_tracks_transfers(m1, flows.drop_first(), yes);
    }
}

} // verus!
