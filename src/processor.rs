//! Routing of an operation: its leading byte names it, the rest is its payload.
use vstd::prelude::*;

use crate::account::{check_then, outcome, AccountState};
use crate::bytes::{u16_at, u64_at};
use crate::instructions::add_incentives::incentive_payload_check;
use crate::instructions::settle_market::resolution_payload_check;
use crate::instructions::{amount_payload_check, rates_payload_check};
use crate::states::market_vault::MarketVaultResolution;
use crate::action::Action;
use crate::errors::ProgramError;
use crate::instructions::add_incentives::{add_incentives_accounts_check, add_incentives_accounts_valid, AddIncentives, AddIncentivesOutcome};
use crate::instructions::cancel_market::{cancel_accounts_check, cancel_accounts_valid, CancelMarket};
use crate::instructions::create_market_vault::{
    create_market_accounts_check, create_market_accounts_valid, CreateMarketVault, CreateMarketVaultOutcome,
};
use crate::instructions::initialize::{initialize_accounts_check, initialize_accounts_valid, Initialize, InitializeOutcome};
use crate::instructions::settle_market::{settle_accounts_check, settle_accounts_valid, SettleMarket};
use crate::instructions::stake_outcome_token::{
    stake_accounts_check, stake_accounts_valid, StakeOutcomeToken, StakeOutcomeTokenOutcome,
};
use crate::instructions::unstake_outcome_token::{
    unstake_accounts_check, unstake_accounts_valid, UnstakeOutcomeToken, UnstakeOutcomeTokenOutcome,
};
use crate::instructions::update_config::{update_config_accounts_check, update_config_accounts_valid, UpdateConfig};
use crate::states::config::Config;
use crate::states::market_vault::MarketVault;

verus! {

/// What an operation writes and asks for, by operation.
pub enum Effects {
    Initialize(InitializeOutcome),
    CreateMarketVault(CreateMarketVaultOutcome),
    StakeOutcomeToken(StakeOutcomeTokenOutcome),
    UnstakeOutcomeToken(UnstakeOutcomeTokenOutcome),
    AddIncentives(AddIncentivesOutcome),
    CancelMarket(Vec<Action>),
    SettleMarket(MarketVault),
    UpdateConfig(Config),
}

/// The operation that a leading byte names: the byte itself where it names one.
pub open spec fn opcode_of(e: Effects) -> u8 {
    match e {
        Effects::Initialize(_) => 0,
        Effects::CreateMarketVault(_) => 1,
        Effects::StakeOutcomeToken(_) => 2,
        Effects::UnstakeOutcomeToken(_) => 3,
        Effects::AddIncentives(_) => 4,
        Effects::CancelMarket(_) => 5,
        Effects::SettleMarket(_) => 6,
        Effects::UpdateConfig(_) => 7,
    }
}

/// The accounts check of the operation named by `op`.
pub open spec fn accounts_valid_for(op: u8, s: Seq<AccountState>) -> bool {
    if op == 0 {
        initialize_accounts_valid(s)
    } else if op == 1 {
        create_market_accounts_valid(s)
    } else if op == 2 {
        stake_accounts_valid(s)
    } else if op == 3 {
        unstake_accounts_valid(s)
    } else if op == 4 {
        add_incentives_accounts_valid(s)
    } else if op == 5 {
        cancel_accounts_valid(s)
    } else if op == 6 {
        settle_accounts_valid(s)
    } else {
        update_config_accounts_valid(s)
    }
}

/// The outcome of `Initialize` that an effects result carries.
pub open spec fn initialize_result(r: Result<Effects, ProgramError>) -> InitializeOutcome {
    match r {
        Ok(Effects::Initialize(o)) => o,
        _ => arbitrary(),
    }
}

/// `r` is what `Initialize` gives when parsed from accounts `s` and payload `p` and processed.
pub open spec fn initialize_gives<'a>(s: Seq<AccountState>, p: Seq<u8>, r: Result<Effects, ProgramError>) -> bool {
    exists|ix: Initialize<'a>|
        {
            &&& ix.accounts.spec_parsed_from(s)
            &&& ix.data.fee_bps == u16_at(p, 0) && ix.data.briber_fee_bps == u16_at(p, 2)
            &&& #[trigger] ix.spec_process(initialize_result(r))
            &&& r matches Ok(Effects::Initialize(_))
        }
}

/// The result of `CreateMarketVault` that an effects result carries.
pub open spec fn create_market_vault_result(r: Result<Effects, ProgramError>) -> Result<CreateMarketVaultOutcome, ProgramError> {
    match r {
        Ok(Effects::CreateMarketVault(o)) => Ok(o),
        Ok(_) => Err(ProgramError::InvalidArgument),
        Err(e) => Err(e),
    }
}

/// `r` is what `CreateMarketVault` gives when parsed from accounts `s` and payload `p` and processed.
pub open spec fn create_market_vault_gives<'a>(s: Seq<AccountState>, p: Seq<u8>, r: Result<Effects, ProgramError>) -> bool {
    exists|ix: CreateMarketVault<'a>|
        {
            &&& ix.accounts.spec_parsed_from(s)
            &&& ix.data.amount == u64_at(p, 0)
            &&& #[trigger] ix.spec_process(create_market_vault_result(r))
            &&& r matches Ok(e) ==> e is CreateMarketVault
        }
}

/// The result of `StakeOutcomeToken` that an effects result carries.
pub open spec fn stake_outcome_token_result(r: Result<Effects, ProgramError>) -> Result<StakeOutcomeTokenOutcome, ProgramError> {
    match r {
        Ok(Effects::StakeOutcomeToken(o)) => Ok(o),
        Ok(_) => Err(ProgramError::InvalidArgument),
        Err(e) => Err(e),
    }
}

/// `r` is what `StakeOutcomeToken` gives when parsed from accounts `s` and payload `p` and processed.
pub open spec fn stake_outcome_token_gives<'a>(s: Seq<AccountState>, p: Seq<u8>, r: Result<Effects, ProgramError>) -> bool {
    exists|ix: StakeOutcomeToken<'a>|
        {
            &&& ix.accounts.spec_parsed_from(s)
            &&& ix.data.amount == u64_at(p, 0)
            &&& #[trigger] ix.spec_process(stake_outcome_token_result(r))
            &&& r matches Ok(e) ==> e is StakeOutcomeToken
        }
}

/// The result of `UnstakeOutcomeToken` that an effects result carries.
pub open spec fn unstake_outcome_token_result(r: Result<Effects, ProgramError>) -> Result<UnstakeOutcomeTokenOutcome, ProgramError> {
    match r {
        Ok(Effects::UnstakeOutcomeToken(o)) => Ok(o),
        Ok(_) => Err(ProgramError::InvalidArgument),
        Err(e) => Err(e),
    }
}

/// `r` is what `UnstakeOutcomeToken` gives when parsed from accounts `s` and payload `p` and processed.
pub open spec fn unstake_outcome_token_gives<'a>(s: Seq<AccountState>, p: Seq<u8>, r: Result<Effects, ProgramError>) -> bool {
    exists|ix: UnstakeOutcomeToken<'a>|
        {
            &&& ix.accounts.spec_parsed_from(s)
            &&& ix.data.amount == u64_at(p, 0)
            &&& #[trigger] ix.spec_process(unstake_outcome_token_result(r))
            &&& r matches Ok(e) ==> e is UnstakeOutcomeToken
        }
}

/// The result of `AddIncentives` that an effects result carries.
pub open spec fn add_incentives_result(r: Result<Effects, ProgramError>) -> Result<AddIncentivesOutcome, ProgramError> {
    match r {
        Ok(Effects::AddIncentives(o)) => Ok(o),
        Ok(_) => Err(ProgramError::InvalidArgument),
        Err(e) => Err(e),
    }
}

/// `r` is what `AddIncentives` gives when parsed from accounts `s` and payload `p` and processed.
pub open spec fn add_incentives_gives<'a>(s: Seq<AccountState>, p: Seq<u8>, r: Result<Effects, ProgramError>) -> bool {
    exists|ix: AddIncentives<'a>|
        {
            &&& ix.accounts.spec_parsed_from(s)
            &&& ix.data.amount == u64_at(p, 0)
            &&& #[trigger] ix.spec_process(add_incentives_result(r))
            &&& r matches Ok(e) ==> e is AddIncentives
        }
}

/// The result of `CancelMarket` that an effects result carries.
pub open spec fn cancel_market_result(r: Result<Effects, ProgramError>) -> Result<Vec<Action>, ProgramError> {
    match r {
        Ok(Effects::CancelMarket(o)) => Ok(o),
        Ok(_) => Err(ProgramError::InvalidArgument),
        Err(e) => Err(e),
    }
}

/// `r` is what `CancelMarket` gives when parsed from accounts `s` and payload `p` and processed.
pub open spec fn cancel_market_gives<'a>(s: Seq<AccountState>, p: Seq<u8>, r: Result<Effects, ProgramError>) -> bool {
    exists|ix: CancelMarket<'a>|
        {
            &&& ix.accounts.spec_parsed_from(s)
            &&& #[trigger] ix.spec_process(cancel_market_result(r))
            &&& r matches Ok(e) ==> e is CancelMarket
        }
}

/// The result of `SettleMarket` that an effects result carries.
pub open spec fn settle_market_result(r: Result<Effects, ProgramError>) -> Result<MarketVault, ProgramError> {
    match r {
        Ok(Effects::SettleMarket(o)) => Ok(o),
        Ok(_) => Err(ProgramError::InvalidArgument),
        Err(e) => Err(e),
    }
}

/// `r` is what `SettleMarket` gives when parsed from accounts `s` and payload `p` and processed.
pub open spec fn settle_market_gives<'a>(s: Seq<AccountState>, p: Seq<u8>, r: Result<Effects, ProgramError>) -> bool {
    exists|ix: SettleMarket<'a>|
        {
            &&& ix.accounts.spec_parsed_from(s)
            &&& ix.data.resolution == (if p[0] == 1 {
                MarketVaultResolution::Yes
            } else {
                MarketVaultResolution::No
            })
            &&& #[trigger] ix.spec_process(settle_market_result(r))
            &&& r matches Ok(e) ==> e is SettleMarket
        }
}

/// The result of `UpdateConfig` that an effects result carries.
pub open spec fn update_config_result(r: Result<Effects, ProgramError>) -> Result<Config, ProgramError> {
    match r {
        Ok(Effects::UpdateConfig(o)) => Ok(o),
        Ok(_) => Err(ProgramError::InvalidArgument),
        Err(e) => Err(e),
    }
}

/// `r` is what `UpdateConfig` gives when parsed from accounts `s` and payload `p` and processed.
pub open spec fn update_config_gives<'a>(s: Seq<AccountState>, p: Seq<u8>, r: Result<Effects, ProgramError>) -> bool {
    exists|ix: UpdateConfig<'a>|
        {
            &&& ix.accounts.spec_parsed_from(s)
            &&& ix.data.new_fee_bps == u16_at(p, 0) && ix.data.new_briber_fee_bps == u16_at(p, 2)
            &&& #[trigger] ix.spec_process(update_config_result(r))
            &&& r matches Ok(e) ==> e is UpdateConfig
        }
}

/// The checks that operation `op` makes before it processes: its accounts, then its
/// payload.
pub open spec fn checks_for(op: u8, s: Seq<AccountState>, p: Seq<u8>) -> Result<(), ProgramError> {
    if op == 0 {
        check_then(initialize_accounts_check(s), rates_payload_check(p))
    } else if op == 1 {
        check_then(create_market_accounts_check(s), amount_payload_check(p))
    } else if op == 2 {
        check_then(stake_accounts_check(s), amount_payload_check(p))
    } else if op == 3 {
        check_then(unstake_accounts_check(s), amount_payload_check(p))
    } else if op == 4 {
        check_then(add_incentives_accounts_check(s), incentive_payload_check(p))
    } else if op == 5 {
        cancel_accounts_check(s)
    } else if op == 6 {
        check_then(settle_accounts_check(s), resolution_payload_check(p))
    } else {
        check_then(update_config_accounts_check(s), rates_payload_check(p))
    }
}

/// `r` is what operation `op` gives on accounts `s` and payload `p`.
pub open spec fn gives(op: u8, s: Seq<AccountState>, p: Seq<u8>, r: Result<Effects, ProgramError>) -> bool {
    if op == 0 {
        initialize_gives(s, p, r)
    } else if op == 1 {
        create_market_vault_gives(s, p, r)
    } else if op == 2 {
        stake_outcome_token_gives(s, p, r)
    } else if op == 3 {
        unstake_outcome_token_gives(s, p, r)
    } else if op == 4 {
        add_incentives_gives(s, p, r)
    } else if op == 5 {
        cancel_market_gives(s, p, r)
    } else if op == 6 {
        settle_market_gives(s, p, r)
    } else {
        update_config_gives(s, p, r)
    }
}

/// Parses and processes `Initialize`.
fn run_initialize(accounts: &[AccountState], payload: &[u8]) -> (r: Result<Effects, ProgramError>)
    ensures
        checks_for(0, accounts@, payload@) is Err ==> outcome(r) == checks_for(
            0,
            accounts@,
            payload@,
        ),
        checks_for(0, accounts@, payload@) is Ok ==> initialize_gives(accounts@, payload@, r),
        r matches Ok(e) ==> opcode_of(e) == 0 && accounts_valid_for(0, accounts@),
{
    let ix = Initialize::try_from((payload, accounts))?;
    let out = ix.process();
    assert(ix.spec_process(initialize_result(Ok(Effects::Initialize(out)))));
    Ok(Effects::Initialize(out))
}

/// Parses and processes `CreateMarketVault`.
fn run_create_market_vault(accounts: &[AccountState], payload: &[u8]) -> (r: Result<Effects, ProgramError>)
    ensures
        checks_for(1, accounts@, payload@) is Err ==> outcome(r) == checks_for(
            1,
            accounts@,
            payload@,
        ),
        checks_for(1, accounts@, payload@) is Ok ==> create_market_vault_gives(accounts@, payload@, r),
        r matches Ok(e) ==> opcode_of(e) == 1 && accounts_valid_for(1, accounts@),
{
    let ix = CreateMarketVault::try_from((payload, accounts))?;
    let out = ix.process();
    let r = match out {
        Ok(o) => Ok(Effects::CreateMarketVault(o)),
        Err(e) => Err(e),
    };
    assert(ix.spec_process(create_market_vault_result(r)));
    r
}

/// Parses and processes `StakeOutcomeToken`.
fn run_stake_outcome_token(accounts: &[AccountState], payload: &[u8]) -> (r: Result<Effects, ProgramError>)
    ensures
        checks_for(2, accounts@, payload@) is Err ==> outcome(r) == checks_for(
            2,
            accounts@,
            payload@,
        ),
        checks_for(2, accounts@, payload@) is Ok ==> stake_outcome_token_gives(accounts@, payload@, r),
        r matches Ok(e) ==> opcode_of(e) == 2 && accounts_valid_for(2, accounts@),
{
    let ix = StakeOutcomeToken::try_from((payload, accounts))?;
    let out = ix.process();
    let r = match out {
        Ok(o) => Ok(Effects::StakeOutcomeToken(o)),
        Err(e) => Err(e),
    };
    assert(ix.spec_process(stake_outcome_token_result(r)));
    r
}

/// Parses and processes `UnstakeOutcomeToken`.
fn run_unstake_outcome_token(accounts: &[AccountState], payload: &[u8]) -> (r: Result<Effects, ProgramError>)
    ensures
        checks_for(3, accounts@, payload@) is Err ==> outcome(r) == checks_for(
            3,
            accounts@,
            payload@,
        ),
        checks_for(3, accounts@, payload@) is Ok ==> unstake_outcome_token_gives(accounts@, payload@, r),
        r matches Ok(e) ==> opcode_of(e) == 3 && accounts_valid_for(3, accounts@),
{
    let ix = UnstakeOutcomeToken::try_from((payload, accounts))?;
    let out = ix.process();
    let r = match out {
        Ok(o) => Ok(Effects::UnstakeOutcomeToken(o)),
        Err(e) => Err(e),
    };
    assert(ix.spec_process(unstake_outcome_token_result(r)));
    r
}

/// Parses and processes `AddIncentives`.
fn run_add_incentives(accounts: &[AccountState], payload: &[u8]) -> (r: Result<Effects, ProgramError>)
    ensures
        checks_for(4, accounts@, payload@) is Err ==> outcome(r) == checks_for(
            4,
            accounts@,
            payload@,
        ),
        checks_for(4, accounts@, payload@) is Ok ==> add_incentives_gives(accounts@, payload@, r),
        r matches Ok(e) ==> opcode_of(e) == 4 && accounts_valid_for(4, accounts@),
{
    let ix = AddIncentives::try_from((payload, accounts))?;
    let out = ix.process();
    let r = match out {
        Ok(o) => Ok(Effects::AddIncentives(o)),
        Err(e) => Err(e),
    };
    assert(ix.spec_process(add_incentives_result(r)));
    r
}

/// Parses and processes `CancelMarket`.
fn run_cancel_market(accounts: &[AccountState], payload: &[u8]) -> (r: Result<Effects, ProgramError>)
    ensures
        checks_for(5, accounts@, payload@) is Err ==> outcome(r) == checks_for(
            5,
            accounts@,
            payload@,
        ),
        checks_for(5, accounts@, payload@) is Ok ==> cancel_market_gives(accounts@, payload@, r),
        r matches Ok(e) ==> opcode_of(e) == 5 && accounts_valid_for(5, accounts@),
{
    let ix = CancelMarket::try_from(accounts)?;
    let out = ix.process();
    let r = match out {
        Ok(o) => Ok(Effects::CancelMarket(o)),
        Err(e) => Err(e),
    };
    assert(ix.spec_process(cancel_market_result(r)));
    r
}

/// Parses and processes `SettleMarket`.
fn run_settle_market(accounts: &[AccountState], payload: &[u8]) -> (r: Result<Effects, ProgramError>)
    ensures
        checks_for(6, accounts@, payload@) is Err ==> outcome(r) == checks_for(
            6,
            accounts@,
            payload@,
        ),
        checks_for(6, accounts@, payload@) is Ok ==> settle_market_gives(accounts@, payload@, r),
        r matches Ok(e) ==> opcode_of(e) == 6 && accounts_valid_for(6, accounts@),
{
    let ix = SettleMarket::try_from((payload, accounts))?;
    let out = ix.process();
    let r = match out {
        Ok(o) => Ok(Effects::SettleMarket(o)),
        Err(e) => Err(e),
    };
    assert(ix.spec_process(settle_market_result(r)));
    r
}

/// Parses and processes `UpdateConfig`.
fn run_update_config(accounts: &[AccountState], payload: &[u8]) -> (r: Result<Effects, ProgramError>)
    ensures
        checks_for(7, accounts@, payload@) is Err ==> outcome(r) == checks_for(
            7,
            accounts@,
            payload@,
        ),
        checks_for(7, accounts@, payload@) is Ok ==> update_config_gives(accounts@, payload@, r),
        r matches Ok(e) ==> opcode_of(e) == 7 && accounts_valid_for(7, accounts@),
{
    let ix = UpdateConfig::try_from((payload, accounts))?;
    let out = ix.process();
    let r = match out {
        Ok(o) => Ok(Effects::UpdateConfig(o)),
        Err(e) => Err(e),
    };
    assert(ix.spec_process(update_config_result(r)));
    r
}

/// Runs the operation that the first byte of `data` names on the rest of it. An empty
/// instruction or a byte above 7 is refused as `InvalidInstructionData`. Otherwise the
/// operation's checks fail with their first error, or the result is what that operation,
/// parsed from these accounts and the payload, gives.
pub fn process_instruction(accounts: &[AccountState], data: &[u8]) -> (r: Result<Effects, ProgramError>)
    ensures
        data@.len() == 0 || data@[0] > 7 ==> r == Err::<Effects, ProgramError>(
            ProgramError::InvalidInstructionData,
        ),
        r matches Ok(e) ==> data@.len() > 0 && opcode_of(e) == data@[0] && accounts_valid_for(
            data@[0],
            accounts@,
        ),
        data@.len() > 0 && data@[0] <= 7 ==> ({
            let p = data@.subrange(1, data@.len() as int);
            &&& checks_for(data@[0], accounts@, p) is Err ==> outcome(r) == checks_for(
                data@[0],
                accounts@,
                p,
            )
            &&& checks_for(data@[0], accounts@, p) is Ok ==> gives(data@[0], accounts@, p, r)
        }),
{
    if data.len() == 0 {
        return Err(ProgramError::InvalidInstructionData);
    }
    let op = data[0];
    let payload = slice_from(data, 1);
    if op == Initialize::DISCRIMINATOR {
        run_initialize(accounts, payload)
    } else if op == CreateMarketVault::DISCRIMINATOR {
        run_create_market_vault(accounts, payload)
    } else if op == StakeOutcomeToken::DISCRIMINATOR {
        run_stake_outcome_token(accounts, payload)
    } else if op == UnstakeOutcomeToken::DISCRIMINATOR {
        run_unstake_outcome_token(accounts, payload)
    } else if op == AddIncentives::DISCRIMINATOR {
        run_add_incentives(accounts, payload)
    } else if op == CancelMarket::DISCRIMINATOR {
        run_cancel_market(accounts, payload)
    } else if op == SettleMarket::DISCRIMINATOR {
        run_settle_market(accounts, payload)
    } else if op == UpdateConfig::DISCRIMINATOR {
        run_update_config(accounts, payload)
    } else {
        Err(ProgramError::InvalidInstructionData)
    }
}

/// The bytes of `s` from `start` on.
pub fn slice_from(s: &[u8], start: usize) -> (r: &[u8])
    requires
        start <= s@.len(),
    ensures
        r@ == s@.subrange(start as int, s@.len() as int),
{
    vstd::slice::slice_subrange(s, start, s.len())
}

} // verus!
