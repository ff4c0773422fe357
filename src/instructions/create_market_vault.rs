use vstd::prelude::*;

use crate::account::{
    bump_of, check_then, derived_at, outcome, require_derived, spec_derived_check,
    spec_not_initialized_check, spec_program_account_check, spec_signer_check, Account,
    AccountState,
};
use crate::action::Action;
use crate::address::{same_address, Pda};
use crate::bytes::{read_u64, u64_at};
use crate::errors::{ProgramError, ReflexError};
use crate::instructions::amount_payload_check;
use crate::interfaces::{
    spec_mint_check, spec_token_account_check, spec_token_account_shape_check, MintInterface,
    TokenAcocuntInterface, TOKEN_ACCOUNT_LEN,
};
use crate::math::{fee_calculation, fee_of};
use crate::states::config::{config_from_bytes, Config, ConfigView};
use crate::states::market_vault::MarketVault;

verus! {

/// A briber opens a market: the counter advances, the market record and its three custody
/// records are allocated, the protocol fee and the incentives are collected.
pub struct CreateMarketVault<'a> {
    pub accounts: CreateMarketVaultAccounts<'a>,
    pub data: CreateMarketVaultData,
}

/// The accounts of `CreateMarketVault`, checked, with the bumps of the custody records.
pub struct CreateMarketVaultAccounts<'a> {
    pub briber: &'a AccountState,
    pub config: &'a AccountState,
    pub incentive_mint: &'a AccountState,
    pub treasury: &'a AccountState,
    pub market_vault: &'a AccountState,
    pub outcome_yes_mint: &'a AccountState,
    pub outcome_no_mint: &'a AccountState,
    pub briber_ata: &'a AccountState,
    pub market_vault_treasury: &'a AccountState,
    pub outcome_yes_vault: &'a AccountState,
    pub outcome_no_vault: &'a AccountState,
    pub token_program: &'a AccountState,
    pub market_vault_treasury_bump: u8,
    pub bump_outcome_yes_vault: u8,
    pub bump_outcome_no_vault: u8,
}

/// The payload of `CreateMarketVault`: the incentive amount, as eight little-endian bytes.
pub struct CreateMarketVaultData {
    pub amount: u64,
}

/// What a successful `CreateMarketVault` writes and asks for.
pub struct CreateMarketVaultOutcome {
    pub config: Config,
    pub market_vault: MarketVault,
    pub actions: Vec<Action>,
}

/// Every check that the accounts of `CreateMarketVault` must pass, in the order given:
/// briber, config, incentive asset, protocol treasury, market, yes asset, no asset,
/// briber's custody record, market treasury, yes vault, no vault, asset program, system
/// program.
pub open spec fn create_market_accounts_check(s: Seq<AccountState>) -> Result<(), ProgramError> {
    if s.len() != 13 {
        Err(ProgramError::InvalidAccountData)
    } else {
        let c = spec_signer_check(&s[0]);
        let c = check_then(c, spec_program_account_check(&s[1]));
        let c = check_then(c, spec_mint_check(&s[2]));
        let c = check_then(c, spec_token_account_check(&s[3], &s[1], &s[2]));
        let c = check_then(c, spec_not_initialized_check(&s[4]));
        let c = check_then(c, spec_mint_check(&s[5]));
        let c = check_then(c, spec_mint_check(&s[6]));
        let c = check_then(c, spec_token_account_shape_check(&s[7]));
        let c = check_then(c, spec_not_initialized_check(&s[8]));
        let c = check_then(c, spec_not_initialized_check(&s[9]));
        let c = check_then(c, spec_not_initialized_check(&s[10]));
        let c = check_then(c, spec_derived_check(Pda::Config, &s[1]));
        let c = check_then(
            c,
            spec_derived_check(Pda::OutcomeVault { market: s[4].address, mint: s[5].address }, &s[9]),
        );
        let c = check_then(
            c,
            spec_derived_check(Pda::OutcomeVault { market: s[4].address, mint: s[6].address }, &s[10]),
        );
        check_then(c, spec_derived_check(Pda::MarketTreasury { market: s[4].address }, &s[8]))
    }
}

/// The accounts pass every check of `create_market_accounts_check`.
pub open spec fn create_market_accounts_valid(s: Seq<AccountState>) -> bool {
    create_market_accounts_check(s) is Ok
}

impl<'a> CreateMarketVaultAccounts<'a> {
    /// These are the accounts of `s`, in order, with the bumps of their derivations.
    pub open spec fn spec_parsed_from(self, s: Seq<AccountState>) -> bool {
        &&& *self.briber == s[0]
        &&& *self.config == s[1]
        &&& *self.incentive_mint == s[2]
        &&& *self.treasury == s[3]
        &&& *self.market_vault == s[4]
        &&& *self.outcome_yes_mint == s[5]
        &&& *self.outcome_no_mint == s[6]
        &&& *self.briber_ata == s[7]
        &&& *self.market_vault_treasury == s[8]
        &&& *self.outcome_yes_vault == s[9]
        &&& *self.outcome_no_vault == s[10]
        &&& *self.token_program == s[11]
        &&& self.market_vault_treasury_bump == bump_of(Pda::MarketTreasury { market: s[4].address })
        &&& self.bump_outcome_yes_vault == bump_of(Pda::OutcomeVault { market: s[4].address, mint: s[5].address })
        &&& self.bump_outcome_no_vault == bump_of(Pda::OutcomeVault { market: s[4].address, mint: s[6].address })
    }

    /// Checks the thirteen accounts; any other number is refused as `InvalidAccountData`.
    pub fn try_from(accounts: &'a [AccountState]) -> (r: Result<
        CreateMarketVaultAccounts<'a>,
        ProgramError,
    >)
        ensures
            outcome(r) == create_market_accounts_check(accounts@),
            r is Ok <==> create_market_accounts_valid(accounts@),
            r matches Ok(v) ==> v.spec_parsed_from(accounts@),
    {
        if accounts.len() != 13 {
            return Err(ProgramError::InvalidAccountData);
        }
        let briber = &accounts[0];
        let config = &accounts[1];
        let incentive_mint = &accounts[2];
        let treasury = &accounts[3];
        let market_vault = &accounts[4];
        let outcome_yes_mint = &accounts[5];
        let outcome_no_mint = &accounts[6];
        let briber_ata = &accounts[7];
        let market_vault_treasury = &accounts[8];
        let outcome_yes_vault = &accounts[9];
        let outcome_no_vault = &accounts[10];
        let token_program = &accounts[11];

        Account::signer_check(briber)?;
        Account::program_account_check(config)?;
        MintInterface::check(incentive_mint)?;
        TokenAcocuntInterface::token_account_check(treasury, config, incentive_mint)?;
        Account::not_initialized_check(market_vault)?;
        MintInterface::check(outcome_yes_mint)?;
        MintInterface::check(outcome_no_mint)?;
        TokenAcocuntInterface::check(briber_ata)?;
        Account::not_initialized_check(market_vault_treasury)?;
        Account::not_initialized_check(outcome_yes_vault)?;
        Account::not_initialized_check(outcome_no_vault)?;

        require_derived(&Pda::Config, config)?;
        let bump_outcome_yes_vault = require_derived(
            &Pda::OutcomeVault { market: market_vault.address, mint: outcome_yes_mint.address },
            outcome_yes_vault,
        )?;
        let bump_outcome_no_vault = require_derived(
            &Pda::OutcomeVault { market: market_vault.address, mint: outcome_no_mint.address },
            outcome_no_vault,
        )?;
        let market_vault_treasury_bump = require_derived(
            &Pda::MarketTreasury { market: market_vault.address },
            market_vault_treasury,
        )?;

        Ok(CreateMarketVaultAccounts {
            briber,
            config,
            incentive_mint,
            treasury,
            market_vault,
            outcome_yes_mint,
            outcome_no_mint,
            briber_ata,
            market_vault_treasury,
            outcome_yes_vault,
            outcome_no_vault,
            token_program,
            market_vault_treasury_bump,
            bump_outcome_yes_vault,
            bump_outcome_no_vault,
        })
    }
}

impl CreateMarketVaultData {
    /// Reads the amount; a payload of another length than eight bytes is refused.
    pub fn try_from(bytes: &[u8]) -> (r: Result<CreateMarketVaultData, ProgramError>)
        ensures
            bytes@.len() != 8 ==> r == Err::<CreateMarketVaultData, ProgramError>(
                ProgramError::Custom(ReflexError::InvalidAccountSize),
            ),
            bytes@.len() == 8 ==> (r matches Ok(d) && d.amount == u64_at(bytes@, 0)),
    {
        if bytes.len() != 8 {
            return Err(ProgramError::Custom(ReflexError::InvalidAccountSize));
        }
        Ok(CreateMarketVaultData { amount: read_u64(bytes, 0) })
    }
}

impl<'a> CreateMarketVault<'a> {
    pub const DISCRIMINATOR: u8 = 1;

    /// Checks the accounts, then reads the payload.
    pub fn try_from(input: (&'a [u8], &'a [AccountState])) -> (r: Result<
        CreateMarketVault<'a>,
        ProgramError,
    >)
        ensures
            outcome(r) == check_then(
                create_market_accounts_check(input.1@),
                amount_payload_check(input.0@),
            ),
            r matches Ok(ix) ==> ix.accounts.spec_parsed_from(input.1@) && ix.data.amount == u64_at(
                input.0@,
                0,
            ),
    {
        let (data, accounts) = input;
        let accounts = CreateMarketVaultAccounts::try_from(accounts)?;
        let data = CreateMarketVaultData::try_from(data)?;
        Ok(CreateMarketVault { accounts, data })
    }

    /// The calls of a successful creation, in order: allocate the market record, allocate
    /// and open its incentive treasury and its two outcome vaults, take the protocol fee
    /// into the protocol treasury, and escrow the full amount in the market treasury.
    pub open spec fn spec_actions(self, market_bump: u8, fee: u64) -> Seq<Action> {
        let a = self.accounts;
        let market = a.market_vault.address;
        seq![
            Action::CreateAccount {
                payer: a.briber.address,
                account: market,
                space: MarketVault::LEN as u64,
                owner: crate::address::ID,
                pda: Pda::MarketVault { counter: (config_from_bytes(a.config.data@).market_counter + 1) as u64 },
                bump: market_bump,
            },
            Action::CreateAccount {
                payer: a.briber.address,
                account: a.market_vault_treasury.address,
                space: TOKEN_ACCOUNT_LEN as u64,
                owner: a.token_program.address,
                pda: Pda::MarketTreasury { market },
                bump: a.market_vault_treasury_bump,
            },
            Action::InitializeTokenAccount {
                account: a.market_vault_treasury.address,
                mint: a.incentive_mint.address,
                owner: market,
            },
            Action::CreateAccount {
                payer: a.briber.address,
                account: a.outcome_yes_vault.address,
                space: TOKEN_ACCOUNT_LEN as u64,
                owner: a.token_program.address,
                pda: Pda::OutcomeVault { market, mint: a.outcome_yes_mint.address },
                bump: a.bump_outcome_yes_vault,
            },
            Action::InitializeTokenAccount {
                account: a.outcome_yes_vault.address,
                mint: a.outcome_yes_mint.address,
                owner: market,
            },
            Action::CreateAccount {
                payer: a.briber.address,
                account: a.outcome_no_vault.address,
                space: TOKEN_ACCOUNT_LEN as u64,
                owner: a.token_program.address,
                pda: Pda::OutcomeVault { market, mint: a.outcome_no_mint.address },
                bump: a.bump_outcome_no_vault,
            },
            Action::InitializeTokenAccount {
                account: a.outcome_no_vault.address,
                mint: a.outcome_no_mint.address,
                owner: market,
            },
            Action::Transfer {
                from: a.briber_ata.address,
                to: a.treasury.address,
                authority: a.briber.address,
                amount: fee,
                signer: None,
            },
            Action::Transfer {
                from: a.briber_ata.address,
                to: a.market_vault_treasury.address,
                authority: a.briber.address,
                amount: self.data.amount,
                signer: None,
            },
        ]
    }

    /// What `process` gives: its result `r` on these accounts and this payload.
    pub open spec fn spec_process(self, r: Result<CreateMarketVaultOutcome, ProgramError>) -> bool {
        &&& ({
            let cfg_bytes = self.accounts.config.data@;
            let cfg = config_from_bytes(cfg_bytes);
            let n = (cfg.market_counter + 1) as u64;
            let pda = Pda::MarketVault { counter: n };
            let fee = fee_of(self.data.amount, cfg.fee_bps);
    &&& cfg_bytes.len() != Config::LEN ==> r is Err && r->Err_0 == ProgramError::Custom(
                ReflexError::InvalidAccountSize,
            )
    &&& cfg_bytes.len() == Config::LEN && cfg.market_counter == u64::MAX ==> r is Err
                && r->Err_0 == ProgramError::ArithmeticOverflow
    &&& cfg_bytes.len() == Config::LEN && cfg.market_counter < u64::MAX
                && pda.spec_derived() is None ==> r is Err && r->Err_0
                == ProgramError::InvalidSeeds
    &&& cfg_bytes.len() == Config::LEN && cfg.market_counter < u64::MAX
                && pda.spec_derived() is Some && !derived_at(pda, self.accounts.market_vault)
                ==> r is Err && r->Err_0 == ProgramError::Custom(ReflexError::InvalidAddress)
    &&& cfg_bytes.len() == Config::LEN && cfg.market_counter < u64::MAX && derived_at(
                pda,
                self.accounts.market_vault,
            ) && fee > u64::MAX ==> r is Err && r->Err_0 == ProgramError::ArithmeticOverflow
    &&& r is Ok <==> cfg_bytes.len() == Config::LEN && cfg.market_counter < u64::MAX
                && derived_at(pda, self.accounts.market_vault) && fee <= u64::MAX
    &&& r matches Ok(o) ==> {
                &&& o.config@ == (ConfigView { market_counter: n, ..cfg })
                &&& o.market_vault == MarketVault::spec_opened(
                    n,
                    self.accounts.briber.address,
                    self.accounts.outcome_yes_mint.address,
                    self.accounts.outcome_no_mint.address,
                    self.accounts.incentive_mint.address,
                    cfg.briber_fee_bps,
                    bump_of(pda),
                    self.data.amount,
                )
                &&& o.actions@ == self.spec_actions(bump_of(pda), fee as u64)
            }
        })
    }

    /// Opens the market numbered by the advanced counter.
    ///
    /// Fails, changing nothing, when the configuration record has the wrong size, when
    /// the counter is at `u64::MAX`, when the market account is not the one derived from
    /// the new counter, or when the fee does not fit in a `u64`. Otherwise the counter is
    /// one higher, the market is open with the full amount escrowed and the briber fee
    /// rate of the configuration, and the calls are those of `spec_actions`.
    pub fn process(&self) -> (r: Result<CreateMarketVaultOutcome, ProgramError>)
        ensures
            self.spec_process(r),
    {
        let a = &self.accounts;
        let mut config = Config::load(a.config.data.as_slice())?;
        config.add_market_counter()?;
        let counter = config.market_counter();
        let market_pda = Pda::MarketVault { counter };
        let (market_vault_address, market_vault_bump) = market_pda.find()?;
        if !same_address(&market_vault_address, &a.market_vault.address) {
            return Err(ProgramError::Custom(ReflexError::InvalidAddress));
        }
        let fee = fee_calculation(self.data.amount, config.fee_bps())?;

        let mut actions: Vec<Action> = Vec::new();
        actions.push(
            Account::init_pda(
                a.briber,
                a.market_vault,
                MarketVault::LEN as u64,
                market_pda,
                market_vault_bump,
            ),
        );
        let (create, open) = TokenAcocuntInterface::init_with_seeds(
            a.market_vault_treasury,
            a.briber,
            a.market_vault,
            a.incentive_mint,
            a.token_program,
            Pda::MarketTreasury { market: a.market_vault.address },
            a.market_vault_treasury_bump,
        );
        actions.push(create);
        actions.push(open);
        let (create, open) = TokenAcocuntInterface::init_with_seeds(
            a.outcome_yes_vault,
            a.briber,
            a.market_vault,
            a.outcome_yes_mint,
            a.token_program,
            Pda::OutcomeVault { market: a.market_vault.address, mint: a.outcome_yes_mint.address },
            a.bump_outcome_yes_vault,
        );
        actions.push(create);
        actions.push(open);
        let (create, open) = TokenAcocuntInterface::init_with_seeds(
            a.outcome_no_vault,
            a.briber,
            a.market_vault,
            a.outcome_no_mint,
            a.token_program,
            Pda::OutcomeVault { market: a.market_vault.address, mint: a.outcome_no_mint.address },
            a.bump_outcome_no_vault,
        );
        actions.push(create);
        actions.push(open);
        actions.push(MintInterface::transfer(a.briber_ata, a.treasury, a.briber, fee));
        actions.push(
            MintInterface::transfer(a.briber_ata, a.market_vault_treasury, a.briber, self.data.amount),
        );

        let market_vault = MarketVault::new(
            counter,
            &a.briber.address,
            &a.outcome_yes_mint.address,
            &a.outcome_no_mint.address,
            &a.incentive_mint.address,
            config.briber_fee_bps(),
            market_vault_bump,
            self.data.amount,
        );
        assert(actions@ =~= self.spec_actions(market_vault_bump, fee));
        Ok(CreateMarketVaultOutcome { config, market_vault, actions })
    }
}

} // verus!
