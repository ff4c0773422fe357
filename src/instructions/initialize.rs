use vstd::prelude::*;

use crate::account::{
    check_then, outcome, spec_derived_check,
    bump_of, derived_at, require_derived, spec_not_initialized_check, spec_signer_check, Account,
    AccountState,
};
use crate::action::Action;
use crate::address::Pda;
use crate::bytes::{read_u16, u16_at};
use crate::errors::{ProgramError, ReflexError};
use crate::instructions::rates_payload_check;
use crate::interfaces::{spec_mint_check, MintInterface, TokenAcocuntInterface};
use crate::states::config::Config;

verus! {

/// The authority sets the program up: the configuration record and the protocol's custody
/// records of its two incentive assets are allocated.
pub struct Initialize<'a> {
    pub accounts: InitializeAccounts<'a>,
    pub data: InitializeData,
}

/// The accounts of `Initialize`, checked, with the bumps of the three records.
pub struct InitializeAccounts<'a> {
    pub authority: &'a AccountState,
    pub config: &'a AccountState,
    pub wsol_mint: &'a AccountState,
    pub usdc_mint: &'a AccountState,
    pub wsol_treasury: &'a AccountState,
    pub usdc_treasury: &'a AccountState,
    pub bump: u8,
    pub bump_wsol_treasury: u8,
    pub bump_usdc_treasury: u8,
    pub token_program: &'a AccountState,
}

/// The payload of `Initialize`: the protocol fee rate and the briber fee rate, each two
/// little-endian bytes. Neither rate is bounded.
pub struct InitializeData {
    pub fee_bps: u16,
    pub briber_fee_bps: u16,
}

/// What `Initialize` writes and asks for.
pub struct InitializeOutcome {
    pub config: Config,
    pub actions: Vec<Action>,
}

/// Every check that the accounts of `Initialize` must pass, in the order given: authority,
/// config, first asset, second asset, their two treasuries, asset program, system program.
pub open spec fn initialize_accounts_check(s: Seq<AccountState>) -> Result<(), ProgramError> {
    if s.len() != 8 {
        Err(ProgramError::InvalidAccountData)
    } else {
        let c = spec_signer_check(&s[0]);
        let c = check_then(c, spec_not_initialized_check(&s[1]));
        let c = check_then(c, spec_mint_check(&s[2]));
        let c = check_then(c, spec_mint_check(&s[3]));
        let c = check_then(c, spec_not_initialized_check(&s[4]));
        let c = check_then(c, spec_not_initialized_check(&s[5]));
        let c = check_then(c, spec_derived_check(Pda::Config, &s[1]));
        let c = check_then(c, spec_derived_check(Pda::Treasury { mint: s[2].address }, &s[4]));
        check_then(c, spec_derived_check(Pda::Treasury { mint: s[3].address }, &s[5]))
    }
}

/// The accounts pass every check of `initialize_accounts_check`.
pub open spec fn initialize_accounts_valid(s: Seq<AccountState>) -> bool {
    initialize_accounts_check(s) is Ok
}

impl<'a> InitializeAccounts<'a> {
    /// These are the accounts of `s`, in order, with the bumps of their derivations.
    pub open spec fn spec_parsed_from(self, s: Seq<AccountState>) -> bool {
        &&& *self.authority == s[0]
        &&& *self.config == s[1]
        &&& *self.wsol_mint == s[2]
        &&& *self.usdc_mint == s[3]
        &&& *self.wsol_treasury == s[4]
        &&& *self.usdc_treasury == s[5]
        &&& *self.token_program == s[6]
        &&& self.bump == bump_of(Pda::Config)
        &&& self.bump_wsol_treasury == bump_of(Pda::Treasury { mint: s[2].address })
        &&& self.bump_usdc_treasury == bump_of(Pda::Treasury { mint: s[3].address })
    }

    /// Checks the eight accounts; any other number is refused as `InvalidAccountData`.
    pub fn try_from(accounts: &'a [AccountState]) -> (r: Result<InitializeAccounts<'a>, ProgramError>)
        ensures
            outcome(r) == initialize_accounts_check(accounts@),
            r is Ok <==> initialize_accounts_valid(accounts@),
            r matches Ok(v) ==> v.spec_parsed_from(accounts@),
    {
        if accounts.len() != 8 {
            return Err(ProgramError::InvalidAccountData);
        }
        let authority = &accounts[0];
        let config = &accounts[1];
        let wsol_mint = &accounts[2];
        let usdc_mint = &accounts[3];
        let wsol_treasury = &accounts[4];
        let usdc_treasury = &accounts[5];
        let token_program = &accounts[6];

        Account::signer_check(authority)?;
        Account::not_initialized_check(config)?;
        MintInterface::check(wsol_mint)?;
        MintInterface::check(usdc_mint)?;
        Account::not_initialized_check(wsol_treasury)?;
        Account::not_initialized_check(usdc_treasury)?;

        let bump = require_derived(&Pda::Config, config)?;
        let bump_wsol_treasury = require_derived(&Pda::Treasury { mint: wsol_mint.address }, wsol_treasury)?;
        let bump_usdc_treasury = require_derived(&Pda::Treasury { mint: usdc_mint.address }, usdc_treasury)?;

        Ok(InitializeAccounts {
            authority,
            config,
            wsol_mint,
            usdc_mint,
            wsol_treasury,
            usdc_treasury,
            bump,
            bump_wsol_treasury,
            bump_usdc_treasury,
            token_program,
        })
    }
}

impl InitializeData {
    /// Reads the two rates; a payload of another length than four bytes is refused.
    pub fn try_from(data: &[u8]) -> (r: Result<InitializeData, ProgramError>)
        ensures
            data@.len() != 4 ==> r == Err::<InitializeData, ProgramError>(
                ProgramError::Custom(ReflexError::InvalidAccountSize),
            ),
            data@.len() == 4 ==> (r matches Ok(d) && d.fee_bps == u16_at(data@, 0)
                && d.briber_fee_bps == u16_at(data@, 2)),
    {
        if data.len() != 4 {
            return Err(ProgramError::Custom(ReflexError::InvalidAccountSize));
        }
        Ok(InitializeData { fee_bps: read_u16(data, 0), briber_fee_bps: read_u16(data, 2) })
    }
}

impl<'a> Initialize<'a> {
    pub const DISCRIMINATOR: u8 = 0;

    /// Checks the accounts, then reads the payload.
    pub fn try_from(input: (&'a [u8], &'a [AccountState])) -> (r: Result<Initialize<'a>, ProgramError>)
        ensures
            outcome(r) == check_then(
                initialize_accounts_check(input.1@),
                rates_payload_check(input.0@),
            ),
            r matches Ok(ix) ==> ix.accounts.spec_parsed_from(input.1@) && ix.data.fee_bps
                == u16_at(input.0@, 0) && ix.data.briber_fee_bps == u16_at(input.0@, 2),
    {
        let (data, accounts) = input;
        let accounts = InitializeAccounts::try_from(accounts)?;
        let data = InitializeData::try_from(data)?;
        Ok(Initialize { accounts, data })
    }

    /// The calls of `Initialize`, in order: allocate the configuration record, then
    /// allocate and open the treasury of each asset, controlled by the configuration.
    pub open spec fn spec_actions(self) -> Seq<Action> {
        let a = self.accounts;
        seq![
            Action::CreateAccount {
                payer: a.authority.address,
                account: a.config.address,
                space: Config::LEN as u64,
                owner: crate::address::ID,
                pda: Pda::Config,
                bump: a.bump,
            },
            Action::CreateAccount {
                payer: a.authority.address,
                account: a.wsol_treasury.address,
                space: crate::interfaces::TOKEN_ACCOUNT_LEN as u64,
                owner: a.token_program.address,
                pda: Pda::Treasury { mint: a.wsol_mint.address },
                bump: a.bump_wsol_treasury,
            },
            Action::InitializeTokenAccount {
                account: a.wsol_treasury.address,
                mint: a.wsol_mint.address,
                owner: a.config.address,
            },
            Action::CreateAccount {
                payer: a.authority.address,
                account: a.usdc_treasury.address,
                space: crate::interfaces::TOKEN_ACCOUNT_LEN as u64,
                owner: a.token_program.address,
                pda: Pda::Treasury { mint: a.usdc_mint.address },
                bump: a.bump_usdc_treasury,
            },
            Action::InitializeTokenAccount {
                account: a.usdc_treasury.address,
                mint: a.usdc_mint.address,
                owner: a.config.address,
            },
        ]
    }

    /// What `process` gives: its result `r` on these accounts and this payload.
    pub open spec fn spec_process(self, r: InitializeOutcome) -> bool {
        &&& (r.config == Config::new_spec(
            self.accounts.authority.address,
            self.data.fee_bps,
            self.data.briber_fee_bps,
            self.accounts.bump,
        ))
        &&& (r.actions@ == self.spec_actions())
    }

    /// The configuration governed by the authority, with the two rates as given and the
    /// counter at zero, and the calls of `spec_actions`.
    pub fn process(&self) -> (r: InitializeOutcome)
        ensures
            self.spec_process(r),
    {
        let a = &self.accounts;
        let mut actions: Vec<Action> = Vec::new();
        actions.push(Account::init_pda(a.authority, a.config, Config::LEN as u64, Pda::Config, a.bump));
        let config = Config::new(a.authority.address, self.data.fee_bps, self.data.briber_fee_bps, a.bump);
        let (create, open) = TokenAcocuntInterface::init_with_seeds(
            a.wsol_treasury,
            a.authority,
            a.config,
            a.wsol_mint,
            a.token_program,
            Pda::Treasury { mint: a.wsol_mint.address },
            a.bump_wsol_treasury,
        );
        actions.push(create);
        actions.push(open);
        let (create, open) = TokenAcocuntInterface::init_with_seeds(
            a.usdc_treasury,
            a.authority,
            a.config,
            a.usdc_mint,
            a.token_program,
            Pda::Treasury { mint: a.usdc_mint.address },
            a.bump_usdc_treasury,
        );
        actions.push(create);
        actions.push(open);
        assert(actions@ =~= self.spec_actions());
        InitializeOutcome { config, actions }
    }
}

} // verus!
