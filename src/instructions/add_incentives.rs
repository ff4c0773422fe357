use vstd::prelude::*;

use crate::account::{
    check_then, outcome, spec_derived_check,
    derived_at, require_derived, spec_program_account_check, spec_signer_check, Account,
    AccountState,
};
use crate::action::Action;
use crate::address::{same_address, Pda};
use crate::bytes::{read_u64, u64_at};
use crate::errors::{ProgramError, ReflexError};
use crate::interfaces::MintInterface;
use crate::math::{fee_calculation, fee_of};
use crate::states::market_vault::{
    market_load_check,
    market_bytes_valid, market_from_bytes, MarketVault, MarketVaultStatus, MarketVaultView,
};

verus! {

/// The briber of a market adds incentives to it, paying the market's own fee rate on them.
pub struct AddIncentives<'a> {
    pub accounts: AddIncentivesAccounts<'a>,
    pub data: AddIncentivesData,
}

/// The accounts of `AddIncentives`, checked.
pub struct AddIncentivesAccounts<'a> {
    pub briber: &'a AccountState,
    pub market: &'a AccountState,
    pub incentive_mint: &'a AccountState,
    pub briber_ata: &'a AccountState,
    pub market_incentive_vault: &'a AccountState,
    pub incentive_treasury: &'a AccountState,
}

/// The check on the payload of `AddIncentives`: eight bytes holding a nonzero amount.
pub open spec fn incentive_payload_check(b: Seq<u8>) -> Result<(), ProgramError> {
    if b.len() != 8 {
        Err(ProgramError::Custom(ReflexError::InvalidAccountSize))
    } else if u64_at(b, 0) == 0 {
        Err(ProgramError::InvalidInstructionData)
    } else {
        Ok(())
    }
}

/// The payload of `AddIncentives`: a nonzero amount, as eight little-endian bytes.
pub struct AddIncentivesData {
    pub amount: u64,
}

/// What a successful `AddIncentives` writes and asks for.
pub struct AddIncentivesOutcome {
    pub market: MarketVault,
    pub actions: Vec<Action>,
}

/// The checks on the accounts of `AddIncentives` (briber, market, incentive asset, briber's
/// custody record, market treasury, protocol treasury of the asset, asset program): the
/// briber signed, this program owns the market, and both treasuries are the derived ones.
pub open spec fn add_incentives_accounts_check(s: Seq<AccountState>) -> Result<(), ProgramError> {
    if s.len() != 7 {
        Err(ProgramError::InvalidAccountData)
    } else {
        let c = spec_signer_check(&s[0]);
        let c = check_then(c, spec_program_account_check(&s[1]));
        let c = check_then(c, spec_derived_check(Pda::Treasury { mint: s[2].address }, &s[5]));
        check_then(
            c,
            spec_derived_check(Pda::MarketTreasury { market: s[1].address }, &s[4]),
        )
    }
}

/// The accounts pass every check of `add_incentives_accounts_check`.
pub open spec fn add_incentives_accounts_valid(s: Seq<AccountState>) -> bool {
    add_incentives_accounts_check(s) is Ok
}

impl<'a> AddIncentivesAccounts<'a> {
    /// These are the accounts of `s`, in order.
    pub open spec fn spec_parsed_from(self, s: Seq<AccountState>) -> bool {
        &&& *self.briber == s[0]
        &&& *self.market == s[1]
        &&& *self.incentive_mint == s[2]
        &&& *self.briber_ata == s[3]
        &&& *self.market_incentive_vault == s[4]
        &&& *self.incentive_treasury == s[5]
    }

    /// Checks the seven accounts; any other number is refused as `InvalidAccountData`.
    pub fn try_from(accounts: &'a [AccountState]) -> (r: Result<AddIncentivesAccounts<'a>, ProgramError>)
        ensures
            outcome(r) == add_incentives_accounts_check(accounts@),
            r is Ok <==> add_incentives_accounts_valid(accounts@),
            r matches Ok(v) ==> v.spec_parsed_from(accounts@),
    {
        if accounts.len() != 7 {
            return Err(ProgramError::InvalidAccountData);
        }
        let briber = &accounts[0];
        let market = &accounts[1];
        let incentive_mint = &accounts[2];
        let briber_ata = &accounts[3];
        let market_incentive_vault = &accounts[4];
        let incentive_treasury = &accounts[5];

        Account::signer_check(briber)?;
        Account::program_account_check(market)?;
        require_derived(&Pda::Treasury { mint: incentive_mint.address }, incentive_treasury)?;
        require_derived(&Pda::MarketTreasury { market: market.address }, market_incentive_vault)?;

        Ok(AddIncentivesAccounts {
            briber,
            market,
            incentive_mint,
            briber_ata,
            market_incentive_vault,
            incentive_treasury,
        })
    }
}

impl AddIncentivesData {
    /// Reads the amount. A payload of another length than eight bytes is refused as
    /// `InvalidAccountSize`, an amount of zero as `InvalidInstructionData`.
    pub fn try_from(bytes: &[u8]) -> (r: Result<AddIncentivesData, ProgramError>)
        ensures
            bytes@.len() != 8 ==> r == Err::<AddIncentivesData, ProgramError>(
                ProgramError::Custom(ReflexError::InvalidAccountSize),
            ),
            bytes@.len() == 8 && u64_at(bytes@, 0) == 0 ==> r == Err::<AddIncentivesData, ProgramError>(
                ProgramError::InvalidInstructionData,
            ),
            bytes@.len() == 8 && u64_at(bytes@, 0) != 0 ==> (r matches Ok(d) && d.amount == u64_at(
                bytes@,
                0,
            )),
    {
        if bytes.len() != 8 {
            return Err(ProgramError::Custom(ReflexError::InvalidAccountSize));
        }
        let amount = read_u64(bytes, 0);
        if amount == 0 {
            return Err(ProgramError::InvalidInstructionData);
        }
        Ok(AddIncentivesData { amount })
    }
}

impl<'a> AddIncentives<'a> {
    pub const DISCRIMINATOR: u8 = 4;

    /// Checks the accounts, then reads the payload.
    pub fn try_from(input: (&'a [u8], &'a [AccountState])) -> (r: Result<AddIncentives<'a>, ProgramError>)
        ensures
            outcome(r) == check_then(
                add_incentives_accounts_check(input.1@),
                incentive_payload_check(input.0@),
            ),
            r matches Ok(ix) ==> ix.accounts.spec_parsed_from(input.1@) && ix.data.amount == u64_at(
                input.0@,
                0,
            ),
    {
        let (data, accounts) = input;
        let accounts = AddIncentivesAccounts::try_from(accounts)?;
        let data = AddIncentivesData::try_from(data)?;
        Ok(AddIncentives { accounts, data })
    }

    pub open spec fn spec_market(self) -> MarketVaultView {
        market_from_bytes(self.accounts.market.data@)
    }

    /// The add fails exactly when one of these holds.
    pub open spec fn spec_fails(self) -> bool {
        let a = self.accounts;
        let m = self.spec_market();
        ||| !market_bytes_valid(a.market.data@)
        ||| m.incentive_mint != a.incentive_mint.address@
        ||| m.briber != a.briber.address@
        ||| m.status == MarketVaultStatus::Settled
        ||| m.total_incentives + self.data.amount > u64::MAX
        ||| fee_of(self.data.amount, m.fee_bps) > u64::MAX
    }

    /// The calls of a successful add: the fee to the protocol treasury, then the full
    /// amount to the market treasury, both from the briber's custody record.
    pub open spec fn spec_actions(self) -> Seq<Action> {
        let a = self.accounts;
        seq![
            Action::Transfer {
                from: a.briber_ata.address,
                to: a.incentive_treasury.address,
                authority: a.briber.address,
                amount: fee_of(self.data.amount, self.spec_market().fee_bps) as u64,
                signer: None,
            },
            Action::Transfer {
                from: a.briber_ata.address,
                to: a.market_incentive_vault.address,
                authority: a.briber.address,
                amount: self.data.amount,
                signer: None,
            },
        ]
    }

    /// What `process` gives: its result `r` on these accounts and this payload.
    pub open spec fn spec_process(self, r: Result<AddIncentivesOutcome, ProgramError>) -> bool {
        &&& (r is Ok <==> !self.spec_fails())
        &&& (market_bytes_valid(self.accounts.market.data@) && (self.spec_market().incentive_mint
            != self.accounts.incentive_mint.address@ || self.spec_market().briber
            != self.accounts.briber.address@) ==> r is Err && r->Err_0 == ProgramError::Custom(
            ReflexError::InvalidAddress,
        ))
        &&& (market_bytes_valid(self.accounts.market.data@) && self.spec_market().incentive_mint
            == self.accounts.incentive_mint.address@ && self.spec_market().briber
            == self.accounts.briber.address@ && self.spec_market().status
            == MarketVaultStatus::Settled ==> r is Err && r->Err_0 == ProgramError::Custom(
            ReflexError::MarketWasSetted,
        ))
        &&& (r matches Ok(o) ==> {
            &&& o.market@ == (MarketVaultView {
                total_incentives: (self.spec_market().total_incentives + self.data.amount) as u64,
                ..self.spec_market()
            })
            &&& o.actions@ == self.spec_actions()
        })
        &&& market_load_check(self.accounts.market.data@) is Err ==> outcome(r)
            == market_load_check(self.accounts.market.data@)
        &&& market_bytes_valid(self.accounts.market.data@) && self.spec_market().incentive_mint
            == self.accounts.incentive_mint.address@ && self.spec_market().briber
            == self.accounts.briber.address@ && self.spec_market().status
            != MarketVaultStatus::Settled ==> (r is Err ==> r->Err_0
            == ProgramError::ArithmeticOverflow)
    }

    /// Adds the amount to the market's incentives, charging the fee rate the market took
    /// at creation. The market must name this briber and this asset (else `InvalidAddress`)
    /// and must not be settled (else `MarketWasSetted`).
    pub fn process(&self) -> (r: Result<AddIncentivesOutcome, ProgramError>)
        ensures
            self.spec_process(r),
    {
        let a = &self.accounts;
        let mut market = MarketVault::load(a.market.data.as_slice())?;
        if !same_address(&market.incentive_mint, &a.incentive_mint.address) {
            return Err(ProgramError::Custom(ReflexError::InvalidAddress));
        }
        if !same_address(&market.briber, &a.briber.address) {
            return Err(ProgramError::Custom(ReflexError::InvalidAddress));
        }
        if market.is_settled() {
            return Err(ProgramError::Custom(ReflexError::MarketWasSetted));
        }
        market.add_incentives(self.data.amount)?;
        let fee = fee_calculation(self.data.amount, market.fee_bps())?;

        let mut actions: Vec<Action> = Vec::new();
        actions.push(MintInterface::transfer(a.briber_ata, a.incentive_treasury, a.briber, fee));
        actions.push(
            MintInterface::transfer(a.briber_ata, a.market_incentive_vault, a.briber, self.data.amount),
        );
        assert(actions@ =~= self.spec_actions());
        Ok(AddIncentivesOutcome { market, actions })
    }
}

} // verus!
