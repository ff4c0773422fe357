use vstd::prelude::*;

use crate::account::{
    check_then, outcome, spec_derived_check,
    bump_of, derived_at, require_derived, spec_program_account_check, spec_signer_check, Account,
    AccountState,
};
use crate::action::Action;
use crate::address::{same_address, Pda, ID};
use crate::bytes::{read_u64, u64_at};
use crate::errors::{ProgramError, ReflexError};
use crate::instructions::amount_payload_check;
use crate::interfaces::{spec_mint_check, spec_token_account_check, MintInterface, TokenAcocuntInterface};
use crate::math::{fee_calculation, fee_of};
use crate::states::farmer_position::{position_from_bytes, FarmerPosition, FarmerPositionView};
use crate::states::market_vault::{
    market_load_check,
    market_bytes_valid, market_from_bytes, MarketVault, MarketVaultStatus, MarketVaultView,
};

verus! {

/// A farmer stakes an outcome asset in a market: the asset moves into the market's vault
/// of that side, the market's fee is taken from it, and the rest is credited to the side.
pub struct StakeOutcomeToken<'a> {
    pub accounts: StakeOutcomeTokenAccounts<'a>,
    pub data: StakeOutcomeTokenData,
}

/// The accounts of `StakeOutcomeToken`, checked, with the bump of the farmer's position.
pub struct StakeOutcomeTokenAccounts<'a> {
    pub farmer: &'a AccountState,
    pub market_vault: &'a AccountState,
    pub farmer_position: &'a AccountState,
    pub outcome_mint: &'a AccountState,
    pub market_outcome_vault: &'a AccountState,
    pub farmer_outcome_ata: &'a AccountState,
    pub bump_farmer_position: u8,
}

/// The payload of `StakeOutcomeToken`: the amount, as eight little-endian bytes.
pub struct StakeOutcomeTokenData {
    pub amount: u64,
}

/// What a successful `StakeOutcomeToken` writes and asks for.
pub struct StakeOutcomeTokenOutcome {
    pub market_vault: MarketVault,
    pub farmer_position: FarmerPosition,
    pub actions: Vec<Action>,
}

/// Every check that the accounts of `StakeOutcomeToken` must pass, in the order given:
/// farmer, market, position, outcome asset, market vault of that asset, farmer's custody
/// record, asset program, system program.
pub open spec fn stake_accounts_check(s: Seq<AccountState>) -> Result<(), ProgramError> {
    if s.len() != 8 {
        Err(ProgramError::InvalidAccountData)
    } else {
        let c = spec_signer_check(&s[0]);
        let c = check_then(c, spec_program_account_check(&s[1]));
        let c = check_then(c, spec_mint_check(&s[3]));
        let c = check_then(c, spec_token_account_check(&s[4], &s[1], &s[3]));
        let c = check_then(
            c,
            spec_derived_check(
                Pda::AssociatedToken {
                    owner: s[0].address,
                    token_program: s[6].address,
                    mint: s[3].address,
                },
                &s[5],
            ),
        );
        check_then(
            c,
            spec_derived_check(Pda::FarmerPosition { market: s[1].address, farmer: s[0].address }, &s[2]),
        )
    }
}

/// The accounts pass every check of `stake_accounts_check`.
pub open spec fn stake_accounts_valid(s: Seq<AccountState>) -> bool {
    stake_accounts_check(s) is Ok
}

impl<'a> StakeOutcomeTokenAccounts<'a> {
    /// These are the accounts of `s`, in order, with the bumps of their derivations.
    pub open spec fn spec_parsed_from(self, s: Seq<AccountState>) -> bool {
        &&& *self.farmer == s[0]
        &&& *self.market_vault == s[1]
        &&& *self.farmer_position == s[2]
        &&& *self.outcome_mint == s[3]
        &&& *self.market_outcome_vault == s[4]
        &&& *self.farmer_outcome_ata == s[5]
        &&& self.bump_farmer_position == bump_of(Pda::FarmerPosition { market: s[1].address, farmer: s[0].address })
    }

    /// Checks the eight accounts; any other number is refused as `InvalidAccountData`.
    pub fn try_from(accounts: &'a [AccountState]) -> (r: Result<
        StakeOutcomeTokenAccounts<'a>,
        ProgramError,
    >)
        ensures
            outcome(r) == stake_accounts_check(accounts@),
            r is Ok <==> stake_accounts_valid(accounts@),
            r matches Ok(v) ==> v.spec_parsed_from(accounts@),
    {
        if accounts.len() != 8 {
            return Err(ProgramError::InvalidAccountData);
        }
        let farmer = &accounts[0];
        let market_vault = &accounts[1];
        let farmer_position = &accounts[2];
        let outcome_mint = &accounts[3];
        let market_outcome_vault = &accounts[4];
        let farmer_outcome_ata = &accounts[5];
        let token_program = &accounts[6];

        Account::signer_check(farmer)?;
        Account::program_account_check(market_vault)?;
        MintInterface::check(outcome_mint)?;
        TokenAcocuntInterface::token_account_check(market_outcome_vault, market_vault, outcome_mint)?;
        TokenAcocuntInterface::ata_check(farmer_outcome_ata, farmer, outcome_mint, token_program)?;
        let bump_farmer_position = require_derived(
            &Pda::FarmerPosition { market: market_vault.address, farmer: farmer.address },
            farmer_position,
        )?;

        Ok(StakeOutcomeTokenAccounts {
            farmer,
            market_vault,
            farmer_position,
            outcome_mint,
            market_outcome_vault,
            farmer_outcome_ata,
            bump_farmer_position,
        })
    }
}

impl StakeOutcomeTokenData {
    /// Reads the amount; a payload of another length than eight bytes is refused.
    pub fn try_from(bytes: &[u8]) -> (r: Result<StakeOutcomeTokenData, ProgramError>)
        ensures
            bytes@.len() != 8 ==> r == Err::<StakeOutcomeTokenData, ProgramError>(
                ProgramError::Custom(ReflexError::InvalidAccountSize),
            ),
            bytes@.len() == 8 ==> (r matches Ok(d) && d.amount == u64_at(bytes@, 0)),
    {
        if bytes.len() != 8 {
            return Err(ProgramError::Custom(ReflexError::InvalidAccountSize));
        }
        Ok(StakeOutcomeTokenData { amount: read_u64(bytes, 0) })
    }
}

/// A position opened for `farmer` with nothing staked.
pub open spec fn fresh_position(farmer: Seq<u8>, bump: u8) -> FarmerPositionView {
    FarmerPositionView { farmer, bump, is_initialized: true, yes_staked: 0, no_staked: 0 }
}

/// The market after `staked` is credited to one side and `fee` to that side's fees.
pub open spec fn market_after_stake(m: MarketVaultView, yes: bool, staked: int, fee: int) -> MarketVaultView {
    if yes {
        MarketVaultView {
            total_yes_staked: (m.total_yes_staked + staked) as u64,
            total_yes_fees: (m.total_yes_fees + fee) as u64,
            ..m
        }
    } else {
        MarketVaultView {
            total_no_staked: (m.total_no_staked + staked) as u64,
            total_no_fees: (m.total_no_fees + fee) as u64,
            ..m
        }
    }
}

/// The position after `staked` is credited to one side.
pub open spec fn position_after_stake(p: FarmerPositionView, yes: bool, staked: int) -> FarmerPositionView {
    if yes {
        FarmerPositionView { yes_staked: (p.yes_staked + staked) as u64, ..p }
    } else {
        FarmerPositionView { no_staked: (p.no_staked + staked) as u64, ..p }
    }
}

/// No accumulator that a stake credits overflows.
pub open spec fn stake_fits(m: MarketVaultView, p: FarmerPositionView, yes: bool, staked: int, fee: int) -> bool {
    if yes {
        m.total_yes_staked + staked <= u64::MAX && m.total_yes_fees + fee <= u64::MAX
            && p.yes_staked + staked <= u64::MAX
    } else {
        m.total_no_staked + staked <= u64::MAX && m.total_no_fees + fee <= u64::MAX
            && p.no_staked + staked <= u64::MAX
    }
}

impl<'a> StakeOutcomeToken<'a> {
    pub const DISCRIMINATOR: u8 = 2;

    /// Checks the accounts, then reads the payload.
    pub fn try_from(input: (&'a [u8], &'a [AccountState])) -> (r: Result<
        StakeOutcomeToken<'a>,
        ProgramError,
    >)
        ensures
            outcome(r) == check_then(stake_accounts_check(input.1@), amount_payload_check(input.0@)),
            r matches Ok(ix) ==> ix.accounts.spec_parsed_from(input.1@) && ix.data.amount == u64_at(
                input.0@,
                0,
            ),
    {
        let (data, accounts) = input;
        let accounts = StakeOutcomeTokenAccounts::try_from(accounts)?;
        let data = StakeOutcomeTokenData::try_from(data)?;
        Ok(StakeOutcomeToken { accounts, data })
    }

    /// The market as its record holds it.
    pub open spec fn spec_market(self) -> MarketVaultView {
        market_from_bytes(self.accounts.market_vault.data@)
    }

    /// Whether the staked asset is the market's yes asset.
    pub open spec fn spec_is_yes(self) -> bool {
        self.accounts.outcome_mint.address@ == self.spec_market().outcome_yes_mint
    }

    /// The position before the stake: the one recorded, or a fresh one where none is.
    pub open spec fn spec_position(self) -> FarmerPositionView {
        let a = self.accounts;
        let recorded = position_from_bytes(a.farmer_position.data@);
        if a.farmer_position.owner@ == ID@ && recorded.is_initialized {
            recorded
        } else {
            fresh_position(a.farmer.address@, a.bump_farmer_position)
        }
    }

    /// The market record is well formed, names the asset as one of its two outcome assets,
    /// and is not settled.
    pub open spec fn spec_side_open(self) -> bool {
        let m = self.spec_market();
        &&& market_bytes_valid(self.accounts.market_vault.data@)
        &&& (self.accounts.outcome_mint.address@ == m.outcome_yes_mint
            || self.accounts.outcome_mint.address@ == m.outcome_no_mint)
        &&& m.status != MarketVaultStatus::Settled
    }

    /// The stake fails exactly when one of these holds.
    pub open spec fn spec_fails(self) -> bool {
        let a = self.accounts;
        let m = self.spec_market();
        let fee = fee_of(self.data.amount, m.fee_bps);
        ||| !market_bytes_valid(a.market_vault.data@)
        ||| (a.outcome_mint.address@ != m.outcome_yes_mint && a.outcome_mint.address@
            != m.outcome_no_mint)
        ||| m.status == MarketVaultStatus::Settled
        ||| (a.farmer_position.owner@ == ID@ && a.farmer_position.data@.len() != FarmerPosition::LEN)
        ||| fee > self.data.amount
        ||| !stake_fits(m, self.spec_position(), self.spec_is_yes(), self.data.amount - fee, fee)
    }

    /// The calls of a successful stake: allocate the position where this program does not
    /// own it yet, then move the whole amount into the market's vault.
    pub open spec fn spec_actions(self) -> Seq<Action> {
        let a = self.accounts;
        let transfer = Action::Transfer {
            from: a.farmer_outcome_ata.address,
            to: a.market_outcome_vault.address,
            authority: a.farmer.address,
            amount: self.data.amount,
            signer: None,
        };
        if a.farmer_position.owner@ == ID@ {
            seq![transfer]
        } else {
            seq![
                Action::CreateAccount {
                    payer: a.farmer.address,
                    account: a.farmer_position.address,
                    space: FarmerPosition::LEN as u64,
                    owner: ID,
                    pda: Pda::FarmerPosition { market: a.market_vault.address, farmer: a.farmer.address },
                    bump: a.bump_farmer_position,
                },
                transfer,
            ]
        }
    }

    /// What `process` gives: its result `r` on these accounts and this payload.
    pub open spec fn spec_process(self, r: Result<StakeOutcomeTokenOutcome, ProgramError>) -> bool {
        &&& (r is Ok <==> !self.spec_fails())
        &&& (!market_bytes_valid(self.accounts.market_vault.data@) ==> r is Err)
        &&& (market_bytes_valid(self.accounts.market_vault.data@) && self.accounts.outcome_mint.address@
            != self.spec_market().outcome_yes_mint && self.accounts.outcome_mint.address@
            != self.spec_market().outcome_no_mint ==> r is Err && r->Err_0
            == ProgramError::Custom(ReflexError::InvalidOutcomeMint))
        &&& (market_bytes_valid(self.accounts.market_vault.data@) && (self.accounts.outcome_mint.address@
            == self.spec_market().outcome_yes_mint || self.accounts.outcome_mint.address@
            == self.spec_market().outcome_no_mint) && self.spec_market().status
            == MarketVaultStatus::Settled ==> r is Err && r->Err_0 == ProgramError::Custom(
            ReflexError::MarketWasSetted,
        ))
        &&& (r matches Ok(o) ==> {
            let m = self.spec_market();
            let fee = fee_of(self.data.amount, m.fee_bps);
            let staked = self.data.amount - fee;
            &&& o.market_vault@ == market_after_stake(m, self.spec_is_yes(), staked, fee)
            &&& o.farmer_position@ == position_after_stake(
                self.spec_position(),
                self.spec_is_yes(),
                staked,
            )
            &&& o.actions@ == self.spec_actions()
        })
        &&& market_load_check(self.accounts.market_vault.data@) is Err ==> outcome(r)
            == market_load_check(self.accounts.market_vault.data@)
        &&& self.spec_side_open() && self.accounts.farmer_position.owner@ == ID@
            && self.accounts.farmer_position.data@.len() != FarmerPosition::LEN ==> r is Err
            && r->Err_0 == ProgramError::Custom(ReflexError::InvalidAccountSize)
        &&& self.spec_side_open() && !(self.accounts.farmer_position.owner@ == ID@
            && self.accounts.farmer_position.data@.len() != FarmerPosition::LEN) ==> (r is Err
            ==> r->Err_0 == ProgramError::ArithmeticOverflow)
    }

    /// Stakes the amount on the side of the named asset.
    ///
    /// The asset must be one of the market's two outcome assets and the market must not be
    /// settled. The fee is `fee_of(amount, market.fee_bps)`; `amount - fee` is credited to
    /// that side's stake, in the market and in the position, and `fee` to that side's fees.
    /// Any failure leaves every record as it was.
    pub fn process(&self) -> (r: Result<StakeOutcomeTokenOutcome, ProgramError>)
        ensures
            self.spec_process(r),
    {
        let a = &self.accounts;
        let mut market = MarketVault::load(a.market_vault.data.as_slice())?;
        let is_yes = same_address(&a.outcome_mint.address, &market.outcome_yes_mint);
        if !is_yes && !same_address(&a.outcome_mint.address, &market.outcome_no_mint) {
            return Err(ProgramError::Custom(ReflexError::InvalidOutcomeMint));
        }
        if market.is_settled() {
            return Err(ProgramError::Custom(ReflexError::MarketWasSetted));
        }

        let position_pda = Pda::FarmerPosition { market: a.market_vault.address, farmer: a.farmer.address };
        let mut actions: Vec<Action> = Vec::new();
        match Account::init_if_needed(
            a.farmer_position,
            a.farmer,
            FarmerPosition::LEN as u64,
            position_pda,
            a.bump_farmer_position,
        ) {
            Some(create) => actions.push(create),
            None => {},
        }
        actions.push(MintInterface::transfer(a.farmer_outcome_ata, a.market_outcome_vault, a.farmer, self.data.amount));

        let owned = same_address(&a.farmer_position.owner, &ID);
        let mut position = if owned {
            FarmerPosition::load(a.farmer_position.data.as_slice())?
        } else {
            FarmerPosition {
                farmer: a.farmer.address,
                bump: a.bump_farmer_position,
                is_initialized: false,
                yes_staked: 0,
                no_staked: 0,
            }
        };
        if !position.is_initialized {
            position.set_inner(a.farmer.address, a.bump_farmer_position);
        }
        assert(position@ == self.spec_position());

        let fees = fee_calculation(self.data.amount, market.fee_bps())?;
        let staked_amount = match self.data.amount.checked_sub(fees) {
            Some(v) => v,
            None => return Err(ProgramError::ArithmeticOverflow),
        };

        if is_yes {
            market.add_total_yes_staked(staked_amount)?;
            market.add_total_yes_fees(fees)?;
            position.add_yes_staked(staked_amount)?;
        } else {
            market.add_total_no_staked(staked_amount)?;
            market.add_total_no_fees(fees)?;
            position.add_no_staked(staked_amount)?;
        }
        assert(actions@ =~= self.spec_actions());
        Ok(StakeOutcomeTokenOutcome { market_vault: market, farmer_position: position, actions })
    }
}

} // verus!
