use vstd::prelude::*;

use crate::account::{
    check_then, outcome, require_derived, spec_derived_check, spec_program_account_check,
    spec_signer_check, Account, AccountState,
};
use crate::action::Action;
use crate::address::{same_address, Pda};
use crate::bytes::{read_u64, u64_at};
use crate::errors::{ProgramError, ReflexError};
use crate::instructions::amount_payload_check;
use crate::interfaces::MintInterface;
use crate::states::farmer_position::{position_from_bytes, FarmerPosition, FarmerPositionView};
use crate::states::market_vault::{market_load_check, market_bytes_valid, market_from_bytes, MarketVault, MarketVaultView};

verus! {

/// A farmer takes staked outcome assets back: the stake of that side shrinks in the market
/// and in the position, and the market's vault pays the amount out.
pub struct UnstakeOutcomeToken<'a> {
    pub accounts: UnstakeOutcomeTokenAccounts<'a>,
    pub data: UnstakeOutcomeTokenData,
}

/// The accounts of `UnstakeOutcomeToken`, checked.
pub struct UnstakeOutcomeTokenAccounts<'a> {
    pub farmer: &'a AccountState,
    pub market: &'a AccountState,
    pub farmer_position: &'a AccountState,
    pub outcome_mint: &'a AccountState,
    pub farmer_outcome_ata: &'a AccountState,
    pub market_outcome_vault: &'a AccountState,
}

/// The payload of `UnstakeOutcomeToken`: the amount, as eight little-endian bytes.
pub struct UnstakeOutcomeTokenData {
    pub amount: u64,
}

/// What a successful `UnstakeOutcomeToken` writes and asks for.
pub struct UnstakeOutcomeTokenOutcome {
    pub market: MarketVault,
    pub farmer_position: FarmerPosition,
    pub actions: Vec<Action>,
}

/// Every check that the accounts of `UnstakeOutcomeToken` must pass, in the order given:
/// farmer, market, position, outcome asset, farmer's custody record, market vault of that
/// asset, asset program.
pub open spec fn unstake_accounts_check(s: Seq<AccountState>) -> Result<(), ProgramError> {
    if s.len() != 7 {
        Err(ProgramError::InvalidAccountData)
    } else {
        let c = spec_signer_check(&s[0]);
        let c = check_then(c, spec_program_account_check(&s[1]));
        let c = check_then(
            c,
            spec_derived_check(Pda::OutcomeVault { market: s[1].address, mint: s[3].address }, &s[5]),
        );
        check_then(
            c,
            spec_derived_check(Pda::FarmerPosition { market: s[1].address, farmer: s[0].address }, &s[2]),
        )
    }
}

/// The accounts pass every check of `unstake_accounts_check`.
pub open spec fn unstake_accounts_valid(s: Seq<AccountState>) -> bool {
    unstake_accounts_check(s) is Ok
}

impl<'a> UnstakeOutcomeTokenAccounts<'a> {
    /// These are the accounts of `s`, in order.
    pub open spec fn spec_parsed_from(self, s: Seq<AccountState>) -> bool {
        &&& *self.farmer == s[0]
        &&& *self.market == s[1]
        &&& *self.farmer_position == s[2]
        &&& *self.outcome_mint == s[3]
        &&& *self.farmer_outcome_ata == s[4]
        &&& *self.market_outcome_vault == s[5]
    }

    /// Checks the seven accounts; any other number is refused as `InvalidAccountData`.
    pub fn try_from(accounts: &'a [AccountState]) -> (r: Result<
        UnstakeOutcomeTokenAccounts<'a>,
        ProgramError,
    >)
        ensures
            outcome(r) == unstake_accounts_check(accounts@),
            r is Ok <==> unstake_accounts_valid(accounts@),
            r matches Ok(v) ==> v.spec_parsed_from(accounts@),
    {
        if accounts.len() != 7 {
            return Err(ProgramError::InvalidAccountData);
        }
        let farmer = &accounts[0];
        let market = &accounts[1];
        let farmer_position = &accounts[2];
        let outcome_mint = &accounts[3];
        let farmer_outcome_ata = &accounts[4];
        let market_outcome_vault = &accounts[5];

        Account::signer_check(farmer)?;
        Account::program_account_check(market)?;
        require_derived(
            &Pda::OutcomeVault { market: market.address, mint: outcome_mint.address },
            market_outcome_vault,
        )?;
        require_derived(
            &Pda::FarmerPosition { market: market.address, farmer: farmer.address },
            farmer_position,
        )?;

        Ok(UnstakeOutcomeTokenAccounts {
            farmer,
            market,
            farmer_position,
            outcome_mint,
            farmer_outcome_ata,
            market_outcome_vault,
        })
    }
}

impl UnstakeOutcomeTokenData {
    /// Reads the amount; a payload of another length than eight bytes is refused.
    pub fn try_from(bytes: &[u8]) -> (r: Result<UnstakeOutcomeTokenData, ProgramError>)
        ensures
            bytes@.len() != 8 ==> r == Err::<UnstakeOutcomeTokenData, ProgramError>(
                ProgramError::Custom(ReflexError::InvalidAccountSize),
            ),
            bytes@.len() == 8 ==> (r matches Ok(d) && d.amount == u64_at(bytes@, 0)),
    {
        if bytes.len() != 8 {
            return Err(ProgramError::Custom(ReflexError::InvalidAccountSize));
        }
        Ok(UnstakeOutcomeTokenData { amount: read_u64(bytes, 0) })
    }
}

/// The market after `amount` is taken from one side's stake.
pub open spec fn market_after_unstake(m: MarketVaultView, yes: bool, amount: int) -> MarketVaultView {
    if yes {
        MarketVaultView { total_yes_staked: (m.total_yes_staked - amount) as u64, ..m }
    } else {
        MarketVaultView { total_no_staked: (m.total_no_staked - amount) as u64, ..m }
    }
}

/// The position after `amount` is taken from one side's stake.
pub open spec fn position_after_unstake(p: FarmerPositionView, yes: bool, amount: int) -> FarmerPositionView {
    if yes {
        FarmerPositionView { yes_staked: (p.yes_staked - amount) as u64, ..p }
    } else {
        FarmerPositionView { no_staked: (p.no_staked - amount) as u64, ..p }
    }
}

impl<'a> UnstakeOutcomeToken<'a> {
    pub const DISCRIMINATOR: u8 = 3;

    /// Checks the accounts, then reads the payload.
    pub fn try_from(input: (&'a [u8], &'a [AccountState])) -> (r: Result<
        UnstakeOutcomeToken<'a>,
        ProgramError,
    >)
        ensures
            outcome(r) == check_then(
                unstake_accounts_check(input.1@),
                amount_payload_check(input.0@),
            ),
            r matches Ok(ix) ==> ix.accounts.spec_parsed_from(input.1@) && ix.data.amount == u64_at(
                input.0@,
                0,
            ),
    {
        let (data, accounts) = input;
        let accounts = UnstakeOutcomeTokenAccounts::try_from(accounts)?;
        let data = UnstakeOutcomeTokenData::try_from(data)?;
        Ok(UnstakeOutcomeToken { accounts, data })
    }

    pub open spec fn spec_market(self) -> MarketVaultView {
        market_from_bytes(self.accounts.market.data@)
    }

    pub open spec fn spec_position(self) -> FarmerPositionView {
        position_from_bytes(self.accounts.farmer_position.data@)
    }

    /// Whether the asset is the market's yes asset.
    pub open spec fn spec_is_yes(self) -> bool {
        self.accounts.outcome_mint.address@ == self.spec_market().outcome_yes_mint
    }

    /// Whether the asset is one of the market's two outcome assets.
    pub open spec fn spec_is_outcome(self) -> bool {
        self.spec_is_yes() || self.accounts.outcome_mint.address@
            == self.spec_market().outcome_no_mint
    }

    /// The stake of the asset's side, in the market and in the position.
    pub open spec fn spec_staked(self) -> (u64, u64) {
        if self.spec_is_yes() {
            (self.spec_market().total_yes_staked, self.spec_position().yes_staked)
        } else {
            (self.spec_market().total_no_staked, self.spec_position().no_staked)
        }
    }

    /// The one call of a successful unstake: the market's outcome vault pays the amount to
    /// the farmer, under the authority of the market, which signs as its derived record.
    pub open spec fn spec_actions(self) -> Seq<Action> {
        let a = self.accounts;
        seq![
            Action::Transfer {
                from: a.market_outcome_vault.address,
                to: a.farmer_outcome_ata.address,
                authority: a.market.address,
                amount: self.data.amount,
                signer: Some(
                    (Pda::MarketVault { counter: self.spec_market().id }, self.spec_market().bump),
                ),
            },
        ]
    }

    /// What `process` gives: its result `r` on these accounts and this payload.
    pub open spec fn spec_process(self, r: Result<UnstakeOutcomeTokenOutcome, ProgramError>) -> bool {
        &&& (r is Ok <==> market_bytes_valid(self.accounts.market.data@)
            && self.accounts.farmer_position.data@.len() == FarmerPosition::LEN
            && self.spec_is_outcome() && self.data.amount <= self.spec_staked().0
            && self.data.amount <= self.spec_staked().1)
        &&& (market_bytes_valid(self.accounts.market.data@)
            && self.accounts.farmer_position.data@.len() == FarmerPosition::LEN
            && !self.spec_is_outcome() ==> r is Err && r->Err_0
            == ProgramError::InvalidAccountData)
        &&& (market_bytes_valid(self.accounts.market.data@)
            && self.accounts.farmer_position.data@.len() == FarmerPosition::LEN
            && self.spec_is_outcome() && (self.data.amount > self.spec_staked().0
            || self.data.amount > self.spec_staked().1) ==> r is Err && r->Err_0
            == ProgramError::ArithmeticOverflow)
        &&& (r matches Ok(o) ==> {
            &&& o.market@ == market_after_unstake(
                self.spec_market(),
                self.spec_is_yes(),
                self.data.amount as int,
            )
            &&& o.farmer_position@ == position_after_unstake(
                self.spec_position(),
                self.spec_is_yes(),
                self.data.amount as int,
            )
            &&& o.actions@ == self.spec_actions()
        })
        &&& market_load_check(self.accounts.market.data@) is Err ==> outcome(r)
            == market_load_check(self.accounts.market.data@)
        &&& market_bytes_valid(self.accounts.market.data@) && self.accounts.farmer_position.data@.len()
            != FarmerPosition::LEN ==> r is Err && r->Err_0 == ProgramError::Custom(
            ReflexError::InvalidAccountSize,
        )
    }

    /// Takes the amount from the stake of the asset's side.
    ///
    /// Both records must be well formed and the asset one of the market's two outcome
    /// assets (else `InvalidAccountData`). Taking more than the market or the position
    /// holds on that side fails with `ArithmeticOverflow`; no failure changes a record or
    /// moves anything.
    pub fn process(&self) -> (r: Result<UnstakeOutcomeTokenOutcome, ProgramError>)
        ensures
            self.spec_process(r),
    {
        let a = &self.accounts;
        let mut market = MarketVault::load(a.market.data.as_slice())?;
        let mut position = FarmerPosition::load(a.farmer_position.data.as_slice())?;

        if same_address(&a.outcome_mint.address, &market.outcome_yes_mint) {
            market.sub_total_yes_staked(self.data.amount)?;
            position.sub_yes_staked(self.data.amount)?;
        } else if same_address(&a.outcome_mint.address, &market.outcome_no_mint) {
            market.sub_total_no_staked(self.data.amount)?;
            position.sub_no_staked(self.data.amount)?;
        } else {
            return Err(ProgramError::InvalidAccountData);
        }

        let mut actions: Vec<Action> = Vec::new();
        actions.push(
            MintInterface::transfer_signed(
                a.market_outcome_vault,
                a.farmer_outcome_ata,
                a.market,
                self.data.amount,
                Pda::MarketVault { counter: market.id },
                market.bump,
            ),
        );
        assert(actions@ =~= self.spec_actions());
        Ok(UnstakeOutcomeTokenOutcome { market, farmer_position: position, actions })
    }
}

} // verus!
