use vstd::prelude::*;

use crate::account::{
    check_then, outcome, require_derived, spec_derived_check, spec_program_account_check,
    spec_signer_check, Account, AccountState,
};
use crate::action::Action;
use crate::address::{same_address, Pda, ID, SYSTEM_PROGRAM_ID};
use crate::errors::{ProgramError, ReflexError};
use crate::instructions::add_incentives::add_incentives_accounts_valid;
use crate::instructions::stake_outcome_token::stake_accounts_valid;
use crate::instructions::unstake_outcome_token::unstake_accounts_valid;
use crate::interfaces::MintInterface;
use crate::states::market_vault::{market_load_check, market_bytes_valid, market_from_bytes, MarketVault, MarketVaultView};

verus! {

/// The briber withdraws a market on which no fee was ever taken: the incentives go back
/// and the market record is closed.
pub struct CancelMarket<'a> {
    pub accounts: CancelMarketAccounts<'a>,
}

/// The accounts of `CancelMarket`, checked.
pub struct CancelMarketAccounts<'a> {
    pub briber: &'a AccountState,
    pub market: &'a AccountState,
    pub briber_ata: &'a AccountState,
    pub market_incentive_vault: &'a AccountState,
}

/// The checks on the accounts of `CancelMarket` (briber, market, briber's custody record,
/// market treasury, asset program, system program): the briber signed, this program owns
/// the market, and the treasury is the market's derived one.
pub open spec fn cancel_accounts_check(s: Seq<AccountState>) -> Result<(), ProgramError> {
    if s.len() != 6 {
        Err(ProgramError::InvalidAccountData)
    } else {
        let c = spec_signer_check(&s[0]);
        let c = check_then(c, spec_program_account_check(&s[1]));
        check_then(
            c,
            spec_derived_check(Pda::MarketTreasury { market: s[1].address }, &s[3]),
        )
    }
}

/// The accounts pass every check of `cancel_accounts_check`.
pub open spec fn cancel_accounts_valid(s: Seq<AccountState>) -> bool {
    cancel_accounts_check(s) is Ok
}

impl<'a> CancelMarketAccounts<'a> {
    /// These are the accounts of `s`, in order.
    pub open spec fn spec_parsed_from(self, s: Seq<AccountState>) -> bool {
        &&& *self.briber == s[0]
        &&& *self.market == s[1]
        &&& *self.briber_ata == s[2]
        &&& *self.market_incentive_vault == s[3]
    }

    /// Checks the six accounts; any other number is refused as `InvalidAccountData`.
    pub fn try_from(accounts: &'a [AccountState]) -> (r: Result<CancelMarketAccounts<'a>, ProgramError>)
        ensures
            outcome(r) == cancel_accounts_check(accounts@),
            r is Ok <==> cancel_accounts_valid(accounts@),
            r matches Ok(v) ==> v.spec_parsed_from(accounts@),
    {
        if accounts.len() != 6 {
            return Err(ProgramError::InvalidAccountData);
        }
        let briber = &accounts[0];
        let market = &accounts[1];
        let briber_ata = &accounts[2];
        let market_incentive_vault = &accounts[3];

        Account::signer_check(briber)?;
        Account::program_account_check(market)?;
        require_derived(
            &Pda::MarketTreasury { market: market.address },
            market_incentive_vault,
        )?;
        Ok(CancelMarketAccounts { briber, market, briber_ata, market_incentive_vault })
    }
}

impl<'a> CancelMarket<'a> {
    pub const DISCRIMINATOR: u8 = 5;

    /// Checks the accounts; the operation has no payload.
    pub fn try_from(accounts: &'a [AccountState]) -> (r: Result<CancelMarket<'a>, ProgramError>)
        ensures
            outcome(r) == cancel_accounts_check(accounts@),
            r matches Ok(ix) ==> ix.accounts.spec_parsed_from(accounts@),
    {
        let accounts = CancelMarketAccounts::try_from(accounts)?;
        Ok(CancelMarket { accounts })
    }

    pub open spec fn spec_market(self) -> MarketVaultView {
        market_from_bytes(self.accounts.market.data@)
    }

    /// The calls of a successful cancellation: the market treasury pays all incentives
    /// back to the briber under the market's authority, which signs as its derived record;
    /// then the market record is closed in favour of the briber.
    pub open spec fn spec_actions(self) -> Seq<Action> {
        let a = self.accounts;
        let m = self.spec_market();
        seq![
            Action::Transfer {
                from: a.market_incentive_vault.address,
                to: a.briber_ata.address,
                authority: a.market.address,
                amount: m.total_incentives,
                signer: Some((Pda::MarketVault { counter: m.id }, m.bump)),
            },
            Action::Close { account: a.market.address, destination: a.briber.address },
        ]
    }

    /// What `process` gives: its result `r` on these accounts and this payload.
    pub open spec fn spec_process(self, r: Result<Vec<Action>, ProgramError>) -> bool {
        &&& ({
            let bytes = self.accounts.market.data@;
            let m = self.spec_market();
            &&& r is Ok <==> market_bytes_valid(bytes) && m.briber == self.accounts.briber.address@
                && m.total_yes_fees == 0 && m.total_no_fees == 0
            &&& market_bytes_valid(bytes) && m.briber != self.accounts.briber.address@ ==> r
                is Err && r->Err_0 == ProgramError::Custom(ReflexError::InvalidAddress)
            &&& market_bytes_valid(bytes) && m.briber == self.accounts.briber.address@ && (
            m.total_yes_fees != 0 || m.total_no_fees != 0) ==> r is Err && r->Err_0
                == ProgramError::Custom(ReflexError::MarketCanNotBeCancelled)
            &&& r matches Ok(actions) ==> actions@ == self.spec_actions()
        })
        &&& market_load_check(self.accounts.market.data@) is Err ==> outcome(r)
            == market_load_check(self.accounts.market.data@)
    }

    /// Cancels the market. It must name this briber (else `InvalidAddress`), and it is
    /// cancellable exactly when no fee was taken on either side (else
    /// `MarketCanNotBeCancelled`).
    pub fn process(&self) -> (r: Result<Vec<Action>, ProgramError>)
        ensures
            self.spec_process(r),
    {
        let a = &self.accounts;
        let market = MarketVault::load(a.market.data.as_slice())?;
        if !same_address(&a.briber.address, &market.briber) {
            return Err(ProgramError::Custom(ReflexError::InvalidAddress));
        }
        if market.total_yes_fees() != 0 || market.total_no_fees() != 0 {
            return Err(ProgramError::Custom(ReflexError::MarketCanNotBeCancelled));
        }
        let mut actions: Vec<Action> = Vec::new();
        actions.push(
            MintInterface::transfer_signed(
                a.market_incentive_vault,
                a.briber_ata,
                a.market,
                market.total_incentives(),
                Pda::MarketVault { counter: market.id },
                market.bump,
            ),
        );
        actions.push(Account::close(a.market, a.briber));
        assert(actions@ =~= self.spec_actions());
        Ok(actions)
    }
}

/// An account as the runtime leaves it once closed: no balance, no data, and the system
/// program as owner.
pub open spec fn spec_closed(a: &AccountState) -> bool {
    a.lamports == 0 && a.data@.len() == 0 && a.owner@ == SYSTEM_PROGRAM_ID@
}

/// A closed market account is no longer a record of this program: it fails the ownership
/// check, its data is no market record, and no operation on a market accepts it.
pub proof fn lemma_closed_market_is_gone(a: &AccountState)
    requires
        spec_closed(a),
    ensures
        spec_program_account_check(a) is Err,
        !market_bytes_valid(a.data@),
        forall|s: Seq<AccountState>|
            s.len() > 1 && s[1] == *a ==> !cancel_accounts_valid(s) && !stake_accounts_valid(s)
                && !unstake_accounts_valid(s) && !add_incentives_accounts_valid(s),
{
    assert(ID@[0] == 0x67u8);
    assert(SYSTEM_PROGRAM_ID@[0] == 0u8);
}

} // verus!
