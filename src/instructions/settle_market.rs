use vstd::prelude::*;

use crate::account::{
    check_then, outcome, require_derived, spec_derived_check, spec_signer_check, Account,
    AccountState,
};
use crate::address::{same_address, Pda};
use crate::errors::{ProgramError, ReflexError};
use crate::states::config::{config_from_bytes, Config};
use crate::states::market_vault::{
    market_load_check,
    market_bytes_valid, market_from_bytes, MarketVault, MarketVaultResolution, MarketVaultStatus,
    MarketVaultView,
};

verus! {

/// The authority resolves a market; a settled market is final.
pub struct SettleMarket<'a> {
    pub accounts: SettleMarketAccounts<'a>,
    pub data: SettleMarketData,
}

/// The accounts of `SettleMarket` once the authority is checked against the configuration.
pub struct SettleMarketAccounts<'a> {
    pub market: &'a AccountState,
}

/// The check on the payload of `SettleMarket`: one byte, 1 or 2.
pub open spec fn resolution_payload_check(b: Seq<u8>) -> Result<(), ProgramError> {
    if b.len() != 1 {
        Err(ProgramError::Custom(ReflexError::InvalidAccountSize))
    } else if b[0] != 1 && b[0] != 2 {
        Err(ProgramError::InvalidInstructionData)
    } else {
        Ok(())
    }
}

/// The payload of `SettleMarket`: one byte, 1 for yes and 2 for no.
pub struct SettleMarketData {
    pub resolution: MarketVaultResolution,
}

/// The check that `config` is a well-formed configuration record naming `authority` as
/// its authority.
pub open spec fn spec_config_authority_check(authority: &AccountState, config: &AccountState) -> Result<
    (),
    ProgramError,
> {
    if config.data@.len() != Config::LEN {
        Err(ProgramError::Custom(ReflexError::InvalidAccountSize))
    } else if config_from_bytes(config.data@).authority != authority.address@ {
        Err(ProgramError::Custom(ReflexError::InvalidAddress))
    } else {
        Ok(())
    }
}

/// The checks on the accounts of `SettleMarket` (authority, config, market), in order: the
/// authority signed, the config is the derived configuration record, well formed, and
/// names that authority.
pub open spec fn settle_accounts_check(s: Seq<AccountState>) -> Result<(), ProgramError> {
    if s.len() != 3 {
        Err(ProgramError::InvalidAccountData)
    } else {
        let c = spec_signer_check(&s[0]);
        let c = check_then(c, spec_derived_check(Pda::Config, &s[1]));
        check_then(c, spec_config_authority_check(&s[0], &s[1]))
    }
}

/// The accounts pass every check of `settle_accounts_check`.
pub open spec fn settle_accounts_valid(s: Seq<AccountState>) -> bool {
    settle_accounts_check(s) is Ok
}

impl<'a> SettleMarketAccounts<'a> {
    /// This is the market account of `s`.
    pub open spec fn spec_parsed_from(self, s: Seq<AccountState>) -> bool {
        *self.market == s[2]
    }

    /// Checks the three accounts; any other number is refused as `InvalidAccountData`.
    pub fn try_from(accounts: &'a [AccountState]) -> (r: Result<SettleMarketAccounts<'a>, ProgramError>)
        ensures
            outcome(r) == settle_accounts_check(accounts@),
            r is Ok <==> settle_accounts_valid(accounts@),
            r matches Ok(v) ==> v.spec_parsed_from(accounts@),
    {
        if accounts.len() != 3 {
            return Err(ProgramError::InvalidAccountData);
        }
        let authority = &accounts[0];
        let config = &accounts[1];
        let market = &accounts[2];

        Account::signer_check(authority)?;
        require_derived(&Pda::Config, config)?;
        let config_record = Config::load(config.data.as_slice())?;
        if !same_address(&config_record.authority, &authority.address) {
            return Err(ProgramError::Custom(ReflexError::InvalidAddress));
        }
        Ok(SettleMarketAccounts { market })
    }
}

impl SettleMarketData {
    /// Reads the resolution. A payload of another length than one byte is refused as
    /// `InvalidAccountSize`; a byte other than 1 or 2 as `InvalidInstructionData`.
    pub fn try_from(bytes: &[u8]) -> (r: Result<SettleMarketData, ProgramError>)
        ensures
            bytes@.len() != 1 ==> r == Err::<SettleMarketData, ProgramError>(
                ProgramError::Custom(ReflexError::InvalidAccountSize),
            ),
            bytes@.len() == 1 && bytes@[0] == 1 ==> (r matches Ok(d) && d.resolution
                == MarketVaultResolution::Yes),
            bytes@.len() == 1 && bytes@[0] == 2 ==> (r matches Ok(d) && d.resolution
                == MarketVaultResolution::No),
            bytes@.len() == 1 && bytes@[0] != 1 && bytes@[0] != 2 ==> r == Err::<
                SettleMarketData,
                ProgramError,
            >(ProgramError::InvalidInstructionData),
    {
        if bytes.len() != 1 {
            return Err(ProgramError::Custom(ReflexError::InvalidAccountSize));
        }
        let resolution = match bytes[0] {
            1 => MarketVaultResolution::Yes,
            2 => MarketVaultResolution::No,
            _ => return Err(ProgramError::InvalidInstructionData),
        };
        Ok(SettleMarketData { resolution })
    }
}

impl<'a> SettleMarket<'a> {
    pub const DISCRIMINATOR: u8 = 6;

    /// Checks the accounts, then reads the payload.
    pub fn try_from(input: (&'a [u8], &'a [AccountState])) -> (r: Result<SettleMarket<'a>, ProgramError>)
        ensures
            outcome(r) == check_then(settle_accounts_check(input.1@), resolution_payload_check(input.0@)),
            r matches Ok(ix) ==> ix.accounts.spec_parsed_from(input.1@) && ix.data.resolution == (if input.0@[0]
                == 1 {
                MarketVaultResolution::Yes
            } else {
                MarketVaultResolution::No
            }),
    {
        let (data, accounts) = input;
        let accounts = SettleMarketAccounts::try_from(accounts)?;
        let data = SettleMarketData::try_from(data)?;
        Ok(SettleMarket { accounts, data })
    }

    /// What `process` gives: its result `r` on these accounts and this payload.
    pub open spec fn spec_process(self, r: Result<MarketVault, ProgramError>) -> bool {
        &&& ({
            let bytes = self.accounts.market.data@;
            let m = market_from_bytes(bytes);
            &&& !market_bytes_valid(bytes) ==> r is Err
            &&& market_bytes_valid(bytes) && m.status == MarketVaultStatus::Settled ==> r
                == Err::<MarketVault, ProgramError>(
                ProgramError::Custom(ReflexError::MarketWasSetted),
            )
            &&& market_bytes_valid(bytes) && m.status != MarketVaultStatus::Settled ==> (r matches Ok(
                n,
            ) && n@ == (MarketVaultView {
                status: MarketVaultStatus::Settled,
                market_resolution: self.data.resolution,
                ..m
            }))
        })
        &&& market_load_check(self.accounts.market.data@) is Err ==> outcome(r)
            == market_load_check(self.accounts.market.data@)
    }

    /// Settles the market with the resolution given. A market already settled is refused
    /// with `MarketWasSetted`.
    pub fn process(&self) -> (r: Result<MarketVault, ProgramError>)
        ensures
            self.spec_process(r),
    {
        let mut market = MarketVault::load(self.accounts.market.data.as_slice())?;
        if market.is_settled() {
            return Err(ProgramError::Custom(ReflexError::MarketWasSetted));
        }
        market.set_as_settled();
        market.set_resolution(self.data.resolution);
        Ok(market)
    }
}

} // verus!
