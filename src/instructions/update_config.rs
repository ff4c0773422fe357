use vstd::prelude::*;

use crate::account::{
    check_then, outcome, require_derived, spec_derived_check, spec_signer_check, Account,
    AccountState,
};
use crate::instructions::rates_payload_check;
use crate::instructions::settle_market::spec_config_authority_check;
use crate::address::{same_address, Pda};
use crate::bytes::{read_u16, u16_at};
use crate::errors::{ProgramError, ReflexError};
use crate::states::config::{config_from_bytes, Config, ConfigView};

verus! {

/// The authority named in the configuration replaces both fee rates. Markets already created keep the rate they
/// took at creation.
pub struct UpdateConfig<'a> {
    pub accounts: UpdateConfigAccounts<'a>,
    pub data: UpdateConfigData,
}

/// The accounts of `UpdateConfig`, checked: the signer is the configured authority.
pub struct UpdateConfigAccounts<'a> {
    pub authority: &'a AccountState,
    pub config: &'a AccountState,
}

/// The payload of `UpdateConfig`: the new protocol and briber fee rates, each two
/// little-endian bytes. Neither rate is bounded.
pub struct UpdateConfigData {
    pub new_fee_bps: u16,
    pub new_briber_fee_bps: u16,
}

/// The checks on the accounts of `UpdateConfig` (authority, config), in order: the
/// authority signed, the config is the derived configuration record, well formed, and
/// names that authority.
pub open spec fn update_config_accounts_check(s: Seq<AccountState>) -> Result<(), ProgramError> {
    if s.len() != 2 {
        Err(ProgramError::InvalidAccountData)
    } else {
        let c = spec_signer_check(&s[0]);
        let c = check_then(c, spec_derived_check(Pda::Config, &s[1]));
        check_then(c, spec_config_authority_check(&s[0], &s[1]))
    }
}

/// The accounts pass every check of `update_config_accounts_check`.
pub open spec fn update_config_accounts_valid(s: Seq<AccountState>) -> bool {
    update_config_accounts_check(s) is Ok
}

impl<'a> UpdateConfigAccounts<'a> {
    /// These are the accounts of `s`, in order.
    pub open spec fn spec_parsed_from(self, s: Seq<AccountState>) -> bool {
        *self.authority == s[0] && *self.config == s[1]
    }

    /// Checks the two accounts; any other number is refused as `InvalidAccountData`.
    pub fn try_from(accounts: &'a [AccountState]) -> (r: Result<UpdateConfigAccounts<'a>, ProgramError>)
        ensures
            outcome(r) == update_config_accounts_check(accounts@),
            r is Ok <==> update_config_accounts_valid(accounts@),
            r matches Ok(v) ==> v.spec_parsed_from(accounts@),
    {
        if accounts.len() != 2 {
            return Err(ProgramError::InvalidAccountData);
        }
        let authority = &accounts[0];
        let config = &accounts[1];
        Account::signer_check(authority)?;
        require_derived(&Pda::Config, config)?;
        let config_record = Config::load(config.data.as_slice())?;
        if !same_address(&config_record.authority, &authority.address) {
            return Err(ProgramError::Custom(ReflexError::InvalidAddress));
        }
        Ok(UpdateConfigAccounts { authority, config })
    }
}

impl UpdateConfigData {
    /// Reads the two rates; a payload of another length than four bytes is refused.
    pub fn try_from(bytes: &[u8]) -> (r: Result<UpdateConfigData, ProgramError>)
        ensures
            bytes@.len() != 4 ==> r == Err::<UpdateConfigData, ProgramError>(
                ProgramError::Custom(ReflexError::InvalidAccountSize),
            ),
            bytes@.len() == 4 ==> (r matches Ok(d) && d.new_fee_bps == u16_at(bytes@, 0)
                && d.new_briber_fee_bps == u16_at(bytes@, 2)),
    {
        if bytes.len() != 4 {
            return Err(ProgramError::Custom(ReflexError::InvalidAccountSize));
        }
        Ok(UpdateConfigData { new_fee_bps: read_u16(bytes, 0), new_briber_fee_bps: read_u16(bytes, 2) })
    }
}

impl<'a> UpdateConfig<'a> {
    pub const DISCRIMINATOR: u8 = 7;

    /// Checks the accounts, then reads the payload.
    pub fn try_from(input: (&'a [u8], &'a [AccountState])) -> (r: Result<UpdateConfig<'a>, ProgramError>)
        ensures
            outcome(r) == check_then(
                update_config_accounts_check(input.1@),
                rates_payload_check(input.0@),
            ),
            r matches Ok(ix) ==> ix.accounts.spec_parsed_from(input.1@) && ix.data.new_fee_bps
                == u16_at(input.0@, 0) && ix.data.new_briber_fee_bps == u16_at(input.0@, 2),
    {
        let (data, accounts) = input;
        let accounts = UpdateConfigAccounts::try_from(accounts)?;
        let data = UpdateConfigData::try_from(data)?;
        Ok(UpdateConfig { accounts, data })
    }

    /// What `process` gives: its result `r` on these accounts and this payload.
    pub open spec fn spec_process(self, r: Result<Config, ProgramError>) -> bool {
        &&& ({
            let bytes = self.accounts.config.data@;
            let c = config_from_bytes(bytes);
            &&& bytes.len() != Config::LEN ==> r == Err::<Config, ProgramError>(
                ProgramError::Custom(ReflexError::InvalidAccountSize),
            )
            &&& bytes.len() == Config::LEN && c.authority != self.accounts.authority.address@
                ==> r == Err::<Config, ProgramError>(
                ProgramError::Custom(ReflexError::InvalidAddress),
            )
            &&& bytes.len() == Config::LEN && c.authority == self.accounts.authority.address@
                ==> (r matches Ok(n) && n@ == (ConfigView {
                fee_bps: self.data.new_fee_bps,
                briber_fee_bps: self.data.new_briber_fee_bps,
                ..c
            }))
        })
    }

    /// Replaces both rates. The configuration must name the signer as its authority, else
    /// `InvalidAddress`; the rest of the record is kept.
    pub fn process(&self) -> (r: Result<Config, ProgramError>)
        ensures
            self.spec_process(r),
    {
        let mut config = Config::load(self.accounts.config.data.as_slice())?;
        if !same_address(&config.authority, &self.accounts.authority.address) {
            return Err(ProgramError::Custom(ReflexError::InvalidAddress));
        }
        config.set_fee_bps(self.data.new_fee_bps);
        config.set_briber_fee_bps(self.data.new_briber_fee_bps);
        Ok(config)
    }
}

} // verus!
