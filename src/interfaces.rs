//! Checks on asset identities and custody records, in either asset program's layout,
//! and the calls that move and hold assets.
use vstd::prelude::*;

use crate::account::{spec_derived_check, AccountState};
use crate::action::Action;
use crate::address::{same_address, Address, Pda, TOKEN_2022_PROGRAM_ID, TOKEN_PROGRAM_ID};
use crate::bytes::read_array32;
use crate::errors::{ProgramError, ReflexError};

verus! {

/// Size of an asset identity record in the legacy layout.
pub const MINT_LEN: usize = 82;

/// Size of a custody record in the legacy layout.
pub const TOKEN_ACCOUNT_LEN: usize = 165;

/// Offset of the discriminator byte in the newer layout.
pub const TOKEN_2022_ACCOUNT_DISCRIMINATOR_OFFSET: usize = 165;

/// Discriminator of an asset identity record in the newer layout.
pub const TOKEN_2022_MINT_DISCRIMINATOR: u8 = 0x01;

/// Discriminator of a custody record in the newer layout.
pub const TOKEN_2022_TOKEN_ACCOUNT_DISCRIMINATOR: u8 = 0x02;

/// A record of one of the two asset programs: in the legacy layout of exactly `legacy_len`
/// bytes, or in the newer layout with `discriminator` at the fixed offset.
pub open spec fn spec_asset_record_check(a: &AccountState, legacy_len: nat, discriminator: u8) -> Result<
    (),
    ProgramError,
> {
    if a.owner@ == TOKEN_PROGRAM_ID@ {
        if a.data@.len() != legacy_len {
            Err(ProgramError::Custom(ReflexError::InvalidAccountSize))
        } else {
            Ok(())
        }
    } else if a.owner@ == TOKEN_2022_PROGRAM_ID@ {
        if a.data@.len() <= TOKEN_2022_ACCOUNT_DISCRIMINATOR_OFFSET {
            Err(ProgramError::InvalidAccountData)
        } else if a.data@[TOKEN_2022_ACCOUNT_DISCRIMINATOR_OFFSET as int] != discriminator {
            Err(ProgramError::InvalidAccountData)
        } else {
            Ok(())
        }
    } else {
        Err(ProgramError::InvalidAccountOwner)
    }
}

fn asset_record_check(account: &AccountState, legacy_len: usize, discriminator: u8) -> (r: Result<
    (),
    ProgramError,
>)
    ensures
        r == spec_asset_record_check(account, legacy_len as nat, discriminator),
{
    if same_address(&account.owner, &TOKEN_PROGRAM_ID) {
        if account.data.len() != legacy_len {
            return Err(ProgramError::Custom(ReflexError::InvalidAccountSize));
        }
    } else if same_address(&account.owner, &TOKEN_2022_PROGRAM_ID) {
        if account.data.len() <= TOKEN_2022_ACCOUNT_DISCRIMINATOR_OFFSET {
            return Err(ProgramError::InvalidAccountData);
        }
        if account.data[TOKEN_2022_ACCOUNT_DISCRIMINATOR_OFFSET] != discriminator {
            return Err(ProgramError::InvalidAccountData);
        }
    } else {
        return Err(ProgramError::InvalidAccountOwner);
    }
    Ok(())
}

pub open spec fn spec_mint_check(a: &AccountState) -> Result<(), ProgramError> {
    spec_asset_record_check(a, MINT_LEN as nat, TOKEN_2022_MINT_DISCRIMINATOR)
}

pub open spec fn spec_token_account_shape_check(a: &AccountState) -> Result<(), ProgramError> {
    spec_asset_record_check(a, TOKEN_ACCOUNT_LEN as nat, TOKEN_2022_TOKEN_ACCOUNT_DISCRIMINATOR)
}

/// A legacy custody record of `mint` controlled by `authority`: the record is read as the
/// legacy asset program reads it (asset at offset 0, controller at offset 32).
pub open spec fn spec_token_account_check(
    account: &AccountState,
    authority: &AccountState,
    mint: &AccountState,
) -> Result<(), ProgramError> {
    if account.data@.len() != TOKEN_ACCOUNT_LEN {
        Err(ProgramError::InvalidAccountData)
    } else if account.owner@ != TOKEN_PROGRAM_ID@ {
        Err(ProgramError::InvalidAccountData)
    } else if account.data@.subrange(32, 64) != authority.address@ {
        Err(ProgramError::Custom(ReflexError::InvalidAddress))
    } else if account.data@.subrange(0, 32) != mint.address@ {
        Err(ProgramError::Custom(ReflexError::InvalidAddress))
    } else {
        Ok(())
    }
}

/// Asset identity records.
pub struct MintInterface;

impl MintInterface {
    /// The account is an asset identity record of either asset program.
    pub fn check(account: &AccountState) -> (r: Result<(), ProgramError>)
        ensures
            r == spec_mint_check(account),
    {
        asset_record_check(account, MINT_LEN, TOKEN_2022_MINT_DISCRIMINATOR)
    }

    /// Moves `amount` from `from` to `to`, signed by `authority` itself.
    pub fn transfer(
        from: &AccountState,
        to: &AccountState,
        authority: &AccountState,
        amount: u64,
    ) -> (r: Action)
        ensures
            r == (Action::Transfer {
                from: from.address,
                to: to.address,
                authority: authority.address,
                amount,
                signer: None,
            }),
    {
        Action::Transfer {
            from: from.address,
            to: to.address,
            authority: authority.address,
            amount,
            signer: None,
        }
    }

    /// Moves `amount` from `from` to `to`; the authority signs as the derived record `pda`
    /// with `bump`.
    pub fn transfer_signed(
        from: &AccountState,
        to: &AccountState,
        authority: &AccountState,
        amount: u64,
        pda: Pda,
        bump: u8,
    ) -> (r: Action)
        ensures
            r == (Action::Transfer {
                from: from.address,
                to: to.address,
                authority: authority.address,
                amount,
                signer: Some((pda, bump)),
            }),
    {
        Action::Transfer {
            from: from.address,
            to: to.address,
            authority: authority.address,
            amount,
            signer: Some((pda, bump)),
        }
    }
}

/// Custody records.
pub struct TokenAcocuntInterface;

impl TokenAcocuntInterface {
    /// The account is a custody record of either asset program.
    pub fn check(account: &AccountState) -> (r: Result<(), ProgramError>)
        ensures
            r == spec_token_account_shape_check(account),
    {
        asset_record_check(account, TOKEN_ACCOUNT_LEN, TOKEN_2022_TOKEN_ACCOUNT_DISCRIMINATOR)
    }

    /// The account is a legacy custody record of `mint` controlled by `authority`.
    pub fn token_account_check(
        account: &AccountState,
        authority: &AccountState,
        mint: &AccountState,
    ) -> (r: Result<(), ProgramError>)
        ensures
            r == spec_token_account_check(account, authority, mint),
    {
        if account.data.len() != TOKEN_ACCOUNT_LEN {
            return Err(ProgramError::InvalidAccountData);
        }
        if !same_address(&account.owner, &TOKEN_PROGRAM_ID) {
            return Err(ProgramError::InvalidAccountData);
        }
        let data = account.data.as_slice();
        let record_mint = read_array32(data, 0);
        let record_owner = read_array32(data, 32);
        if !same_address(&record_owner, &authority.address) {
            return Err(ProgramError::Custom(ReflexError::InvalidAddress));
        }
        if !same_address(&record_mint, &mint.address) {
            return Err(ProgramError::Custom(ReflexError::InvalidAddress));
        }
        Ok(())
    }

    /// The account sits at the associated custody address of (`owner`, `mint`) under
    /// `token_program`.
    pub fn ata_check(
        account: &AccountState,
        owner: &AccountState,
        mint: &AccountState,
        token_program: &AccountState,
    ) -> (r: Result<(), ProgramError>)
        ensures
            r == spec_derived_check(
                Pda::AssociatedToken {
                    owner: owner.address,
                    token_program: token_program.address,
                    mint: mint.address,
                },
                account,
            ),
    {
        let pda = Pda::AssociatedToken {
            owner: owner.address,
            token_program: token_program.address,
            mint: mint.address,
        };
        let (expected, _) = pda.find()?;
        if !same_address(&expected, &account.address) {
            return Err(ProgramError::Custom(ReflexError::InvalidAddress));
        }
        Ok(())
    }

    /// Allocates `account` as a custody record of `mint` controlled by `owner`, paid by
    /// `payer`; `account` signs as the derived record `pda` with `bump`.
    pub fn init_with_seeds(
        account: &AccountState,
        payer: &AccountState,
        owner: &AccountState,
        mint: &AccountState,
        token_program: &AccountState,
        pda: Pda,
        bump: u8,
    ) -> (r: (Action, Action))
        ensures
            r == (
                Action::CreateAccount {
                    payer: payer.address,
                    account: account.address,
                    space: TOKEN_ACCOUNT_LEN as u64,
                    owner: token_program.address,
                    pda,
                    bump,
                },
                Action::InitializeTokenAccount {
                    account: account.address,
                    mint: mint.address,
                    owner: owner.address,
                },
            ),
    {
        (
            Action::CreateAccount {
                payer: payer.address,
                account: account.address,
                space: TOKEN_ACCOUNT_LEN as u64,
                owner: token_program.address,
                pda,
                bump,
            },
            Action::InitializeTokenAccount {
                account: account.address,
                mint: mint.address,
                owner: owner.address,
            },
        )
    }
}

} // verus!
