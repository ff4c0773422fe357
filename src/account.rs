//! Plain views of the accounts an operation names, and the checks made on them.
use vstd::prelude::*;

use crate::action::Action;
use crate::address::{same_address, Address, Pda, ID, SYSTEM_PROGRAM_ID};
use crate::errors::{ProgramError, ReflexError};

verus! {

/// What an operation reads of an account: its identity, its owning program, its balance,
/// whether it signed, and its data.
#[derive(Debug)]
pub struct AccountState {
    pub address: Address,
    pub owner: Address,
    pub lamports: u64,
    pub is_signer: bool,
    pub data: Vec<u8>,
}

/// Checks on a single account and the system calls that allocate and close records.
pub struct Account;

pub open spec fn spec_program_account_check(a: &AccountState) -> Result<(), ProgramError> {
    if a.owner@ == ID@ {
        Ok(())
    } else {
        Err(ProgramError::InvalidAccountOwner)
    }
}

pub open spec fn spec_system_program_check(a: &AccountState) -> Result<(), ProgramError> {
    if a.owner@ == SYSTEM_PROGRAM_ID@ {
        Ok(())
    } else {
        Err(ProgramError::InvalidAccountOwner)
    }
}

pub open spec fn spec_signer_check(a: &AccountState) -> Result<(), ProgramError> {
    if a.is_signer {
        Ok(())
    } else {
        Err(ProgramError::InvalidAccountOwner)
    }
}

/// An account is free to allocate when the system program owns it and it holds nothing.
pub open spec fn spec_not_initialized_check(a: &AccountState) -> Result<(), ProgramError> {
    if a.owner@ != SYSTEM_PROGRAM_ID@ {
        Err(ProgramError::InvalidAccountOwner)
    } else if a.lamports > 0 {
        Err(ProgramError::AccountAlreadyInitialized)
    } else {
        Ok(())
    }
}

/// The first failure of two checks made in turn: `a`'s if it fails, else `b`'s outcome.
pub open spec fn check_then(a: Result<(), ProgramError>, b: Result<(), ProgramError>) -> Result<
    (),
    ProgramError,
> {
    if a is Err {
        a
    } else {
        b
    }
}

/// A result with its success value dropped.
pub open spec fn outcome<T>(r: Result<T, ProgramError>) -> Result<(), ProgramError> {
    match r {
        Ok(_) => Ok(()),
        Err(e) => Err(e),
    }
}

/// The check that `a` sits at the address derived from `pda`: `InvalidSeeds` where no
/// address can be derived, `InvalidAddress` where another one is.
pub open spec fn spec_derived_check(pda: Pda, a: &AccountState) -> Result<(), ProgramError> {
    match pda.spec_derived() {
        None => Err(ProgramError::InvalidSeeds),
        Some(p) => if p.0 == a.address@ {
            Ok(())
        } else {
            Err(ProgramError::Custom(ReflexError::InvalidAddress))
        },
    }
}

/// `a` is the account derived from `pda`.
pub open spec fn derived_at(pda: Pda, a: &AccountState) -> bool {
    pda.spec_derived() matches Some(p) && p.0 == a.address@
}

/// The bump with which `pda` is derived.
pub open spec fn bump_of(pda: Pda) -> u8 {
    pda.spec_derived()->Some_0.1
}

/// Recomputes the address of `pda` and compares it with `account`'s; gives the bump.
pub fn require_derived(pda: &Pda, account: &AccountState) -> (r: Result<u8, ProgramError>)
    ensures
        derived_at(*pda, account) <==> r is Ok,
        outcome(r) == spec_derived_check(*pda, account),
        r matches Ok(b) ==> b == bump_of(*pda),
        pda.spec_derived() is None ==> r == Err::<u8, ProgramError>(ProgramError::InvalidSeeds),
        pda.spec_derived() is Some && !derived_at(*pda, account) ==> r == Err::<u8, ProgramError>(
            ProgramError::Custom(ReflexError::InvalidAddress),
        ),
{
    let (address, bump) = pda.find()?;
    if !same_address(&address, &account.address) {
        return Err(ProgramError::Custom(ReflexError::InvalidAddress));
    }
    Ok(bump)
}

impl Account {
    /// The account belongs to this program.
    pub fn program_account_check(account: &AccountState) -> (r: Result<(), ProgramError>)
        ensures
            r == spec_program_account_check(account),
    {
        if !same_address(&account.owner, &ID) {
            return Err(ProgramError::InvalidAccountOwner);
        }
        Ok(())
    }

    /// The account belongs to the system program.
    pub fn system_program_check(account: &AccountState) -> (r: Result<(), ProgramError>)
        ensures
            r == spec_system_program_check(account),
    {
        if !same_address(&account.owner, &SYSTEM_PROGRAM_ID) {
            return Err(ProgramError::InvalidAccountOwner);
        }
        Ok(())
    }

    /// The account signed the operation.
    pub fn signer_check(account: &AccountState) -> (r: Result<(), ProgramError>)
        ensures
            r == spec_signer_check(account),
    {
        if !account.is_signer {
            return Err(ProgramError::InvalidAccountOwner);
        }
        Ok(())
    }

    /// The account is not allocated yet.
    pub fn not_initialized_check(account: &AccountState) -> (r: Result<(), ProgramError>)
        ensures
            r == spec_not_initialized_check(account),
    {
        Self::system_program_check(account)?;
        if account.lamports > 0 {
            return Err(ProgramError::AccountAlreadyInitialized);
        }
        Ok(())
    }

    /// Allocates `to` as a record of this program of `space` bytes, paid by `from`; `to`
    /// signs as the derived record `pda` with `bump`.
    pub fn init_pda(from: &AccountState, to: &AccountState, space: u64, pda: Pda, bump: u8) -> (r:
        Action)
        ensures
            r == (Action::CreateAccount {
                payer: from.address,
                account: to.address,
                space,
                owner: ID,
                pda,
                bump,
            }),
    {
        Action::CreateAccount { payer: from.address, account: to.address, space, owner: ID, pda, bump }
    }

    /// Allocates `account` as in `init_pda` unless this program owns it already.
    pub fn init_if_needed(
        account: &AccountState,
        from: &AccountState,
        space: u64,
        pda: Pda,
        bump: u8,
    ) -> (r: Option<Action>)
        ensures
            account.owner@ == ID@ ==> r is None,
            account.owner@ != ID@ ==> r == Some(
                Action::CreateAccount {
                    payer: from.address,
                    account: account.address,
                    space,
                    owner: ID,
                    pda,
                    bump,
                },
            ),
    {
        match Self::program_account_check(account) {
            Ok(_) => None,
            Err(_) => Some(Self::init_pda(from, account, space, pda, bump)),
        }
    }

    /// Closes `account` in favour of `destination`.
    pub fn close(account: &AccountState, destination: &AccountState) -> (r: Action)
        ensures
            r == (Action::Close { account: account.address, destination: destination.address }),
    {
        Action::Close { account: account.address, destination: destination.address }
    }
}

} // verus!
