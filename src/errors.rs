use vstd::prelude::*;

verus! {

/// Failures that belong to this program; each one travels as a custom error code.
#[derive(Clone, Copy, PartialEq, Eq, Debug, Structural)]
pub enum ReflexError {
    InvalidAccountSize,
    InvalidAddress,
    InvalidOutcomeMint,
    MarketWasSetted,
    MarketCanNotBeCancelled,
}

/// The error of a failed operation: a generic runtime failure or one of the program's own.
#[derive(Clone, Copy, PartialEq, Eq, Debug, Structural)]
pub enum ProgramError {
    Custom(ReflexError),
    InvalidArgument,
    InvalidInstructionData,
    InvalidAccountData,
    InvalidAccountOwner,
    AccountAlreadyInitialized,
    ArithmeticOverflow,
    InvalidSeeds,
}

impl ReflexError {
    /// The custom error code of each variant, in declaration order.
    pub open spec fn spec_code(self) -> u32 {
        match self {
            ReflexError::InvalidAccountSize => 0,
            ReflexError::InvalidAddress => 1,
            ReflexError::InvalidOutcomeMint => 2,
            ReflexError::MarketWasSetted => 3,
            ReflexError::MarketCanNotBeCancelled => 4,
        }
    }

    pub fn code(&self) -> (r: u32)
        ensures
            r == self.spec_code(),
    {
        match self {
            ReflexError::InvalidAccountSize => 0,
            ReflexError::InvalidAddress => 1,
            ReflexError::InvalidOutcomeMint => 2,
            ReflexError::MarketWasSetted => 3,
            ReflexError::MarketCanNotBeCancelled => 4,
        }
    }

    /// Reads a custom error code back; a code that names no variant is an invalid argument.
    pub fn try_from(code: u32) -> (r: Result<ReflexError, ProgramError>)
        ensures
            code <= 4 ==> (r matches Ok(e) && e.spec_code() == code),
            code > 4 ==> r == Err::<ReflexError, ProgramError>(ProgramError::InvalidArgument),
    {
        match code {
            0 => Ok(ReflexError::InvalidAccountSize),
            1 => Ok(ReflexError::InvalidAddress),
            2 => Ok(ReflexError::InvalidOutcomeMint),
            3 => Ok(ReflexError::MarketWasSetted),
            4 => Ok(ReflexError::MarketCanNotBeCancelled),
            _ => Err(ProgramError::InvalidArgument),
        }
    }

    pub open spec fn spec_to_str(self) -> &'static str {
        match self {
            ReflexError::InvalidAccountSize => "Error: The size accounts do not match",
            ReflexError::InvalidAddress => "Error: The accounts are not equals",
            ReflexError::InvalidOutcomeMint => "Error: The outcome mint account is not valid",
            ReflexError::MarketWasSetted => "Error: The market was already settled",
            ReflexError::MarketCanNotBeCancelled => "Error: The market can not be cancelled",
        }
    }

    /// A readable message for each variant.
    pub fn to_str(&self) -> (r: &'static str)
        ensures
            r == self.spec_to_str(),
    {
        match self {
            ReflexError::InvalidAccountSize => "Error: The size accounts do not match",
            ReflexError::InvalidAddress => "Error: The accounts are not equals",
            ReflexError::InvalidOutcomeMint => "Error: The outcome mint account is not valid",
            ReflexError::MarketWasSetted => "Error: The market was already settled",
            ReflexError::MarketCanNotBeCancelled => "Error: The market can not be cancelled",
        }
    }
}

/// Every code that `code` gives is read back by `try_from` as the same variant.
pub proof fn lemma_code_round_trip(e: ReflexError)
    ensures
        e.spec_code() <= 4,
        forall|f: ReflexError| f.spec_code() == e.spec_code() ==> f == e,
{
}

impl From<ReflexError> for ProgramError {
    fn from(e: ReflexError) -> (r: ProgramError)
        ensures
            r == ProgramError::Custom(e),
    {
        ProgramError::Custom(e)
    }
}

impl vstd::std_specs::convert::FromSpecImpl<ReflexError> for ProgramError {
    open spec fn obeys_from_spec() -> bool {
        true
    }

    open spec fn from_spec(e: ReflexError) -> ProgramError {
        ProgramError::Custom(e)
    }
}

} // verus!
