use vstd::prelude::*;

use crate::address::Address;
use crate::bytes::{
    lemma_u64_round_trip, push_bytes, push_u64, read_array32, read_u64, u64_at, u64_bytes,
};
use crate::errors::{ProgramError, ReflexError};

verus! {

/// One farmer's stake in one market, on each side.
#[derive(Clone, Copy, Debug)]
pub struct FarmerPosition {
    pub farmer: Address,
    pub bump: u8,
    pub is_initialized: bool,
    pub yes_staked: u64,
    pub no_staked: u64,
}

/// What a position record holds.
pub struct FarmerPositionView {
    pub farmer: Seq<u8>,
    pub bump: u8,
    pub is_initialized: bool,
    pub yes_staked: u64,
    pub no_staked: u64,
}

impl View for FarmerPosition {
    type V = FarmerPositionView;

    open spec fn view(&self) -> FarmerPositionView {
        FarmerPositionView {
            farmer: self.farmer@,
            bump: self.bump,
            is_initialized: self.is_initialized,
            yes_staked: self.yes_staked,
            no_staked: self.no_staked,
        }
    }
}

/// The record held by `s`: farmer, bump, initialized flag (any nonzero byte is set),
/// yes stake, no stake, integers little-endian.
pub open spec fn position_from_bytes(s: Seq<u8>) -> FarmerPositionView {
    FarmerPositionView {
        farmer: s.subrange(0, 32),
        bump: s[32],
        is_initialized: s[33] != 0,
        yes_staked: u64_at(s, 34),
        no_staked: u64_at(s, 42),
    }
}

pub open spec fn bool_byte(b: bool) -> u8 {
    if b {
        1
    } else {
        0
    }
}

/// The bytes of a position record.
pub open spec fn position_bytes(v: FarmerPositionView) -> Seq<u8> {
    v.farmer + seq![v.bump, bool_byte(v.is_initialized)] + u64_bytes(v.yes_staked) + u64_bytes(
        v.no_staked,
    )
}

/// Encoding a position and reading it back gives the position.
pub proof fn lemma_position_round_trip(v: FarmerPositionView)
    requires
        v.farmer.len() == 32,
    ensures
        position_bytes(v).len() == FarmerPosition::LEN,
        position_from_bytes(position_bytes(v)) == v,
{
    let s = position_bytes(v);
    lemma_u64_round_trip(v.yes_staked);
    lemma_u64_round_trip(v.no_staked);
    assert(s.subrange(0, 32) =~= v.farmer);
    assert(s.subrange(34, 42) =~= u64_bytes(v.yes_staked));
    assert(u64_at(s, 34) == u64_at(s.subrange(34, 42), 0));
    assert(s.subrange(42, 50) =~= u64_bytes(v.no_staked));
    assert(u64_at(s, 42) == u64_at(s.subrange(42, 50), 0));
}

/// Every position record the program writes has the record's size and loads back as
/// the same position.
pub proof fn lemma_position_record_loads(p: FarmerPosition)
    ensures
        position_bytes(p@).len() == FarmerPosition::LEN,
        position_from_bytes(position_bytes(p@)) == p@,
{
    lemma_position_round_trip(p@);
}

impl FarmerPosition {
    /// Size of the record in bytes.
    pub const LEN: usize = 50;

    /// Reads a record; a buffer of any other length than `LEN` is refused.
    pub fn load(bytes: &[u8]) -> (r: Result<FarmerPosition, ProgramError>)
        ensures
            bytes@.len() != FarmerPosition::LEN ==> r == Err::<FarmerPosition, ProgramError>(
                ProgramError::Custom(ReflexError::InvalidAccountSize),
            ),
            bytes@.len() == FarmerPosition::LEN ==> (r matches Ok(p) && p@ == position_from_bytes(
                bytes@,
            )),
    {
        if bytes.len() != Self::LEN {
            return Err(ProgramError::Custom(ReflexError::InvalidAccountSize));
        }
        let p = FarmerPosition {
            farmer: read_array32(bytes, 0),
            bump: bytes[32],
            is_initialized: bytes[33] != 0,
            yes_staked: read_u64(bytes, 34),
            no_staked: read_u64(bytes, 42),
        };
        assert(p@ == position_from_bytes(bytes@));
        Ok(p)
    }

    /// The record's bytes.
    pub fn to_bytes(&self) -> (r: Vec<u8>)
        ensures
            r@ == position_bytes(self@),
            r@.len() == FarmerPosition::LEN,
    {
        let mut r: Vec<u8> = Vec::new();
        push_bytes(&mut r, &self.farmer);
        r.push(self.bump);
        r.push(if self.is_initialized { 1u8 } else { 0u8 });
        push_u64(&mut r, self.yes_staked);
        push_u64(&mut r, self.no_staked);
        assert(r@ =~= position_bytes(self@));
        r
    }

    /// Opens the position of `farmer`, with nothing staked.
    pub fn set_inner(&mut self, farmer: Address, bump: u8)
        ensures
            *final(self) == (FarmerPosition {
                farmer,
                bump,
                is_initialized: true,
                yes_staked: 0,
                no_staked: 0,
            }),
    {
        self.farmer = farmer;
        self.yes_staked = 0;
        self.no_staked = 0;
        self.bump = bump;
        self.is_initialized = true;
    }

    /// Adds to the yes stake; an overflow fails and changes nothing.
    pub fn add_yes_staked(&mut self, amount: u64) -> (r: Result<(), ProgramError>)
        ensures
            old(self).yes_staked + amount <= u64::MAX ==> r is Ok && *final(self) == (
            FarmerPosition { yes_staked: (old(self).yes_staked + amount) as u64, ..*old(self) }),
            old(self).yes_staked + amount > u64::MAX ==> r == Err::<(), ProgramError>(
                ProgramError::ArithmeticOverflow,
            ) && *final(self) == *old(self),
    {
        match self.yes_staked.checked_add(amount) {
            Some(v) => {
                self.yes_staked = v;
                Ok(())
            },
            None => Err(ProgramError::ArithmeticOverflow),
        }
    }

    /// Adds to the no stake; an overflow fails and changes nothing.
    pub fn add_no_staked(&mut self, amount: u64) -> (r: Result<(), ProgramError>)
        ensures
            old(self).no_staked + amount <= u64::MAX ==> r is Ok && *final(self) == (
            FarmerPosition { no_staked: (old(self).no_staked + amount) as u64, ..*old(self) }),
            old(self).no_staked + amount > u64::MAX ==> r == Err::<(), ProgramError>(
                ProgramError::ArithmeticOverflow,
            ) && *final(self) == *old(self),
    {
        match self.no_staked.checked_add(amount) {
            Some(v) => {
                self.no_staked = v;
                Ok(())
            },
            None => Err(ProgramError::ArithmeticOverflow),
        }
    }

    /// Takes from the yes stake; taking more than is staked fails and changes nothing.
    pub fn sub_yes_staked(&mut self, amount: u64) -> (r: Result<(), ProgramError>)
        ensures
            amount <= old(self).yes_staked ==> r is Ok && *final(self) == (FarmerPosition {
                yes_staked: (old(self).yes_staked - amount) as u64,
                ..*old(self)
            }),
            amount > old(self).yes_staked ==> r == Err::<(), ProgramError>(
                ProgramError::ArithmeticOverflow,
            ) && *final(self) == *old(self),
    {
        match self.yes_staked.checked_sub(amount) {
            Some(v) => {
                self.yes_staked = v;
                Ok(())
            },
            None => Err(ProgramError::ArithmeticOverflow),
        }
    }

    /// Takes from the no stake; taking more than is staked fails and changes nothing.
    pub fn sub_no_staked(&mut self, amount: u64) -> (r: Result<(), ProgramError>)
        ensures
            amount <= old(self).no_staked ==> r is Ok && *final(self) == (FarmerPosition {
                no_staked: (old(self).no_staked - amount) as u64,
                ..*old(self)
            }),
            amount > old(self).no_staked ==> r == Err::<(), ProgramError>(
                ProgramError::ArithmeticOverflow,
            ) && *final(self) == *old(self),
    {
        match self.no_staked.checked_sub(amount) {
            Some(v) => {
                self.no_staked = v;
                Ok(())
            },
            None => Err(ProgramError::ArithmeticOverflow),
        }
    }
}

} // verus!
