use vstd::prelude::*;

use crate::address::Address;
use crate::bytes::{
    lemma_u16_round_trip, lemma_u64_round_trip, push_bytes, push_u16, push_u64, read_array32,
    read_u16, read_u64, u16_at, u16_bytes, u64_at, u64_bytes,
};
use crate::errors::{ProgramError, ReflexError};

verus! {

/// The singleton configuration: who governs the program, the two fee rates and the
/// counter from which markets take their identity.
#[derive(Clone, Copy, Debug)]
pub struct Config {
    pub authority: Address,
    pub market_counter: u64,
    pub fee_bps: u16,
    pub briber_fee_bps: u16,
    pub bump: u8,
}

/// What a configuration record holds.
pub struct ConfigView {
    pub authority: Seq<u8>,
    pub market_counter: u64,
    pub fee_bps: u16,
    pub briber_fee_bps: u16,
    pub bump: u8,
}

impl View for Config {
    type V = ConfigView;

    open spec fn view(&self) -> ConfigView {
        ConfigView {
            authority: self.authority@,
            market_counter: self.market_counter,
            fee_bps: self.fee_bps,
            briber_fee_bps: self.briber_fee_bps,
            bump: self.bump,
        }
    }
}

/// The record held by `s`: authority, counter, protocol fee rate, briber fee rate, bump,
/// in that order, integers little-endian.
pub open spec fn config_from_bytes(s: Seq<u8>) -> ConfigView {
    ConfigView {
        authority: s.subrange(0, 32),
        market_counter: u64_at(s, 32),
        fee_bps: u16_at(s, 40),
        briber_fee_bps: u16_at(s, 42),
        bump: s[44],
    }
}

/// The bytes of a configuration record.
pub open spec fn config_bytes(v: ConfigView) -> Seq<u8> {
    v.authority + u64_bytes(v.market_counter) + u16_bytes(v.fee_bps) + u16_bytes(v.briber_fee_bps)
        + seq![v.bump]
}

/// Encoding a record and reading it back gives the record.
pub proof fn lemma_config_round_trip(v: ConfigView)
    requires
        v.authority.len() == 32,
    ensures
        config_bytes(v).len() == Config::LEN,
        config_from_bytes(config_bytes(v)) == v,
{
    let s = config_bytes(v);
    lemma_u64_round_trip(v.market_counter);
    lemma_u16_round_trip(v.fee_bps);
    lemma_u16_round_trip(v.briber_fee_bps);
    assert(s.subrange(0, 32) =~= v.authority);
    assert(s.subrange(32, 40) =~= u64_bytes(v.market_counter));
    assert(u64_at(s, 32) == u64_at(s.subrange(32, 40), 0));
    assert(s.subrange(40, 42) =~= u16_bytes(v.fee_bps));
    assert(u16_at(s, 40) == u16_at(s.subrange(40, 42), 0));
    assert(s.subrange(42, 44) =~= u16_bytes(v.briber_fee_bps));
    assert(u16_at(s, 42) == u16_at(s.subrange(42, 44), 0));
}

impl Config {
    /// Size of the record in bytes.
    pub const LEN: usize = 45;

    pub open spec fn new_spec(authority: Address, fee_bps: u16, briber_fee_bps: u16, bump: u8) -> Config {
        Config { authority, market_counter: 0, fee_bps, briber_fee_bps, bump }
    }

    /// A fresh configuration: the counter starts at zero.
    pub fn new(authority: Address, fee_bps: u16, briber_fee_bps: u16, bump: u8) -> (r: Config)
        ensures
            r == Config::new_spec(authority, fee_bps, briber_fee_bps, bump),
    {
        Config { authority, market_counter: 0, fee_bps, briber_fee_bps, bump }
    }

    /// Reads a record; a buffer of any other length than `LEN` is refused.
    pub fn load(bytes: &[u8]) -> (r: Result<Config, ProgramError>)
        ensures
            bytes@.len() != Config::LEN ==> r == Err::<Config, ProgramError>(
                ProgramError::Custom(ReflexError::InvalidAccountSize),
            ),
            bytes@.len() == Config::LEN ==> (r matches Ok(c) && c@ == config_from_bytes(bytes@)),
    {
        if bytes.len() != Self::LEN {
            return Err(ProgramError::Custom(ReflexError::InvalidAccountSize));
        }
        let c = Config {
            authority: read_array32(bytes, 0),
            market_counter: read_u64(bytes, 32),
            fee_bps: read_u16(bytes, 40),
            briber_fee_bps: read_u16(bytes, 42),
            bump: bytes[44],
        };
        assert(c@ == config_from_bytes(bytes@));
        Ok(c)
    }

    /// The record's bytes.
    pub fn to_bytes(&self) -> (r: Vec<u8>)
        ensures
            r@ == config_bytes(self@),
            r@.len() == Config::LEN,
    {
        let mut r: Vec<u8> = Vec::new();
        push_bytes(&mut r, &self.authority);
        push_u64(&mut r, self.market_counter);
        push_u16(&mut r, self.fee_bps);
        push_u16(&mut r, self.briber_fee_bps);
        r.push(self.bump);
        assert(r@ =~= config_bytes(self@));
        r
    }

    pub fn market_counter(&self) -> (r: u64)
        ensures
            r == self.market_counter,
    {
        self.market_counter
    }

    pub fn fee_bps(&self) -> (r: u16)
        ensures
            r == self.fee_bps,
    {
        self.fee_bps
    }

    pub fn briber_fee_bps(&self) -> (r: u16)
        ensures
            r == self.briber_fee_bps,
    {
        self.briber_fee_bps
    }

    /// Fills a newly allocated record; the counter starts at zero.
    pub fn set_inner(&mut self, authority: Address, fee_bps: u16, briber_fee_bps: u16, bump: u8)
        ensures
            *final(self) == Config::new_spec(authority, fee_bps, briber_fee_bps, bump),
    {
        self.authority = authority;
        self.market_counter = 0;
        self.fee_bps = fee_bps;
        self.briber_fee_bps = briber_fee_bps;
        self.bump = bump;
    }

    pub fn set_fee_bps(&mut self, fee_bps: u16)
        ensures
            *final(self) == (Config { fee_bps, ..*old(self) }),
    {
        self.fee_bps = fee_bps;
    }

    pub fn set_briber_fee_bps(&mut self, briber_fee_bps: u16)
        ensures
            *final(self) == (Config { briber_fee_bps, ..*old(self) }),
    {
        self.briber_fee_bps = briber_fee_bps;
    }

    /// Advances the market counter by one; at `u64::MAX` it fails and leaves the record as
    /// it was.
    pub fn add_market_counter(&mut self) -> (r: Result<(), ProgramError>)
        ensures
            old(self).market_counter < u64::MAX ==> r is Ok && *final(self) == (Config {
                market_counter: (old(self).market_counter + 1) as u64,
                ..*old(self)
            }),
            old(self).market_counter == u64::MAX ==> r == Err::<(), ProgramError>(
                ProgramError::ArithmeticOverflow,
            ) && *final(self) == *old(self),
    {
        match self.market_counter.checked_add(1) {
            Some(n) => {
                self.market_counter = n;
                Ok(())
            },
            None => Err(ProgramError::ArithmeticOverflow),
        }
    }
}

} // verus!
