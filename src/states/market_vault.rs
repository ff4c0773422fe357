use vstd::prelude::*;

use crate::address::Address;
use crate::bytes::{
    lemma_u16_round_trip, lemma_u64_round_trip, push_bytes, push_u16, push_u64, read_array32,
    read_u16, read_u64, u16_at, u16_bytes, u64_at, u64_bytes,
};
use crate::errors::{ProgramError, ReflexError};

verus! {

/// Where a market stands in its life.
#[derive(Clone, Copy, PartialEq, Eq, Debug, Structural)]
pub enum MarketVaultStatus {
    UnOpen,
    Open,
    Settled,
}

/// The outcome a settled market was resolved to.
#[derive(Clone, Copy, PartialEq, Eq, Debug, Structural)]
pub enum MarketVaultResolution {
    Unresolved,
    Yes,
    No,
}

pub open spec fn status_byte(s: MarketVaultStatus) -> u8 {
    match s {
        MarketVaultStatus::UnOpen => 0,
        MarketVaultStatus::Open => 1,
        MarketVaultStatus::Settled => 2,
    }
}

/// The status a byte stands for; only 0, 1 and 2 are statuses.
pub open spec fn status_of_byte(b: u8) -> MarketVaultStatus {
    if b == 0 {
        MarketVaultStatus::UnOpen
    } else if b == 1 {
        MarketVaultStatus::Open
    } else {
        MarketVaultStatus::Settled
    }
}

pub open spec fn resolution_byte(r: MarketVaultResolution) -> u8 {
    match r {
        MarketVaultResolution::Unresolved => 0,
        MarketVaultResolution::Yes => 1,
        MarketVaultResolution::No => 2,
    }
}

/// The resolution a byte stands for; only 0, 1 and 2 are resolutions.
pub open spec fn resolution_of_byte(b: u8) -> MarketVaultResolution {
    if b == 0 {
        MarketVaultResolution::Unresolved
    } else if b == 1 {
        MarketVaultResolution::Yes
    } else {
        MarketVaultResolution::No
    }
}

/// A market: its creator, its three assets, its accumulators, its fee rate and its state.
#[derive(Clone, Copy, Debug)]
pub struct MarketVault {
    pub briber: Address,
    pub outcome_yes_mint: Address,
    pub outcome_no_mint: Address,
    pub incentive_mint: Address,
    pub id: u64,
    pub total_incentives: u64,
    pub total_yes_staked: u64,
    pub total_no_staked: u64,
    pub total_yes_fees: u64,
    pub total_no_fees: u64,
    pub fee_bps: u16,
    pub status: MarketVaultStatus,
    pub market_resolution: MarketVaultResolution,
    pub fees_claimed: bool,
    pub bump: u8,
}

/// What a market record holds.
pub struct MarketVaultView {
    pub briber: Seq<u8>,
    pub outcome_yes_mint: Seq<u8>,
    pub outcome_no_mint: Seq<u8>,
    pub incentive_mint: Seq<u8>,
    pub id: u64,
    pub total_incentives: u64,
    pub total_yes_staked: u64,
    pub total_no_staked: u64,
    pub total_yes_fees: u64,
    pub total_no_fees: u64,
    pub fee_bps: u16,
    pub status: MarketVaultStatus,
    pub market_resolution: MarketVaultResolution,
    pub fees_claimed: bool,
    pub bump: u8,
}

impl View for MarketVault {
    type V = MarketVaultView;

    open spec fn view(&self) -> MarketVaultView {
        MarketVaultView {
            briber: self.briber@,
            outcome_yes_mint: self.outcome_yes_mint@,
            outcome_no_mint: self.outcome_no_mint@,
            incentive_mint: self.incentive_mint@,
            id: self.id,
            total_incentives: self.total_incentives,
            total_yes_staked: self.total_yes_staked,
            total_no_staked: self.total_no_staked,
            total_yes_fees: self.total_yes_fees,
            total_no_fees: self.total_no_fees,
            fee_bps: self.fee_bps,
            status: self.status,
            market_resolution: self.market_resolution,
            fees_claimed: self.fees_claimed,
            bump: self.bump,
        }
    }
}

/// Whether `s` is a well-formed market record: the right length, and a status and a
/// resolution byte that name a variant.
pub open spec fn market_bytes_valid(s: Seq<u8>) -> bool {
    s.len() == MarketVault::LEN && s[178] <= 2 && s[179] <= 2
}

/// The record held by `s`: briber, yes asset, no asset, incentive asset, id, incentives,
/// yes stake, no stake, yes fees, no fees, fee rate, status, resolution, fees-claimed flag
/// (any nonzero byte is set), bump; integers little-endian.
pub open spec fn market_from_bytes(s: Seq<u8>) -> MarketVaultView {
    MarketVaultView {
        briber: s.subrange(0, 32),
        outcome_yes_mint: s.subrange(32, 64),
        outcome_no_mint: s.subrange(64, 96),
        incentive_mint: s.subrange(96, 128),
        id: u64_at(s, 128),
        total_incentives: u64_at(s, 136),
        total_yes_staked: u64_at(s, 144),
        total_no_staked: u64_at(s, 152),
        total_yes_fees: u64_at(s, 160),
        total_no_fees: u64_at(s, 168),
        fee_bps: u16_at(s, 176),
        status: status_of_byte(s[178]),
        market_resolution: resolution_of_byte(s[179]),
        fees_claimed: s[180] != 0,
        bump: s[181],
    }
}

/// The bytes of a market record.
pub open spec fn market_bytes(v: MarketVaultView) -> Seq<u8> {
    v.briber + v.outcome_yes_mint + v.outcome_no_mint + v.incentive_mint + u64_bytes(v.id)
        + u64_bytes(v.total_incentives) + u64_bytes(v.total_yes_staked) + u64_bytes(
        v.total_no_staked,
    ) + u64_bytes(v.total_yes_fees) + u64_bytes(v.total_no_fees) + u16_bytes(v.fee_bps) + seq![
        status_byte(v.status),
        resolution_byte(v.market_resolution),
        if v.fees_claimed {
            1u8
        } else {
            0u8
        },
        v.bump,
    ]
}

proof fn lemma_u64_field(s: Seq<u8>, off: int, v: u64)
    requires
        0 <= off,
        off + 8 <= s.len(),
        s.subrange(off, off + 8) == u64_bytes(v),
    ensures
        u64_at(s, off) == v,
{
    lemma_u64_round_trip(v);
    assert(u64_at(s, off) == u64_at(s.subrange(off, off + 8), 0));
}

/// Encoding a market and reading it back gives the market, and the bytes are well formed.
pub proof fn lemma_market_round_trip(v: MarketVaultView)
    requires
        v.briber.len() == 32,
        v.outcome_yes_mint.len() == 32,
        v.outcome_no_mint.len() == 32,
        v.incentive_mint.len() == 32,
    ensures
        market_bytes_valid(market_bytes(v)),
        market_from_bytes(market_bytes(v)) == v,
{
    let s = market_bytes(v);
    assert(s.subrange(0, 32) =~= v.briber);
    assert(s.subrange(32, 64) =~= v.outcome_yes_mint);
    assert(s.subrange(64, 96) =~= v.outcome_no_mint);
    assert(s.subrange(96, 128) =~= v.incentive_mint);
    assert(s.subrange(128, 136) =~= u64_bytes(v.id));
    lemma_u64_field(s, 128, v.id);
    assert(s.subrange(136, 144) =~= u64_bytes(v.total_incentives));
    lemma_u64_field(s, 136, v.total_incentives);
    assert(s.subrange(144, 152) =~= u64_bytes(v.total_yes_staked));
    lemma_u64_field(s, 144, v.total_yes_staked);
    assert(s.subrange(152, 160) =~= u64_bytes(v.total_no_staked));
    lemma_u64_field(s, 152, v.total_no_staked);
    assert(s.subrange(160, 168) =~= u64_bytes(v.total_yes_fees));
    lemma_u64_field(s, 160, v.total_yes_fees);
    assert(s.subrange(168, 176) =~= u64_bytes(v.total_no_fees));
    lemma_u64_field(s, 168, v.total_no_fees);
    lemma_u16_round_trip(v.fee_bps);
    assert(s.subrange(176, 178) =~= u16_bytes(v.fee_bps));
    assert(u16_at(s, 176) == u16_at(s.subrange(176, 178), 0));
}

/// The check that `s` holds a market record: another length is refused as
/// `InvalidAccountSize`, a status or resolution byte that names no variant as
/// `InvalidAccountData`.
pub open spec fn market_load_check(s: Seq<u8>) -> Result<(), ProgramError> {
    if s.len() != MarketVault::LEN {
        Err(ProgramError::Custom(ReflexError::InvalidAccountSize))
    } else if !market_bytes_valid(s) {
        Err(ProgramError::InvalidAccountData)
    } else {
        Ok(())
    }
}

/// Every market record the program writes loads back as the same market.
pub proof fn lemma_market_record_loads(m: MarketVault)
    ensures
        market_load_check(market_bytes(m@)) is Ok,
        market_from_bytes(market_bytes(m@)) == m@,
{
    lemma_market_round_trip(m@);
}

impl MarketVault {
    /// Size of the record in bytes.
    pub const LEN: usize = 182;

    /// Reads a record. A buffer of another length than `LEN` is refused as
    /// `InvalidAccountSize`; a status or resolution byte that names no variant as
    /// `InvalidAccountData`.
    pub fn load(bytes: &[u8]) -> (r: Result<MarketVault, ProgramError>)
        ensures
            bytes@.len() != MarketVault::LEN ==> r == Err::<MarketVault, ProgramError>(
                ProgramError::Custom(ReflexError::InvalidAccountSize),
            ),
            bytes@.len() == MarketVault::LEN && !market_bytes_valid(bytes@) ==> r == Err::<
                MarketVault,
                ProgramError,
            >(ProgramError::InvalidAccountData),
            market_bytes_valid(bytes@) ==> (r matches Ok(m) && m@ == market_from_bytes(bytes@)),
    {
        if bytes.len() != Self::LEN {
            return Err(ProgramError::Custom(ReflexError::InvalidAccountSize));
        }
        let status = match bytes[178] {
            0 => MarketVaultStatus::UnOpen,
            1 => MarketVaultStatus::Open,
            2 => MarketVaultStatus::Settled,
            _ => return Err(ProgramError::InvalidAccountData),
        };
        let market_resolution = match bytes[179] {
            0 => MarketVaultResolution::Unresolved,
            1 => MarketVaultResolution::Yes,
            2 => MarketVaultResolution::No,
            _ => return Err(ProgramError::InvalidAccountData),
        };
        let m = MarketVault {
            briber: read_array32(bytes, 0),
            outcome_yes_mint: read_array32(bytes, 32),
            outcome_no_mint: read_array32(bytes, 64),
            incentive_mint: read_array32(bytes, 96),
            id: read_u64(bytes, 128),
            total_incentives: read_u64(bytes, 136),
            total_yes_staked: read_u64(bytes, 144),
            total_no_staked: read_u64(bytes, 152),
            total_yes_fees: read_u64(bytes, 160),
            total_no_fees: read_u64(bytes, 168),
            fee_bps: read_u16(bytes, 176),
            status,
            market_resolution,
            fees_claimed: bytes[180] != 0,
            bump: bytes[181],
        };
        assert(m@ == market_from_bytes(bytes@));
        Ok(m)
    }

    /// The record's bytes.
    pub fn to_bytes(&self) -> (r: Vec<u8>)
        ensures
            r@ == market_bytes(self@),
            r@.len() == MarketVault::LEN,
    {
        let mut r: Vec<u8> = Vec::new();
        push_bytes(&mut r, &self.briber);
        push_bytes(&mut r, &self.outcome_yes_mint);
        push_bytes(&mut r, &self.outcome_no_mint);
        push_bytes(&mut r, &self.incentive_mint);
        push_u64(&mut r, self.id);
        push_u64(&mut r, self.total_incentives);
        push_u64(&mut r, self.total_yes_staked);
        push_u64(&mut r, self.total_no_staked);
        push_u64(&mut r, self.total_yes_fees);
        push_u64(&mut r, self.total_no_fees);
        push_u16(&mut r, self.fee_bps);
        r.push(
            match self.status {
                MarketVaultStatus::UnOpen => 0u8,
                MarketVaultStatus::Open => 1u8,
                MarketVaultStatus::Settled => 2u8,
            },
        );
        r.push(
            match self.market_resolution {
                MarketVaultResolution::Unresolved => 0u8,
                MarketVaultResolution::Yes => 1u8,
                MarketVaultResolution::No => 2u8,
            },
        );
        r.push(if self.fees_claimed { 1u8 } else { 0u8 });
        r.push(self.bump);
        assert(r@ =~= market_bytes(self@));
        r
    }

    /// A market just opened: the given identities and rate, `initial_incentive_amount`
    /// escrowed, every other accumulator at zero, open and unresolved.
    pub fn set_inner(
        &mut self,
        id: u64,
        briber: &Address,
        outcome_yes_mint: &Address,
        outcome_no_mint: &Address,
        incentive_mint: &Address,
        fee_bps: u16,
        bump: u8,
        initial_incentive_amount: u64,
    )
        ensures
            *final(self) == MarketVault::spec_opened(
                id,
                *briber,
                *outcome_yes_mint,
                *outcome_no_mint,
                *incentive_mint,
                fee_bps,
                bump,
                initial_incentive_amount,
            ),
    {
        self.id = id;
        self.briber = *briber;
        self.outcome_yes_mint = *outcome_yes_mint;
        self.outcome_no_mint = *outcome_no_mint;
        self.incentive_mint = *incentive_mint;
        self.fee_bps = fee_bps;
        self.bump = bump;
        self.fees_claimed = false;
        self.total_incentives = initial_incentive_amount;
        self.status = MarketVaultStatus::Open;
        self.market_resolution = MarketVaultResolution::Unresolved;
        self.total_yes_staked = 0;
        self.total_no_staked = 0;
        self.total_yes_fees = 0;
        self.total_no_fees = 0;
    }

    pub open spec fn spec_opened(
        id: u64,
        briber: Address,
        outcome_yes_mint: Address,
        outcome_no_mint: Address,
        incentive_mint: Address,
        fee_bps: u16,
        bump: u8,
        initial_incentive_amount: u64,
    ) -> MarketVault {
        MarketVault {
            briber,
            outcome_yes_mint,
            outcome_no_mint,
            incentive_mint,
            id,
            total_incentives: initial_incentive_amount,
            total_yes_staked: 0,
            total_no_staked: 0,
            total_yes_fees: 0,
            total_no_fees: 0,
            fee_bps,
            status: MarketVaultStatus::Open,
            market_resolution: MarketVaultResolution::Unresolved,
            fees_claimed: false,
            bump,
        }
    }

    /// A market just opened; see `set_inner`.
    pub fn new(
        id: u64,
        briber: &Address,
        outcome_yes_mint: &Address,
        outcome_no_mint: &Address,
        incentive_mint: &Address,
        fee_bps: u16,
        bump: u8,
        initial_incentive_amount: u64,
    ) -> (r: MarketVault)
        ensures
            r == MarketVault::spec_opened(
                id,
                *briber,
                *outcome_yes_mint,
                *outcome_no_mint,
                *incentive_mint,
                fee_bps,
                bump,
                initial_incentive_amount,
            ),
    {
        MarketVault {
            briber: *briber,
            outcome_yes_mint: *outcome_yes_mint,
            outcome_no_mint: *outcome_no_mint,
            incentive_mint: *incentive_mint,
            id,
            total_incentives: initial_incentive_amount,
            total_yes_staked: 0,
            total_no_staked: 0,
            total_yes_fees: 0,
            total_no_fees: 0,
            fee_bps,
            status: MarketVaultStatus::Open,
            market_resolution: MarketVaultResolution::Unresolved,
            fees_claimed: false,
            bump,
        }
    }

    pub fn fee_bps(&self) -> (r: u16)
        ensures
            r == self.fee_bps,
    {
        self.fee_bps
    }

    pub fn total_yes_staked(&self) -> (r: u64)
        ensures
            r == self.total_yes_staked,
    {
        self.total_yes_staked
    }

    pub fn total_no_staked(&self) -> (r: u64)
        ensures
            r == self.total_no_staked,
    {
        self.total_no_staked
    }

    pub fn total_yes_fees(&self) -> (r: u64)
        ensures
            r == self.total_yes_fees,
    {
        self.total_yes_fees
    }

    pub fn total_no_fees(&self) -> (r: u64)
        ensures
            r == self.total_no_fees,
    {
        self.total_no_fees
    }

    pub fn total_incentives(&self) -> (r: u64)
        ensures
            r == self.total_incentives,
    {
        self.total_incentives
    }

    /// Adds to the yes stake; an overflow fails and changes nothing.
    pub fn add_total_yes_staked(&mut self, amount: u64) -> (r: Result<(), ProgramError>)
        ensures
            old(self).total_yes_staked + amount <= u64::MAX ==> r is Ok && *final(self) == (MarketVault {
                total_yes_staked: (old(self).total_yes_staked + amount) as u64,
                ..*old(self)
            }),
            old(self).total_yes_staked + amount > u64::MAX ==> r == Err::<(), ProgramError>(
                ProgramError::ArithmeticOverflow,
            ) && *final(self) == *old(self),
    {
        match self.total_yes_staked.checked_add(amount) {
            Some(v) => {
                self.total_yes_staked = v;
                Ok(())
            },
            None => Err(ProgramError::ArithmeticOverflow),
        }
    }

    /// Adds to the no stake; an overflow fails and changes nothing.
    pub fn add_total_no_staked(&mut self, amount: u64) -> (r: Result<(), ProgramError>)
        ensures
            old(self).total_no_staked + amount <= u64::MAX ==> r is Ok && *final(self) == (MarketVault {
                total_no_staked: (old(self).total_no_staked + amount) as u64,
                ..*old(self)
            }),
            old(self).total_no_staked + amount > u64::MAX ==> r == Err::<(), ProgramError>(
                ProgramError::ArithmeticOverflow,
            ) && *final(self) == *old(self),
    {
        match self.total_no_staked.checked_add(amount) {
            Some(v) => {
                self.total_no_staked = v;
                Ok(())
            },
            None => Err(ProgramError::ArithmeticOverflow),
        }
    }

    /// Takes from the yes stake; taking more than is staked fails and changes nothing.
    pub fn sub_total_yes_staked(&mut self, amount: u64) -> (r: Result<(), ProgramError>)
        ensures
            amount <= old(self).total_yes_staked ==> r is Ok && *final(self) == (MarketVault {
                total_yes_staked: (old(self).total_yes_staked - amount) as u64,
                ..*old(self)
            }),
            amount > old(self).total_yes_staked ==> r == Err::<(), ProgramError>(
                ProgramError::ArithmeticOverflow,
            ) && *final(self) == *old(self),
    {
        match self.total_yes_staked.checked_sub(amount) {
            Some(v) => {
                self.total_yes_staked = v;
                Ok(())
            },
            None => Err(ProgramError::ArithmeticOverflow),
        }
    }

    /// Takes from the no stake; taking more than is staked fails and changes nothing.
    pub fn sub_total_no_staked(&mut self, amount: u64) -> (r: Result<(), ProgramError>)
        ensures
            amount <= old(self).total_no_staked ==> r is Ok && *final(self) == (MarketVault {
                total_no_staked: (old(self).total_no_staked - amount) as u64,
                ..*old(self)
            }),
            amount > old(self).total_no_staked ==> r == Err::<(), ProgramError>(
                ProgramError::ArithmeticOverflow,
            ) && *final(self) == *old(self),
    {
        match self.total_no_staked.checked_sub(amount) {
            Some(v) => {
                self.total_no_staked = v;
                Ok(())
            },
            None => Err(ProgramError::ArithmeticOverflow),
        }
    }

    /// Adds to the fees taken on the yes side; an overflow fails and changes nothing.
    pub fn add_total_yes_fees(&mut self, amount: u64) -> (r: Result<(), ProgramError>)
        ensures
            old(self).total_yes_fees + amount <= u64::MAX ==> r is Ok && *final(self) == (MarketVault {
                total_yes_fees: (old(self).total_yes_fees + amount) as u64,
                ..*old(self)
            }),
            old(self).total_yes_fees + amount > u64::MAX ==> r == Err::<(), ProgramError>(
                ProgramError::ArithmeticOverflow,
            ) && *final(self) == *old(self),
    {
        match self.total_yes_fees.checked_add(amount) {
            Some(v) => {
                self.total_yes_fees = v;
                Ok(())
            },
            None => Err(ProgramError::ArithmeticOverflow),
        }
    }

    /// Adds to the fees taken on the no side; an overflow fails and changes nothing.
    pub fn add_total_no_fees(&mut self, amount: u64) -> (r: Result<(), ProgramError>)
        ensures
            old(self).total_no_fees + amount <= u64::MAX ==> r is Ok && *final(self) == (MarketVault {
                total_no_fees: (old(self).total_no_fees + amount) as u64,
                ..*old(self)
            }),
            old(self).total_no_fees + amount > u64::MAX ==> r == Err::<(), ProgramError>(
                ProgramError::ArithmeticOverflow,
            ) && *final(self) == *old(self),
    {
        match self.total_no_fees.checked_add(amount) {
            Some(v) => {
                self.total_no_fees = v;
                Ok(())
            },
            None => Err(ProgramError::ArithmeticOverflow),
        }
    }

    /// Adds to the escrowed incentives; an overflow fails and changes nothing.
    pub fn add_incentives(&mut self, amount: u64) -> (r: Result<(), ProgramError>)
        ensures
            old(self).total_incentives + amount <= u64::MAX ==> r is Ok && *final(self) == (MarketVault {
                total_incentives: (old(self).total_incentives + amount) as u64,
                ..*old(self)
            }),
            old(self).total_incentives + amount > u64::MAX ==> r == Err::<(), ProgramError>(
                ProgramError::ArithmeticOverflow,
            ) && *final(self) == *old(self),
    {
        match self.total_incentives.checked_add(amount) {
            Some(v) => {
                self.total_incentives = v;
                Ok(())
            },
            None => Err(ProgramError::ArithmeticOverflow),
        }
    }

    pub fn is_settled(&self) -> (r: bool)
        ensures
            r == (self.status == MarketVaultStatus::Settled),
    {
        self.status == MarketVaultStatus::Settled
    }

    pub fn set_as_settled(&mut self)
        ensures
            *final(self) == (MarketVault { status: MarketVaultStatus::Settled, ..*old(self) }),
    {
        self.status = MarketVaultStatus::Settled;
    }

    pub fn set_resolution(&mut self, resolution: MarketVaultResolution)
        ensures
            *final(self) == (MarketVault { market_resolution: resolution, ..*old(self) }),
    {
        self.market_resolution = resolution;
    }
}

} // verus!
