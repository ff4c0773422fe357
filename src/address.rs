//! Identities and deterministic address derivation.
use vstd::prelude::*;

use crate::bytes::{push_bytes, push_u64, u64_bytes, lemma_u64_bytes_injective};
use crate::errors::ProgramError;

verus! {

/// A 32-byte identity: an account, a program or an asset.
pub type Address = [u8; 32];

/// This program's own identity (7zogcJaEsucGbcnZz4o4ARRbeF8AUU1RUP7zsAJ68wK7).
pub const ID: Address = [
    0x67, 0xf5, 0x03, 0x20, 0x0e, 0xac, 0x20, 0x36, 0x2d, 0x16, 0x4f, 0xe7, 0xac, 0xe9, 0x34, 0x6b,
    0x14, 0x2f, 0x67, 0x04, 0xae, 0x69, 0xdb, 0x49, 0x4b, 0xa7, 0xa5, 0x6d, 0x71, 0x24, 0xfb, 0xfa,
];

/// The system program (11111111111111111111111111111111), owner of every unallocated account.
pub const SYSTEM_PROGRAM_ID: Address = [
    0x00, 0x00, 0x00, 0x00, 0x00, 0x00, 0x00, 0x00, 0x00, 0x00, 0x00, 0x00, 0x00, 0x00, 0x00, 0x00,
    0x00, 0x00, 0x00, 0x00, 0x00, 0x00, 0x00, 0x00, 0x00, 0x00, 0x00, 0x00, 0x00, 0x00, 0x00, 0x00,
];

/// The legacy asset program (TokenkegQfeZyiNwAJbNbGKPFXCWuBvf9Ss623VQ5DA).
pub const TOKEN_PROGRAM_ID: Address = [
    0x06, 0xdd, 0xf6, 0xe1, 0xd7, 0x65, 0xa1, 0x93, 0xd9, 0xcb, 0xe1, 0x46, 0xce, 0xeb, 0x79, 0xac,
    0x1c, 0xb4, 0x85, 0xed, 0x5f, 0x5b, 0x37, 0x91, 0x3a, 0x8c, 0xf5, 0x85, 0x7e, 0xff, 0x00, 0xa9,
];

/// The newer asset program (TokenzQdBNbLqP5VEhdkAS6EPFLC1PHnBqCXEpPxuEb).
pub const TOKEN_2022_PROGRAM_ID: Address = [
    0x06, 0xdd, 0xf6, 0xe1, 0xee, 0x75, 0x8f, 0xde, 0x18, 0x42, 0x5d, 0xbc, 0xe4, 0x6c, 0xcd, 0xda,
    0xb6, 0x1a, 0xfc, 0x4d, 0x83, 0xb9, 0x0d, 0x27, 0xfe, 0xbd, 0xf9, 0x28, 0xd8, 0xa1, 0x8b, 0xfc,
];

/// The associated custody-record program (ATokenGPvbdGVxr1b2hvZbsiqW5xWH25efTNsLJA8knL).
pub const ASSOCIATED_TOKEN_PROGRAM_ID: Address = [
    0x8c, 0x97, 0x25, 0x8f, 0x4e, 0x24, 0x89, 0xf1, 0xbb, 0x3d, 0x10, 0x29, 0x14, 0x8e, 0x0d, 0x83,
    0x0b, 0x5a, 0x13, 0x99, 0xda, 0xff, 0x10, 0x84, 0x04, 0x8e, 0x7b, 0xd8, 0xdb, 0xe9, 0xf8, 0x59,
];

/// Domain tag of the configuration record: "config".
pub open spec fn config_seed() -> Seq<u8> {
    seq![0x63u8, 0x6f, 0x6e, 0x66, 0x69, 0x67]
}

/// Domain tag of custody records held by the program: "treasury".
pub open spec fn treasury_seed() -> Seq<u8> {
    seq![0x74u8, 0x72, 0x65, 0x61, 0x73, 0x75, 0x72, 0x79]
}

/// Domain tag of market records: "market_vault".
pub open spec fn market_vault_seed() -> Seq<u8> {
    seq![0x6du8, 0x61, 0x72, 0x6b, 0x65, 0x74, 0x5f, 0x76, 0x61, 0x75, 0x6c, 0x74]
}

/// Domain tag of farmer positions: "farmer_position".
pub open spec fn farmer_position_seed() -> Seq<u8> {
    seq![0x66u8, 0x61, 0x72, 0x6d, 0x65, 0x72, 0x5f, 0x70, 0x6f, 0x73, 0x69, 0x74, 0x69, 0x6f, 0x6e]
}

pub fn config_seed_bytes() -> (r: Vec<u8>)
    ensures
        r@ == config_seed(),
{
    let r = vec![0x63u8, 0x6f, 0x6e, 0x66, 0x69, 0x67];
    assert(r@ =~= config_seed());
    r
}

pub fn treasury_seed_bytes() -> (r: Vec<u8>)
    ensures
        r@ == treasury_seed(),
{
    let r = vec![0x74u8, 0x72, 0x65, 0x61, 0x73, 0x75, 0x72, 0x79];
    assert(r@ =~= treasury_seed());
    r
}

pub fn market_vault_seed_bytes() -> (r: Vec<u8>)
    ensures
        r@ == market_vault_seed(),
{
    let r = vec![0x6du8, 0x61, 0x72, 0x6b, 0x65, 0x74, 0x5f, 0x76, 0x61, 0x75, 0x6c, 0x74];
    assert(r@ =~= market_vault_seed());
    r
}

pub fn farmer_position_seed_bytes() -> (r: Vec<u8>)
    ensures
        r@ == farmer_position_seed(),
{
    let r = vec![
        0x66u8, 0x61, 0x72, 0x6d, 0x65, 0x72, 0x5f, 0x70, 0x6f, 0x73, 0x69, 0x74, 0x69, 0x6f, 0x6e,
    ];
    assert(r@ =~= farmer_position_seed());
    r
}

/// Whether two identities are the same.
pub fn same_address(a: &Address, b: &Address) -> (r: bool)
    ensures
        r == (a@ == b@),
{
    let mut i: usize = 0;
    while i < 32
        invariant
            i <= 32,
            a@.len() == 32,
            b@.len() == 32,
            forall|j: int| 0 <= j < i ==> a@[j] == b@[j],
        decreases 32 - i,
    {
        if a[i] != b[i] {
            return false;
        }
        i = i + 1;
    }
    assert(a@ =~= b@);
    true
}

/// The derived address and bump that the runtime's search gives for `seeds` under
/// `program_id`, or `None` where no bump yields an address off the curve.
pub uninterp spec fn program_address(seeds: Seq<Seq<u8>>, program_id: Seq<u8>) -> Option<(Seq<u8>, u8)>;

/// The byte strings of a list of seeds.
pub open spec fn seeds_view(seeds: Seq<Vec<u8>>) -> Seq<Seq<u8>> {
    seeds.map_values(|s: Vec<u8>| s@)
}

/// Relies on `Address::try_find_program_address` (solana-address, re-exported by pinocchio
/// as `pinocchio::Address`): a function of the seeds and the program identity alone,
/// giving the first bump from 255 down whose hash lies off the curve.
#[verifier::external_body]
fn try_find_program_address(seeds: &Vec<Vec<u8>>, program_id: &Address) -> (r: Option<(Address, u8)>)
    ensures
        r is None <==> program_address(seeds_view(seeds@), program_id@) is None,
        r matches Some(p) ==> program_address(seeds_view(seeds@), program_id@) == Some((p.0@, p.1)),
{
    let refs: Vec<&[u8]> = seeds.iter().map(|s| s.as_slice()).collect();
    let program = pinocchio::Address::new_from_array(*program_id);
    pinocchio::Address::try_find_program_address(&refs, &program).map(|(a, b)| (a.to_bytes(), b))
}

/// The records whose addresses this program derives, each with the seeds it is derived from.
#[derive(Clone, Copy, Debug)]
pub enum Pda {
    /// The singleton configuration record.
    Config,
    /// The protocol's custody record of an asset.
    Treasury { mint: Address },
    /// The market created when the counter reached `counter`.
    MarketVault { counter: u64 },
    /// A market's custody record of its incentive asset.
    MarketTreasury { market: Address },
    /// A market's custody record of one of its outcome assets.
    OutcomeVault { market: Address, mint: Address },
    /// A farmer's position in a market.
    FarmerPosition { market: Address, farmer: Address },
    /// The associated custody record of `owner` for `mint`.
    AssociatedToken { owner: Address, token_program: Address, mint: Address },
}

impl Pda {
    pub open spec fn spec_seeds(self) -> Seq<Seq<u8>> {
        match self {
            Pda::Config => seq![config_seed()],
            Pda::Treasury { mint } => seq![treasury_seed(), mint@],
            Pda::MarketVault { counter } => seq![market_vault_seed(), u64_bytes(counter)],
            Pda::MarketTreasury { market } => seq![treasury_seed(), market@],
            Pda::OutcomeVault { market, mint } => seq![treasury_seed(), market@, mint@],
            Pda::FarmerPosition { market, farmer } => seq![
                farmer_position_seed(),
                market@,
                farmer@,
            ],
            Pda::AssociatedToken { owner, token_program, mint } => seq![
                owner@,
                token_program@,
                mint@,
            ],
        }
    }

    pub open spec fn spec_program(self) -> Seq<u8> {
        match self {
            Pda::AssociatedToken { .. } => ASSOCIATED_TOKEN_PROGRAM_ID@,
            _ => ID@,
        }
    }

    /// The address and bump derived for this record, if any.
    pub open spec fn spec_derived(self) -> Option<(Seq<u8>, u8)> {
        program_address(self.spec_seeds(), self.spec_program())
    }

    /// The seeds that sign for this record: its derivation seeds and the bump.
    pub open spec fn spec_signer_seeds(self, bump: u8) -> Seq<Seq<u8>> {
        self.spec_seeds().push(seq![bump])
    }

    pub fn program_id(&self) -> (r: Address)
        ensures
            r@ == self.spec_program(),
    {
        match self {
            Pda::AssociatedToken { .. } => ASSOCIATED_TOKEN_PROGRAM_ID,
            _ => ID,
        }
    }

    pub fn seeds(&self) -> (r: Vec<Vec<u8>>)
        ensures
            seeds_view(r@) == self.spec_seeds(),
    {
        let mut r: Vec<Vec<u8>> = Vec::new();
        match self {
            Pda::Config => {
                r.push(config_seed_bytes());
            },
            Pda::Treasury { mint } => {
                r.push(treasury_seed_bytes());
                r.push(address_bytes(mint));
            },
            Pda::MarketVault { counter } => {
                r.push(market_vault_seed_bytes());
                let mut c: Vec<u8> = Vec::new();
                push_u64(&mut c, *counter);
                assert(c@ =~= u64_bytes(*counter));
                r.push(c);
            },
            Pda::MarketTreasury { market } => {
                r.push(treasury_seed_bytes());
                r.push(address_bytes(market));
            },
            Pda::OutcomeVault { market, mint } => {
                r.push(treasury_seed_bytes());
                r.push(address_bytes(market));
                r.push(address_bytes(mint));
            },
            Pda::FarmerPosition { market, farmer } => {
                r.push(farmer_position_seed_bytes());
                r.push(address_bytes(market));
                r.push(address_bytes(farmer));
            },
            Pda::AssociatedToken { owner, token_program, mint } => {
                r.push(address_bytes(owner));
                r.push(address_bytes(token_program));
                r.push(address_bytes(mint));
            },
        }
        assert(seeds_view(r@) =~= self.spec_seeds());
        r
    }

    /// The seeds with the bump appended, as a signature for this record is reconstructed.
    pub fn signer_seeds(&self, bump: u8) -> (r: Vec<Vec<u8>>)
        ensures
            seeds_view(r@) == self.spec_signer_seeds(bump),
    {
        let mut r = self.seeds();
        let ghost before = r@;
        let b = vec![bump];
        assert(b@ =~= seq![bump]);
        r.push(b);
        assert(seeds_view(r@) =~= seeds_view(before).push(seq![bump]));
        r
    }

    /// Searches the address and bump of this record. A search that finds no bump fails
    /// with `InvalidSeeds`.
    pub fn find(&self) -> (r: Result<(Address, u8), ProgramError>)
        ensures
            self.spec_derived() is None ==> r == Err::<(Address, u8), ProgramError>(
                ProgramError::InvalidSeeds,
            ),
            self.spec_derived() matches Some(p) ==> (r matches Ok(q) && q.0@ == p.0 && q.1
                == p.1),
    {
        let seeds = self.seeds();
        let program = self.program_id();
        match try_find_program_address(&seeds, &program) {
            Some(p) => Ok(p),
            None => Err(ProgramError::InvalidSeeds),
        }
    }
}

/// The bytes of an identity, as a seed.
pub fn address_bytes(a: &Address) -> (r: Vec<u8>)
    ensures
        r@ == a@,
{
    let mut r: Vec<u8> = Vec::new();
    push_bytes(&mut r, a);
    assert(r@ =~= a@);
    r
}

/// Markets created at distinct counter values are derived from distinct seeds.
pub proof fn lemma_market_seeds_distinct(n: u64, m: u64)
    requires
        n != m,
    ensures
        (Pda::MarketVault { counter: n }).spec_seeds() != (Pda::MarketVault {
            counter: m,
        }).spec_seeds(),
{
    lemma_u64_bytes_injective(n, m);
    assert((Pda::MarketVault { counter: n }).spec_seeds()[1] == u64_bytes(n));
    assert((Pda::MarketVault { counter: m }).spec_seeds()[1] == u64_bytes(m));
}

} // verus!
