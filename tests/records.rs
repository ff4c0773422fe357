use reflex::account::{Account, AccountState};
use reflex::address::{
    same_address, Pda, ASSOCIATED_TOKEN_PROGRAM_ID, ID, SYSTEM_PROGRAM_ID, TOKEN_2022_PROGRAM_ID,
    TOKEN_PROGRAM_ID,
};
use reflex::errors::{ProgramError, ReflexError};
use reflex::instructions::add_incentives::AddIncentivesData;
use reflex::instructions::create_market_vault::CreateMarketVaultData;
use reflex::instructions::initialize::InitializeData;
use reflex::instructions::settle_market::SettleMarketData;
use reflex::instructions::stake_outcome_token::StakeOutcomeTokenData;
use reflex::instructions::unstake_outcome_token::UnstakeOutcomeTokenData;
use reflex::instructions::update_config::UpdateConfigData;
use reflex::interfaces::{MintInterface, TokenAcocuntInterface, MINT_LEN, TOKEN_ACCOUNT_LEN};
use reflex::math::fee_calculation;
use reflex::states::config::Config;
use reflex::states::farmer_position::FarmerPosition;
use reflex::states::market_vault::{MarketVault, MarketVaultResolution, MarketVaultStatus};

fn account(owner: [u8; 32], data: Vec<u8>) -> AccountState {
    AccountState { address: [9u8; 32], owner, lamports: 1, is_signer: false, data }
}

#[test]
fn fee_is_rounded_down_basis_points() {
    assert_eq!(fee_calculation(10_000_000_000, 500), Ok(500_000_000));
    assert_eq!(fee_calculation(1_000_000_000, 500), Ok(50_000_000));
    assert_eq!(fee_calculation(19_999, 1), Ok(1));
    assert_eq!(fee_calculation(9_999, 1), Ok(0));
    assert_eq!(fee_calculation(12_345, 0), Ok(0));
    assert_eq!(fee_calculation(12_345, 10_000), Ok(12_345));
}

#[test]
fn fee_on_the_largest_amount_does_not_overflow() {
    assert_eq!(fee_calculation(u64::MAX, 10_000), Ok(u64::MAX));
    assert_eq!(fee_calculation(u64::MAX, 5_000), Ok(u64::MAX / 2));
    assert_eq!(fee_calculation(u64::MAX, 10_001), Err(ProgramError::ArithmeticOverflow));
    assert_eq!(fee_calculation(u64::MAX / 2, 20_000), Ok(u64::MAX - 1));
}

#[test]
fn error_codes_round_trip() {
    let all = [
        ReflexError::InvalidAccountSize,
        ReflexError::InvalidAddress,
        ReflexError::InvalidOutcomeMint,
        ReflexError::MarketWasSetted,
        ReflexError::MarketCanNotBeCancelled,
    ];
    for (i, e) in all.iter().enumerate() {
        assert_eq!(e.code(), i as u32);
        assert_eq!(ReflexError::try_from(e.code()), Ok(*e));
    }
    assert_eq!(ReflexError::try_from(5), Err(ProgramError::InvalidArgument));
    assert_eq!(ReflexError::InvalidAddress.to_str(), "Error: The accounts are not equals");
    assert_eq!(ProgramError::from(ReflexError::InvalidOutcomeMint), ProgramError::Custom(ReflexError::InvalidOutcomeMint));
}

#[test]
fn config_bytes_round_trip() {
    let c = Config::new([7u8; 32], 500, 250, 254);
    let bytes = c.to_bytes();
    assert_eq!(bytes.len(), Config::LEN);
    assert_eq!(&bytes[32..40], &0u64.to_le_bytes());
    assert_eq!(&bytes[40..42], &500u16.to_le_bytes());
    let back = Config::load(&bytes).unwrap();
    assert_eq!(back.authority, [7u8; 32]);
    assert_eq!(back.fee_bps(), 500);
    assert_eq!(back.briber_fee_bps(), 250);
    assert_eq!(back.bump, 254);
    assert_eq!(Config::load(&bytes[1..]).err(), Some(ProgramError::Custom(ReflexError::InvalidAccountSize)));
}

#[test]
fn config_counter_stops_at_the_maximum() {
    let mut c = Config::new([7u8; 32], 1, 2, 3);
    assert_eq!(c.add_market_counter(), Ok(()));
    assert_eq!(c.market_counter(), 1);
    c.market_counter = u64::MAX;
    assert_eq!(c.add_market_counter(), Err(ProgramError::ArithmeticOverflow));
    assert_eq!(c.market_counter(), u64::MAX);
    c.set_fee_bps(40_000);
    c.set_briber_fee_bps(12);
    assert_eq!(c.fee_bps(), 40_000);
    assert_eq!(c.briber_fee_bps(), 12);
    c.set_inner([1u8; 32], 5, 6, 7);
    assert_eq!(c.market_counter(), 0);
    assert_eq!(c.authority, [1u8; 32]);
}

#[test]
fn market_bytes_round_trip() {
    let mut m = MarketVault::new(42, &[1u8; 32], &[2u8; 32], &[3u8; 32], &[4u8; 32], 700, 9, 1_234);
    m.add_total_no_staked(77).unwrap();
    m.add_total_no_fees(3).unwrap();
    m.set_as_settled();
    m.set_resolution(MarketVaultResolution::No);
    let bytes = m.to_bytes();
    assert_eq!(bytes.len(), MarketVault::LEN);
    let back = MarketVault::load(&bytes).unwrap();
    assert_eq!(back.id, 42);
    assert_eq!(back.outcome_no_mint, [3u8; 32]);
    assert_eq!(back.total_incentives(), 1_234);
    assert_eq!(back.total_no_staked(), 77);
    assert_eq!(back.total_no_fees(), 3);
    assert_eq!(back.fee_bps(), 700);
    assert_eq!(back.status, MarketVaultStatus::Settled);
    assert_eq!(back.market_resolution, MarketVaultResolution::No);
    assert!(!back.fees_claimed);
    assert_eq!(back.bump, 9);
}

#[test]
fn market_with_a_bad_status_byte_is_refused() {
    let m = MarketVault::new(1, &[1u8; 32], &[2u8; 32], &[3u8; 32], &[4u8; 32], 0, 0, 0);
    let mut bytes = m.to_bytes();
    bytes[178] = 3;
    assert_eq!(MarketVault::load(&bytes).err(), Some(ProgramError::InvalidAccountData));
    assert_eq!(MarketVault::load(&bytes[..10]).err(), Some(ProgramError::Custom(ReflexError::InvalidAccountSize)));
}

#[test]
fn market_accumulators_check_overflow_and_underflow() {
    let mut m = MarketVault::new(1, &[1u8; 32], &[2u8; 32], &[3u8; 32], &[4u8; 32], 0, 0, u64::MAX);
    assert_eq!(m.add_incentives(1), Err(ProgramError::ArithmeticOverflow));
    assert_eq!(m.total_incentives(), u64::MAX);
    assert_eq!(m.sub_total_yes_staked(1), Err(ProgramError::ArithmeticOverflow));
    assert_eq!(m.add_total_yes_staked(5), Ok(()));
    assert_eq!(m.add_total_yes_fees(2), Ok(()));
    assert_eq!(m.sub_total_yes_staked(5), Ok(()));
    assert_eq!(m.total_yes_staked(), 0);
    assert_eq!(m.total_yes_fees(), 2);
    assert_eq!(m.sub_total_no_staked(1), Err(ProgramError::ArithmeticOverflow));
    assert!(!m.is_settled());
}

#[test]
fn position_bytes_round_trip() {
    let mut p = FarmerPosition::load(&vec![0u8; FarmerPosition::LEN]).unwrap();
    assert!(!p.is_initialized);
    p.set_inner([5u8; 32], 200);
    p.add_yes_staked(10).unwrap();
    p.add_no_staked(20).unwrap();
    p.sub_no_staked(5).unwrap();
    assert_eq!(p.sub_yes_staked(11), Err(ProgramError::ArithmeticOverflow));
    let back = FarmerPosition::load(&p.to_bytes()).unwrap();
    assert!(back.is_initialized);
    assert_eq!(back.farmer, [5u8; 32]);
    assert_eq!(back.bump, 200);
    assert_eq!(back.yes_staked, 10);
    assert_eq!(back.no_staked, 15);
    assert_eq!(FarmerPosition::load(&[0u8; 3]).err(), Some(ProgramError::Custom(ReflexError::InvalidAccountSize)));
    let mut full = p;
    full.yes_staked = u64::MAX;
    assert_eq!(full.add_yes_staked(1), Err(ProgramError::ArithmeticOverflow));
}

#[test]
fn payloads_are_read_little_endian() {
    let d = InitializeData::try_from(&[0xf4, 0x01, 0x10, 0x27]).unwrap();
    assert_eq!((d.fee_bps, d.briber_fee_bps), (500, 10_000));
    let u = UpdateConfigData::try_from(&[0xfa, 0x00, 0xfa, 0x00]).unwrap();
    assert_eq!((u.new_fee_bps, u.new_briber_fee_bps), (250, 250));
    assert_eq!(CreateMarketVaultData::try_from(&10_000_000_000u64.to_le_bytes()).unwrap().amount, 10_000_000_000);
    assert_eq!(StakeOutcomeTokenData::try_from(&7u64.to_le_bytes()).unwrap().amount, 7);
    assert_eq!(UnstakeOutcomeTokenData::try_from(&8u64.to_le_bytes()).unwrap().amount, 8);
    assert_eq!(AddIncentivesData::try_from(&9u64.to_le_bytes()).unwrap().amount, 9);
}

#[test]
fn payloads_of_the_wrong_size_are_refused() {
    let size = Some(ProgramError::Custom(ReflexError::InvalidAccountSize));
    assert_eq!(InitializeData::try_from(&[1, 2, 3]).err().map(|e| e), size);
    assert_eq!(UpdateConfigData::try_from(&[1, 2, 3, 4, 5]).err(), size);
    assert_eq!(CreateMarketVaultData::try_from(&[0u8; 7]).err(), size);
    assert_eq!(StakeOutcomeTokenData::try_from(&[0u8; 9]).err(), size);
    assert_eq!(UnstakeOutcomeTokenData::try_from(&[]).err(), size);
    assert_eq!(AddIncentivesData::try_from(&[1u8; 4]).err(), size);
    assert_eq!(SettleMarketData::try_from(&[1u8, 1u8]).err(), size);
}

#[test]
fn zero_incentive_amount_is_refused() {
    assert_eq!(AddIncentivesData::try_from(&0u64.to_le_bytes()).err(), Some(ProgramError::InvalidInstructionData));
}

#[test]
fn resolution_byte_must_be_yes_or_no() {
    assert_eq!(SettleMarketData::try_from(&[1u8]).unwrap().resolution, MarketVaultResolution::Yes);
    assert_eq!(SettleMarketData::try_from(&[2u8]).unwrap().resolution, MarketVaultResolution::No);
    assert_eq!(SettleMarketData::try_from(&[0u8]).err(), Some(ProgramError::InvalidInstructionData));
    assert_eq!(SettleMarketData::try_from(&[3u8]).err(), Some(ProgramError::InvalidInstructionData));
    assert_eq!(SettleMarketData::try_from(&[255u8]).err(), Some(ProgramError::InvalidInstructionData));
}

#[test]
fn program_identities_match_the_outside_crates() {
    assert_eq!(pinocchio_token::ID.to_bytes(), TOKEN_PROGRAM_ID);
    assert_eq!(pinocchio_system::ID.to_bytes(), SYSTEM_PROGRAM_ID);
    assert_eq!(pinocchio_associated_token_account::ID.to_bytes(), ASSOCIATED_TOKEN_PROGRAM_ID);
    assert_eq!(
        solana_address::Address::from_str_const("TokenzQdBNbLqP5VEhdkAS6EPFLC1PHnBqCXEpPxuEb").to_bytes(),
        TOKEN_2022_PROGRAM_ID
    );
    assert_eq!(
        solana_address::Address::from_str_const("7zogcJaEsucGbcnZz4o4ARRbeF8AUU1RUP7zsAJ68wK7").to_bytes(),
        ID
    );
    assert_eq!(pinocchio_token::state::Mint::LEN, MINT_LEN);
    assert_eq!(pinocchio_token::state::Account::LEN, TOKEN_ACCOUNT_LEN);
}

#[test]
fn derivation_matches_the_runtime_search() {
    let (address, bump) = Pda::Config.find().unwrap();
    let program = solana_address::Address::new_from_array(ID);
    let (expected, expected_bump) = solana_address::Address::find_program_address(&[b"config"], &program);
    assert_eq!(address, expected.to_bytes());
    assert_eq!(bump, expected_bump);
    assert_ne!(address, ID);
    let market = [3u8; 32];
    let (vault, _) = Pda::OutcomeVault { market, mint: [4u8; 32] }.find().unwrap();
    let (expected_vault, _) =
        solana_address::Address::find_program_address(&[b"treasury", &market, &[4u8; 32]], &program);
    assert_eq!(vault, expected_vault.to_bytes());
    let (m1, _) = Pda::MarketVault { counter: 1 }.find().unwrap();
    let (expected_m1, _) =
        solana_address::Address::find_program_address(&[b"market_vault", &1u64.to_le_bytes()], &program);
    assert_eq!(m1, expected_m1.to_bytes());
}

#[test]
fn signer_seeds_end_with_the_bump() {
    let seeds = Pda::FarmerPosition { market: [1u8; 32], farmer: [2u8; 32] }.signer_seeds(77);
    assert_eq!(seeds.len(), 4);
    assert_eq!(seeds[0], b"farmer_position".to_vec());
    assert_eq!(seeds[3], vec![77u8]);
}

#[test]
fn identities_compare_bytewise() {
    let a = [1u8; 32];
    let mut b = a;
    assert!(same_address(&a, &b));
    b[31] = 2;
    assert!(!same_address(&a, &b));
}

#[test]
fn account_checks_name_their_errors() {
    let mut a = account(SYSTEM_PROGRAM_ID, vec![]);
    assert_eq!(Account::system_program_check(&a), Ok(()));
    assert_eq!(Account::program_account_check(&a), Err(ProgramError::InvalidAccountOwner));
    assert_eq!(Account::not_initialized_check(&a), Err(ProgramError::AccountAlreadyInitialized));
    a.lamports = 0;
    assert_eq!(Account::not_initialized_check(&a), Ok(()));
    assert_eq!(Account::signer_check(&a), Err(ProgramError::InvalidAccountOwner));
    a.is_signer = true;
    assert_eq!(Account::signer_check(&a), Ok(()));
    let owned = account(ID, vec![]);
    assert_eq!(Account::program_account_check(&owned), Ok(()));
    assert_eq!(Account::not_initialized_check(&owned), Err(ProgramError::InvalidAccountOwner));
    assert!(Account::init_if_needed(&owned, &a, 50, Pda::Config, 1).is_none());
    assert!(Account::init_if_needed(&a, &a, 50, Pda::Config, 1).is_some());
}

#[test]
fn asset_records_in_both_layouts() {
    assert_eq!(MintInterface::check(&account(TOKEN_PROGRAM_ID, vec![0u8; MINT_LEN])), Ok(()));
    assert_eq!(
        MintInterface::check(&account(TOKEN_PROGRAM_ID, vec![0u8; MINT_LEN + 1])),
        Err(ProgramError::Custom(ReflexError::InvalidAccountSize))
    );
    let mut newer = vec![0u8; 170];
    newer[165] = 1;
    assert_eq!(MintInterface::check(&account(TOKEN_2022_PROGRAM_ID, newer.clone())), Ok(()));
    assert_eq!(
        TokenAcocuntInterface::check(&account(TOKEN_2022_PROGRAM_ID, newer.clone())),
        Err(ProgramError::InvalidAccountData)
    );
    newer[165] = 2;
    assert_eq!(TokenAcocuntInterface::check(&account(TOKEN_2022_PROGRAM_ID, newer)), Ok(()));
    assert_eq!(
        MintInterface::check(&account(TOKEN_2022_PROGRAM_ID, vec![1u8; 165])),
        Err(ProgramError::InvalidAccountData)
    );
    assert_eq!(MintInterface::check(&account(ID, vec![0u8; MINT_LEN])), Err(ProgramError::InvalidAccountOwner));
    assert_eq!(TokenAcocuntInterface::check(&account(TOKEN_PROGRAM_ID, vec![0u8; TOKEN_ACCOUNT_LEN])), Ok(()));
}

#[test]
fn custody_record_must_name_asset_and_controller() {
    let asset = account(TOKEN_PROGRAM_ID, vec![]);
    let mut controller = account(ID, vec![]);
    controller.address = [6u8; 32];
    let mut data = vec![0u8; TOKEN_ACCOUNT_LEN];
    data[0..32].copy_from_slice(&asset.address);
    data[32..64].copy_from_slice(&controller.address);
    let rec = account(TOKEN_PROGRAM_ID, data.clone());
    assert_eq!(TokenAcocuntInterface::token_account_check(&rec, &controller, &asset), Ok(()));
    assert_eq!(
        TokenAcocuntInterface::token_account_check(&rec, &asset, &asset),
        Err(ProgramError::Custom(ReflexError::InvalidAddress))
    );
    assert_eq!(
        TokenAcocuntInterface::token_account_check(&rec, &controller, &controller),
        Err(ProgramError::Custom(ReflexError::InvalidAddress))
    );
    let newer = account(TOKEN_2022_PROGRAM_ID, data);
    assert_eq!(
        TokenAcocuntInterface::token_account_check(&newer, &controller, &asset),
        Err(ProgramError::InvalidAccountData)
    );
}

#[test]
fn associated_address_is_checked() {
    let owner = account(SYSTEM_PROGRAM_ID, vec![]);
    let mut asset = account(TOKEN_PROGRAM_ID, vec![]);
    asset.address = [8u8; 32];
    let mut program = account(SYSTEM_PROGRAM_ID, vec![]);
    program.address = TOKEN_PROGRAM_ID;
    let (ata, _) = Pda::AssociatedToken { owner: owner.address, token_program: TOKEN_PROGRAM_ID, mint: asset.address }
        .find()
        .unwrap();
    let mut rec = account(TOKEN_PROGRAM_ID, vec![]);
    rec.address = ata;
    assert_eq!(TokenAcocuntInterface::ata_check(&rec, &owner, &asset, &program), Ok(()));
    rec.address = [0u8; 32];
    assert_eq!(
        TokenAcocuntInterface::ata_check(&rec, &owner, &asset, &program),
        Err(ProgramError::Custom(ReflexError::InvalidAddress))
    );
}
