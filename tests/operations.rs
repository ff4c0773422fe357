use reflex::account::AccountState;
use reflex::action::Action;
use reflex::address::{Address, Pda, ID, SYSTEM_PROGRAM_ID, TOKEN_PROGRAM_ID};
use reflex::errors::{ProgramError, ReflexError};
use reflex::instructions::add_incentives::AddIncentives;
use reflex::instructions::cancel_market::CancelMarket;
use reflex::instructions::create_market_vault::CreateMarketVault;
use reflex::instructions::initialize::Initialize;
use reflex::instructions::settle_market::SettleMarket;
use reflex::instructions::stake_outcome_token::StakeOutcomeToken;
use reflex::instructions::unstake_outcome_token::UnstakeOutcomeToken;
use reflex::instructions::update_config::UpdateConfig;
use reflex::interfaces::{MINT_LEN, TOKEN_ACCOUNT_LEN};
use reflex::processor::{process_instruction, Effects};
use reflex::states::config::Config;
use reflex::states::farmer_position::FarmerPosition;
use reflex::states::market_vault::{MarketVault, MarketVaultResolution, MarketVaultStatus};

fn key(n: u8) -> Address {
    let mut a = [0u8; 32];
    a[0] = 0xa0;
    a[31] = n;
    a
}

fn derived(pda: Pda) -> (Address, u8) {
    pda.find().expect("a bump exists")
}

fn signer(address: Address) -> AccountState {
    AccountState { address, owner: SYSTEM_PROGRAM_ID, lamports: 100_000_000_000, is_signer: true, data: vec![] }
}

fn empty(address: Address) -> AccountState {
    AccountState { address, owner: SYSTEM_PROGRAM_ID, lamports: 0, is_signer: false, data: vec![] }
}

fn mint(address: Address) -> AccountState {
    AccountState { address, owner: TOKEN_PROGRAM_ID, lamports: 1, is_signer: false, data: vec![0u8; MINT_LEN] }
}

fn program(address: Address) -> AccountState {
    AccountState { address, owner: SYSTEM_PROGRAM_ID, lamports: 1, is_signer: false, data: vec![] }
}

fn token_account(address: Address, asset: Address, controller: Address) -> AccountState {
    let mut data = vec![0u8; TOKEN_ACCOUNT_LEN];
    data[0..32].copy_from_slice(&asset);
    data[32..64].copy_from_slice(&controller);
    AccountState { address, owner: TOKEN_PROGRAM_ID, lamports: 1, is_signer: false, data }
}

fn record(address: Address, data: Vec<u8>) -> AccountState {
    AccountState { address, owner: ID, lamports: 1, is_signer: false, data }
}

struct Setup {
    authority: Address,
    config: Config,
    config_address: Address,
    wsol: Address,
    wsol_treasury: Address,
}

fn run_initialize(fee_bps: u16, briber_fee_bps: u16) -> Setup {
    let authority = key(1);
    let wsol = key(2);
    let usdc = key(3);
    let (config_address, config_bump) = derived(Pda::Config);
    let (wsol_treasury, _) = derived(Pda::Treasury { mint: wsol });
    let (usdc_treasury, _) = derived(Pda::Treasury { mint: usdc });
    let accounts = vec![
        signer(authority),
        empty(config_address),
        mint(wsol),
        mint(usdc),
        empty(wsol_treasury),
        empty(usdc_treasury),
        program(TOKEN_PROGRAM_ID),
        program(SYSTEM_PROGRAM_ID),
    ];
    let mut data = fee_bps.to_le_bytes().to_vec();
    data.extend_from_slice(&briber_fee_bps.to_le_bytes());
    let ix = Initialize::try_from((&data[..], &accounts[..])).expect("accounts are valid");
    let out = ix.process();
    assert_eq!(out.config.authority, authority);
    assert_eq!(out.config.market_counter(), 0);
    assert_eq!(out.config.fee_bps(), fee_bps);
    assert_eq!(out.config.briber_fee_bps(), briber_fee_bps);
    assert_eq!(out.config.bump, config_bump);
    assert_eq!(out.actions.len(), 5);
    match out.actions[0] {
        Action::CreateAccount { account, space, owner, .. } => {
            assert_eq!(account, config_address);
            assert_eq!(space, Config::LEN as u64);
            assert_eq!(owner, ID);
        }
        _ => panic!("the configuration record is allocated first"),
    }
    Setup { authority, config: out.config, config_address, wsol, wsol_treasury }
}

struct Market {
    briber: Address,
    address: Address,
    yes_mint: Address,
    no_mint: Address,
    briber_ata: Address,
    treasury: Address,
    record: MarketVault,
    config: Config,
}

fn create_accounts(init: &Setup, config: &Config, briber: Address, counter: u64) -> (Vec<AccountState>, Market) {
    let (market_address, _) = derived(Pda::MarketVault { counter });
    let yes_mint = key(20);
    let no_mint = key(21);
    let briber_ata = key(22);
    let (market_treasury, _) = derived(Pda::MarketTreasury { market: market_address });
    let (yes_vault, _) = derived(Pda::OutcomeVault { market: market_address, mint: yes_mint });
    let (no_vault, _) = derived(Pda::OutcomeVault { market: market_address, mint: no_mint });
    let accounts = vec![
        signer(briber),
        record(init.config_address, config.to_bytes()),
        mint(init.wsol),
        token_account(init.wsol_treasury, init.wsol, init.config_address),
        empty(market_address),
        mint(yes_mint),
        mint(no_mint),
        token_account(briber_ata, init.wsol, briber),
        empty(market_treasury),
        empty(yes_vault),
        empty(no_vault),
        program(TOKEN_PROGRAM_ID),
        program(SYSTEM_PROGRAM_ID),
    ];
    let market = Market {
        briber,
        address: market_address,
        yes_mint,
        no_mint,
        briber_ata,
        treasury: market_treasury,
        record: MarketVault::new(0, &briber, &yes_mint, &no_mint, &init.wsol, 0, 0, 0),
        config: *config,
    };
    (accounts, market)
}

fn run_create_market_vault(init: &Setup) -> Market {
    let briber = key(10);
    let (accounts, mut market) = create_accounts(init, &init.config, briber, 1);
    let amount = 10_000_000_000u64;
    let data = amount.to_le_bytes();
    let ix = CreateMarketVault::try_from((&data[..], &accounts[..])).expect("accounts are valid");
    let out = ix.process().expect("the market opens");
    assert_eq!(out.config.market_counter(), 1);
    assert_eq!(out.market_vault.id, 1);
    assert_eq!(out.market_vault.total_incentives(), 10_000_000_000);
    assert_eq!(out.market_vault.fee_bps(), init.config.briber_fee_bps());
    assert_eq!(out.market_vault.status, MarketVaultStatus::Open);
    assert_eq!(out.market_vault.market_resolution, MarketVaultResolution::Unresolved);
    assert_eq!(out.market_vault.total_yes_staked(), 0);
    assert_eq!(out.market_vault.total_no_fees(), 0);
    assert_eq!(out.actions.len(), 9);
    match out.actions[7] {
        Action::Transfer { from, to, amount, signer, .. } => {
            assert_eq!(from, market.briber_ata);
            assert_eq!(to, init.wsol_treasury);
            assert_eq!(amount, 500_000_000);
            assert!(signer.is_none());
        }
        _ => panic!("the protocol fee is collected"),
    }
    match out.actions[8] {
        Action::Transfer { to, amount, .. } => {
            assert_eq!(to, market.treasury);
            assert_eq!(amount, 10_000_000_000);
        }
        _ => panic!("the incentives are escrowed"),
    }
    market.record = out.market_vault;
    market.config = out.config;
    market
}

struct Stake {
    farmer: Address,
    position_address: Address,
    farmer_ata: Address,
    yes_vault: Address,
    position: FarmerPosition,
}

fn stake_accounts(market: &Market, farmer: Address, position: AccountState) -> (Vec<AccountState>, Address, Address) {
    let (yes_vault, _) = derived(Pda::OutcomeVault { market: market.address, mint: market.yes_mint });
    let (farmer_ata, _) = derived(Pda::AssociatedToken {
        owner: farmer,
        token_program: TOKEN_PROGRAM_ID,
        mint: market.yes_mint,
    });
    let accounts = vec![
        signer(farmer),
        record(market.address, market.record.to_bytes()),
        position,
        mint(market.yes_mint),
        token_account(yes_vault, market.yes_mint, market.address),
        token_account(farmer_ata, market.yes_mint, farmer),
        program(TOKEN_PROGRAM_ID),
        program(SYSTEM_PROGRAM_ID),
    ];
    (accounts, farmer_ata, yes_vault)
}

fn run_stake_outcome_tokens(market: &mut Market) -> Stake {
    let farmer = key(30);
    let (position_address, _) = derived(Pda::FarmerPosition { market: market.address, farmer });
    let (accounts, farmer_ata, yes_vault) = stake_accounts(market, farmer, empty(position_address));
    let data = 1_000_000_000u64.to_le_bytes();
    let ix = StakeOutcomeToken::try_from((&data[..], &accounts[..])).expect("accounts are valid");
    let out = ix.process().expect("the stake goes through");
    assert_eq!(out.market_vault.total_yes_staked(), 950_000_000);
    assert_eq!(out.market_vault.total_yes_fees(), 50_000_000);
    assert_eq!(out.market_vault.total_no_staked(), 0);
    assert_eq!(out.farmer_position.yes_staked, 950_000_000);
    assert!(out.farmer_position.is_initialized);
    assert_eq!(out.farmer_position.farmer, farmer);
    assert_eq!(out.actions.len(), 2);
    match out.actions[1] {
        Action::Transfer { from, to, amount, .. } => {
            assert_eq!(from, farmer_ata);
            assert_eq!(to, yes_vault);
            assert_eq!(amount, 1_000_000_000);
        }
        _ => panic!("the stake is moved into the vault"),
    }
    market.record = out.market_vault;
    Stake { farmer, position_address, farmer_ata, yes_vault, position: out.farmer_position }
}

fn unstake_accounts(market: &Market, stake: &Stake) -> Vec<AccountState> {
    vec![
        signer(stake.farmer),
        record(market.address, market.record.to_bytes()),
        record(stake.position_address, stake.position.to_bytes()),
        mint(market.yes_mint),
        token_account(stake.farmer_ata, market.yes_mint, stake.farmer),
        token_account(stake.yes_vault, market.yes_mint, market.address),
        program(TOKEN_PROGRAM_ID),
    ]
}

fn run_unstake_outcome_tokens(market: &mut Market, stake: &mut Stake) {
    let accounts = unstake_accounts(market, stake);
    let data = 500_000_000u64.to_le_bytes();
    let ix = UnstakeOutcomeToken::try_from((&data[..], &accounts[..])).expect("accounts are valid");
    let out = ix.process().expect("the unstake goes through");
    assert_eq!(out.market.total_yes_staked(), 450_000_000);
    assert_eq!(out.market.total_yes_fees(), 50_000_000);
    assert_eq!(out.farmer_position.yes_staked, 450_000_000);
    assert_eq!(out.actions.len(), 1);
    match out.actions[0] {
        Action::Transfer { from, to, amount, signer, .. } => {
            assert_eq!(from, stake.yes_vault);
            assert_eq!(to, stake.farmer_ata);
            assert_eq!(amount, 500_000_000);
            assert!(signer.is_some());
        }
        _ => panic!("the vault pays the farmer"),
    }
    market.record = out.market;
    stake.position = out.farmer_position;
}

fn add_incentives_accounts(init: &Setup, market: &Market) -> Vec<AccountState> {
    vec![
        signer(market.briber),
        record(market.address, market.record.to_bytes()),
        mint(init.wsol),
        token_account(market.briber_ata, init.wsol, market.briber),
        token_account(market.treasury, init.wsol, market.address),
        token_account(init.wsol_treasury, init.wsol, init.config_address),
        program(TOKEN_PROGRAM_ID),
    ]
}

fn run_add_incentives(init: &Setup, market: &mut Market) {
    let accounts = add_incentives_accounts(init, market);
    let before = market.record.total_incentives();
    let data = 500_000_000_000u64.to_le_bytes();
    let ix = AddIncentives::try_from((&data[..], &accounts[..])).expect("accounts are valid");
    let out = ix.process().expect("the incentives are added");
    assert_eq!(out.market.total_incentives(), before + 500_000_000_000);
    assert_eq!(out.actions.len(), 2);
    match out.actions[0] {
        Action::Transfer { to, amount, .. } => {
            assert_eq!(to, init.wsol_treasury);
            assert_eq!(amount, 25_000_000_000);
        }
        _ => panic!("the fee is collected"),
    }
    match out.actions[1] {
        Action::Transfer { to, amount, .. } => {
            assert_eq!(to, market.treasury);
            assert_eq!(amount, 500_000_000_000);
        }
        _ => panic!("the incentives are escrowed"),
    }
    market.record = out.market;
}

fn cancel_accounts(market: &Market) -> Vec<AccountState> {
    vec![
        signer(market.briber),
        record(market.address, market.record.to_bytes()),
        token_account(market.briber_ata, key(2), market.briber),
        token_account(market.treasury, key(2), market.address),
        program(TOKEN_PROGRAM_ID),
        program(SYSTEM_PROGRAM_ID),
    ]
}

fn run_cancel_market(market: &Market) -> Result<Vec<Action>, ProgramError> {
    let accounts = cancel_accounts(market);
    let ix = CancelMarket::try_from(&accounts[..])?;
    ix.process()
}

fn settle_accounts(init: &Setup, market: &Market) -> Vec<AccountState> {
    vec![
        signer(init.authority),
        record(init.config_address, market.config.to_bytes()),
        record(market.address, market.record.to_bytes()),
    ]
}

fn run_settle_market(init: &Setup, market: &mut Market) {
    let accounts = settle_accounts(init, market);
    let data = [1u8];
    let ix = SettleMarket::try_from((&data[..], &accounts[..])).expect("accounts are valid");
    let settled = ix.process().expect("the market settles");
    assert_eq!(settled.status, MarketVaultStatus::Settled);
    assert_eq!(settled.market_resolution, MarketVaultResolution::Yes);
    assert!(settled.is_settled());
    market.record = settled;
}

fn run_update_config(init: &Setup) {
    let accounts = vec![signer(init.authority), record(init.config_address, init.config.to_bytes())];
    let mut data = 250u16.to_le_bytes().to_vec();
    data.extend_from_slice(&250u16.to_le_bytes());
    let ix = UpdateConfig::try_from((&data[..], &accounts[..])).expect("accounts are valid");
    let config = ix.process().expect("the authority updates");
    assert_eq!(config.fee_bps(), 250);
    assert_eq!(config.briber_fee_bps(), 250);
    assert_eq!(config.market_counter(), init.config.market_counter());
    assert_eq!(config.authority, init.authority);
}

#[test]
fn initialize() {
    run_initialize(500, 500);
}

#[test]
fn create_vault_market() {
    let init = run_initialize(500, 500);
    run_create_market_vault(&init);
}

#[test]
fn test_initialize() {
    run_initialize(500, 500);
}

#[test]
fn test_create_market_vault() {
    let init = run_initialize(500, 500);
    run_create_market_vault(&init);
}

#[test]
fn test_stake_outcome_tokens() {
    let init = run_initialize(500, 500);
    let mut market = run_create_market_vault(&init);
    run_stake_outcome_tokens(&mut market);
}

#[test]
fn test_unstake_outcome_tokens() {
    let init = run_initialize(500, 500);
    let mut market = run_create_market_vault(&init);
    let mut stake = run_stake_outcome_tokens(&mut market);
    run_unstake_outcome_tokens(&mut market, &mut stake);
}

#[test]
fn test_add_incentives() {
    let init = run_initialize(500, 500);
    let mut market = run_create_market_vault(&init);
    let mut stake = run_stake_outcome_tokens(&mut market);
    run_unstake_outcome_tokens(&mut market, &mut stake);
    run_add_incentives(&init, &mut market);
}

#[test]
fn test_cancel_market_fail() {
    let init = run_initialize(500, 500);
    let mut market = run_create_market_vault(&init);
    let mut stake = run_stake_outcome_tokens(&mut market);
    run_unstake_outcome_tokens(&mut market, &mut stake);
    let r = run_cancel_market(&market);
    assert_eq!(r.unwrap_err(), ProgramError::Custom(ReflexError::MarketCanNotBeCancelled));
}

#[test]
fn test_cancel_market() {
    let init = run_initialize(500, 500);
    let market = run_create_market_vault(&init);
    let actions = run_cancel_market(&market).expect("no fee was taken");
    assert_eq!(actions.len(), 2);
    match actions[0] {
        Action::Transfer { from, to, authority, amount, signer } => {
            assert_eq!(from, market.treasury);
            assert_eq!(to, market.briber_ata);
            assert_eq!(authority, market.address);
            assert_eq!(amount, 10_000_000_000);
            match signer {
                Some((Pda::MarketVault { counter }, bump)) => {
                    assert_eq!(counter, 1);
                    assert_eq!(bump, market.record.bump);
                }
                _ => panic!("the market signs"),
            }
        }
        _ => panic!("the incentives go back"),
    }
    match actions[1] {
        Action::Close { account, destination } => {
            assert_eq!(account, market.address);
            assert_eq!(destination, market.briber);
        }
        _ => panic!("the market is closed"),
    }
}

#[test]
fn test_settle_market() {
    let init = run_initialize(500, 500);
    let mut market = run_create_market_vault(&init);
    run_settle_market(&init, &mut market);
}

#[test]
fn test_update_config() {
    let init = run_initialize(500, 500);
    run_update_config(&init);
}

#[test]
fn create_market_advances_counter_by_one_each_time() {
    let init = run_initialize(500, 500);
    let first = run_create_market_vault(&init);
    let (accounts, _) = create_accounts(&init, &first.config, key(11), 2);
    let data = 1_000u64.to_le_bytes();
    let ix = CreateMarketVault::try_from((&data[..], &accounts[..])).expect("accounts are valid");
    let out = ix.process().expect("the second market opens");
    assert_eq!(out.config.market_counter(), 2);
    assert_eq!(out.market_vault.id, 2);
    let (a1, _) = derived(Pda::MarketVault { counter: 1 });
    let (a2, _) = derived(Pda::MarketVault { counter: 2 });
    assert_ne!(a1, a2);
}

#[test]
fn create_market_at_a_stale_counter_is_refused() {
    let init = run_initialize(500, 500);
    let first = run_create_market_vault(&init);
    let (accounts, _) = create_accounts(&init, &first.config, key(11), 1);
    let data = 1_000u64.to_le_bytes();
    let ix = CreateMarketVault::try_from((&data[..], &accounts[..])).expect("accounts are valid");
    assert_eq!(ix.process().err(), Some(ProgramError::Custom(ReflexError::InvalidAddress)));
}

#[test]
fn unstake_more_than_staked_fails_and_moves_nothing() {
    let init = run_initialize(500, 500);
    let mut market = run_create_market_vault(&init);
    let stake = run_stake_outcome_tokens(&mut market);
    let accounts = unstake_accounts(&market, &stake);
    let data = 950_000_001u64.to_le_bytes();
    let ix = UnstakeOutcomeToken::try_from((&data[..], &accounts[..])).expect("accounts are valid");
    assert_eq!(ix.process().err(), Some(ProgramError::ArithmeticOverflow));
}

#[test]
fn stake_with_a_foreign_asset_is_refused() {
    let init = run_initialize(500, 500);
    let mut market = run_create_market_vault(&init);
    let farmer = key(31);
    let (position_address, _) = derived(Pda::FarmerPosition { market: market.address, farmer });
    let foreign = key(40);
    let (vault, _) = derived(Pda::OutcomeVault { market: market.address, mint: foreign });
    let (ata, _) = derived(Pda::AssociatedToken { owner: farmer, token_program: TOKEN_PROGRAM_ID, mint: foreign });
    let accounts = vec![
        signer(farmer),
        record(market.address, market.record.to_bytes()),
        empty(position_address),
        mint(foreign),
        token_account(vault, foreign, market.address),
        token_account(ata, foreign, farmer),
        program(TOKEN_PROGRAM_ID),
        program(SYSTEM_PROGRAM_ID),
    ];
    let data = 10u64.to_le_bytes();
    let ix = StakeOutcomeToken::try_from((&data[..], &accounts[..])).expect("accounts are valid");
    assert_eq!(ix.process().err(), Some(ProgramError::Custom(ReflexError::InvalidOutcomeMint)));
}

#[test]
fn stake_on_a_settled_market_is_refused() {
    let init = run_initialize(500, 500);
    let mut market = run_create_market_vault(&init);
    run_settle_market(&init, &mut market);
    let farmer = key(30);
    let (position_address, _) = derived(Pda::FarmerPosition { market: market.address, farmer });
    let (accounts, _, _) = stake_accounts(&market, farmer, empty(position_address));
    let data = 10u64.to_le_bytes();
    let ix = StakeOutcomeToken::try_from((&data[..], &accounts[..])).expect("accounts are valid");
    assert_eq!(ix.process().err(), Some(ProgramError::Custom(ReflexError::MarketWasSetted)));
}

#[test]
fn second_stake_keeps_the_position() {
    let init = run_initialize(500, 500);
    let mut market = run_create_market_vault(&init);
    let stake = run_stake_outcome_tokens(&mut market);
    let position = record(stake.position_address, stake.position.to_bytes());
    let (accounts, _, _) = stake_accounts(&market, stake.farmer, position);
    let data = 2_000u64.to_le_bytes();
    let ix = StakeOutcomeToken::try_from((&data[..], &accounts[..])).expect("accounts are valid");
    let out = ix.process().expect("the stake goes through");
    assert_eq!(out.farmer_position.yes_staked, 950_000_000 + 1_900);
    assert_eq!(out.market_vault.total_yes_fees(), 50_000_000 + 100);
    assert_eq!(out.actions.len(), 1);
}

#[test]
fn settle_twice_is_refused() {
    let init = run_initialize(500, 500);
    let mut market = run_create_market_vault(&init);
    run_settle_market(&init, &mut market);
    let accounts = settle_accounts(&init, &market);
    let data = [2u8];
    let ix = SettleMarket::try_from((&data[..], &accounts[..])).expect("accounts are valid");
    assert_eq!(ix.process().err(), Some(ProgramError::Custom(ReflexError::MarketWasSetted)));
}

#[test]
fn settle_by_another_signer_is_refused() {
    let init = run_initialize(500, 500);
    let market = run_create_market_vault(&init);
    let mut accounts = settle_accounts(&init, &market);
    accounts[0] = signer(key(99));
    let data = [1u8];
    assert_eq!(
        SettleMarket::try_from((&data[..], &accounts[..])).err(),
        Some(ProgramError::Custom(ReflexError::InvalidAddress))
    );
}

#[test]
fn add_incentives_on_a_settled_market_is_refused() {
    let init = run_initialize(500, 500);
    let mut market = run_create_market_vault(&init);
    run_settle_market(&init, &mut market);
    let accounts = add_incentives_accounts(&init, &market);
    let data = 5u64.to_le_bytes();
    let ix = AddIncentives::try_from((&data[..], &accounts[..])).expect("accounts are valid");
    assert_eq!(ix.process().err(), Some(ProgramError::Custom(ReflexError::MarketWasSetted)));
}

#[test]
fn add_incentives_by_another_briber_is_refused() {
    let init = run_initialize(500, 500);
    let market = run_create_market_vault(&init);
    let mut accounts = add_incentives_accounts(&init, &market);
    accounts[0] = signer(key(77));
    let data = 5u64.to_le_bytes();
    let ix = AddIncentives::try_from((&data[..], &accounts[..])).expect("accounts are valid");
    assert_eq!(ix.process().err(), Some(ProgramError::Custom(ReflexError::InvalidAddress)));
}

#[test]
fn update_config_by_another_signer_is_refused() {
    let init = run_initialize(500, 500);
    let accounts = vec![signer(key(5)), record(init.config_address, init.config.to_bytes())];
    let data = [1u8, 0, 1, 0];
    assert_eq!(
        UpdateConfig::try_from((&data[..], &accounts[..])).err(),
        Some(ProgramError::Custom(ReflexError::InvalidAddress))
    );
}

#[test]
fn unsigned_authority_is_refused() {
    let authority = key(1);
    let (config_address, _) = derived(Pda::Config);
    let mut a = signer(authority);
    a.is_signer = false;
    let accounts = vec![a, record(config_address, vec![0u8; Config::LEN])];
    let data = [1u8, 0, 1, 0];
    assert_eq!(
        UpdateConfig::try_from((&data[..], &accounts[..])).err(),
        Some(ProgramError::InvalidAccountOwner)
    );
}

#[test]
fn wrong_number_of_accounts_is_refused() {
    let accounts = vec![signer(key(1))];
    let data = [1u8, 0, 1, 0];
    assert_eq!(
        Initialize::try_from((&data[..], &accounts[..])).err(),
        Some(ProgramError::InvalidAccountData)
    );
}

#[test]
fn allocated_config_is_refused_by_initialize() {
    let authority = key(1);
    let (config_address, _) = derived(Pda::Config);
    let mut config = empty(config_address);
    config.lamports = 10;
    let accounts = vec![
        signer(authority),
        config,
        mint(key(2)),
        mint(key(3)),
        empty(derived(Pda::Treasury { mint: key(2) }).0),
        empty(derived(Pda::Treasury { mint: key(3) }).0),
        program(TOKEN_PROGRAM_ID),
        program(SYSTEM_PROGRAM_ID),
    ];
    let data = [1u8, 0, 1, 0];
    assert_eq!(
        Initialize::try_from((&data[..], &accounts[..])).err(),
        Some(ProgramError::AccountAlreadyInitialized)
    );
}

#[test]
fn dispatch_runs_the_named_operation() {
    let init = run_initialize(500, 500);
    let market = run_create_market_vault(&init);
    let accounts = settle_accounts(&init, &market);
    match process_instruction(&accounts, &[6u8, 2u8]) {
        Ok(Effects::SettleMarket(m)) => {
            assert_eq!(m.status, MarketVaultStatus::Settled);
            assert_eq!(m.market_resolution, MarketVaultResolution::No);
        }
        _ => panic!("the market settles"),
    }
}

#[test]
fn dispatch_refuses_unknown_or_empty_instructions() {
    let accounts: Vec<AccountState> = vec![];
    assert_eq!(process_instruction(&accounts, &[]).err(), Some(ProgramError::InvalidInstructionData));
    assert_eq!(process_instruction(&accounts, &[8u8]).err(), Some(ProgramError::InvalidInstructionData));
}

#[test]
fn create_market_with_a_foreign_outcome_vault_is_refused() {
    let init = run_initialize(500, 500);
    let (mut accounts, _) = create_accounts(&init, &init.config, key(10), 1);
    accounts[9] = empty(key(55));
    let data = 1_000u64.to_le_bytes();
    assert_eq!(
        CreateMarketVault::try_from((&data[..], &accounts[..])).err(),
        Some(ProgramError::Custom(ReflexError::InvalidAddress))
    );
}

#[test]
fn create_market_with_a_foreign_market_treasury_is_refused() {
    let init = run_initialize(500, 500);
    let (mut accounts, _) = create_accounts(&init, &init.config, key(10), 1);
    accounts[8] = empty(key(56));
    let data = 1_000u64.to_le_bytes();
    assert_eq!(
        CreateMarketVault::try_from((&data[..], &accounts[..])).err(),
        Some(ProgramError::Custom(ReflexError::InvalidAddress))
    );
}

#[test]
fn stake_with_a_foreign_position_or_custody_record_is_refused() {
    let init = run_initialize(500, 500);
    let market = run_create_market_vault(&init);
    let farmer = key(30);
    let data = 10u64.to_le_bytes();
    let (accounts, _, _) = stake_accounts(&market, farmer, empty(key(57)));
    assert_eq!(
        StakeOutcomeToken::try_from((&data[..], &accounts[..])).err(),
        Some(ProgramError::Custom(ReflexError::InvalidAddress))
    );
    let (position_address, _) = derived(Pda::FarmerPosition { market: market.address, farmer });
    let (mut accounts, _, _) = stake_accounts(&market, farmer, empty(position_address));
    accounts[5] = token_account(key(58), market.yes_mint, farmer);
    assert_eq!(
        StakeOutcomeToken::try_from((&data[..], &accounts[..])).err(),
        Some(ProgramError::Custom(ReflexError::InvalidAddress))
    );
    let (mut accounts, _, _) = stake_accounts(&market, farmer, empty(position_address));
    let vault = accounts[4].address;
    accounts[4] = token_account(vault, market.yes_mint, key(59));
    assert_eq!(
        StakeOutcomeToken::try_from((&data[..], &accounts[..])).err(),
        Some(ProgramError::Custom(ReflexError::InvalidAddress))
    );
}

#[test]
fn stake_at_a_rate_above_the_whole_overflows() {
    let init = run_initialize(500, 20_000);
    let market = run_create_market_vault(&init);
    assert_eq!(market.record.fee_bps(), 20_000);
    let farmer = key(30);
    let (position_address, _) = derived(Pda::FarmerPosition { market: market.address, farmer });
    let (accounts, _, _) = stake_accounts(&market, farmer, empty(position_address));
    let data = 100u64.to_le_bytes();
    let ix = StakeOutcomeToken::try_from((&data[..], &accounts[..])).expect("accounts are valid");
    assert_eq!(ix.process().err(), Some(ProgramError::ArithmeticOverflow));
}

#[test]
fn add_incentives_beyond_the_largest_total_overflows() {
    let init = run_initialize(500, 500);
    let mut market = run_create_market_vault(&init);
    market.record.total_incentives = u64::MAX - 1;
    let accounts = add_incentives_accounts(&init, &market);
    let data = 2u64.to_le_bytes();
    let ix = AddIncentives::try_from((&data[..], &accounts[..])).expect("accounts are valid");
    assert_eq!(ix.process().err(), Some(ProgramError::ArithmeticOverflow));
}

#[test]
fn dispatch_runs_update_config() {
    let init = run_initialize(500, 500);
    let accounts = vec![signer(init.authority), record(init.config_address, init.config.to_bytes())];
    match process_instruction(&accounts, &[7u8, 10, 0, 20, 0]) {
        Ok(Effects::UpdateConfig(c)) => {
            assert_eq!(c.fee_bps(), 10);
            assert_eq!(c.briber_fee_bps(), 20);
        }
        _ => panic!("the configuration is updated"),
    }
}
