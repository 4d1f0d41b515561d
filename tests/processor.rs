use solana_program::program_option::COption;
use solana_program::program_pack::Pack;
use solana_program::pubkey::Pubkey;
use spl_staking::error::StakingError;
use spl_staking::host::{inverse_transfer_fee, read_token_account, transfer_fee};
use spl_staking::instruction::Instruction;
use spl_staking::interest::compute_interest;
use spl_staking::effect::{AccountSnapshot, Effect, Environment};
use spl_staking::processor::Processor;
use spl_staking::state::{ContractData, StakeType, UserData};
use spl_token_2022::extension::transfer_fee::{TransferFee, TransferFeeConfig};
use spl_token_2022::extension::{BaseStateWithExtensionsMut, ExtensionType, StateWithExtensionsMut};
use spl_token_2022::state::{Account as TokenAccount, AccountState, Mint};

const PROGRAM_ID: [u8; 32] = [7u8; 32];
const ADMIN: [u8; 32] = [1u8; 32];
const MINT: [u8; 32] = [2u8; 32];
const VAULT: [u8; 32] = [3u8; 32];
const USER: [u8; 32] = [4u8; 32];
const USER_TOKEN: [u8; 32] = [5u8; 32];
const SYSTEM: [u8; 32] = [0u8; 32];
const START: u64 = 1_700_000_000;

fn token_program() -> [u8; 32] {
    spl_token_2022::ID.to_bytes()
}

fn contract_pda() -> ([u8; 32], u8) {
    let (k, b) = Pubkey::find_program_address(
        &[b"spl_staking", &ADMIN, &MINT],
        &Pubkey::new_from_array(PROGRAM_ID),
    );
    (k.to_bytes(), b)
}

fn user_pda(owner: &[u8; 32]) -> ([u8; 32], u8) {
    let (k, b) = Pubkey::find_program_address(&[b"spl_staking_user", owner], &Pubkey::new_from_array(PROGRAM_ID));
    (k.to_bytes(), b)
}

fn account(key: [u8; 32], owner: [u8; 32], is_signer: bool, data: Vec<u8>) -> AccountSnapshot {
    AccountSnapshot { key, owner, lamports: 0, is_signer, is_writable: true, data }
}

fn token_account_data(mint: [u8; 32], owner: [u8; 32], amount: u64) -> Vec<u8> {
    let a = TokenAccount {
        mint: Pubkey::new_from_array(mint),
        owner: Pubkey::new_from_array(owner),
        amount,
        delegate: COption::None,
        state: AccountState::Initialized,
        is_native: COption::None,
        delegated_amount: 0,
        close_authority: COption::None,
    };
    let mut data = vec![0u8; TokenAccount::LEN];
    TokenAccount::pack(a, &mut data).unwrap();
    data
}

fn plain_mint_data() -> Vec<u8> {
    let m = Mint { mint_authority: COption::None, supply: 0, decimals: 9, is_initialized: true, freeze_authority: COption::None };
    let mut data = vec![0u8; Mint::LEN];
    Mint::pack(m, &mut data).unwrap();
    data
}

fn fee_mint_data(basis_points: u16, maximum_fee: u64) -> Vec<u8> {
    let len = ExtensionType::try_calculate_account_len::<Mint>(&[ExtensionType::TransferFeeConfig]).unwrap();
    let mut data = vec![0u8; len];
    let mut state = StateWithExtensionsMut::<Mint>::unpack_uninitialized(&mut data).unwrap();
    let fee = TransferFee {
        epoch: 0u64.into(),
        maximum_fee: maximum_fee.into(),
        transfer_fee_basis_points: basis_points.into(),
    };
    let config = state.init_extension::<TransferFeeConfig>(true).unwrap();
    config.older_transfer_fee = fee;
    config.newer_transfer_fee = fee;
    state.base = Mint { mint_authority: COption::None, supply: 0, decimals: 9, is_initialized: true, freeze_authority: COption::None };
    state.pack_base();
    state.init_account_type().unwrap();
    data
}

fn env_at(t: u64) -> Environment {
    Environment { unix_timestamp: t, epoch: 1, contract_data_rent: 2_000_000, user_data_rent: 1_500_000 }
}

fn init_data() -> Vec<u8> {
    Instruction::Init {
        minimum_stake_amount: 100,
        minimum_lock_duration: 100,
        normal_staking_apy: 100,
        locked_staking_apy: 200,
        early_withdrawal_fee: 50,
        fee_basis_points: 0,
        max_fee: 0,
    }
    .pack()
}

fn init_accounts() -> Vec<AccountSnapshot> {
    let (pda, _) = contract_pda();
    vec![
        account(ADMIN, SYSTEM, true, vec![]),
        account(pda, SYSTEM, false, vec![]),
        account(VAULT, token_program(), false, token_account_data(MINT, ADMIN, 0)),
        account(MINT, token_program(), false, plain_mint_data()),
        account(token_program(), SYSTEM, false, vec![]),
        account(SYSTEM, SYSTEM, false, vec![]),
    ]
}

/// The contract record that the scenario's initialization writes.
fn initialized_contract() -> ContractData {
    let effects = Processor::process(&PROGRAM_ID, &init_accounts(), &init_data(), &env_at(START)).unwrap();
    match &effects[2] {
        Effect::WriteContractData { data, .. } => *data,
        other => panic!("unexpected effect {:?}", other),
    }
}

fn stake_accounts(contract: &ContractData, user_record: Vec<u8>, mint_data: Vec<u8>, balance: u64) -> Vec<AccountSnapshot> {
    let (pda, _) = contract_pda();
    let (user_key, _) = user_pda(&USER);
    vec![
        account(USER, SYSTEM, true, vec![]),
        account(USER_TOKEN, token_program(), false, token_account_data(MINT, USER, balance)),
        account(user_key, PROGRAM_ID, false, user_record),
        account(VAULT, token_program(), false, token_account_data(MINT, pda, 0)),
        account(pda, PROGRAM_ID, false, contract.to_bytes()),
        account(MINT, token_program(), false, mint_data),
        account(token_program(), SYSTEM, false, vec![]),
        account(SYSTEM, SYSTEM, false, vec![]),
    ]
}

fn stake_data(stake_type: StakeType, amount: u64, lock_duration: u64) -> Vec<u8> {
    Instruction::Stake { stake_type, amount, decimals: 9, lock_duration }.pack()
}

/// The records that an accepted stake writes.
fn written_records(effects: &[Effect]) -> (UserData, ContractData) {
    let n = effects.len();
    let user = match &effects[n - 2] {
        Effect::WriteUserData { data, .. } => *data,
        other => panic!("unexpected effect {:?}", other),
    };
    let contract = match &effects[n - 1] {
        Effect::WriteContractData { data, .. } => *data,
        other => panic!("unexpected effect {:?}", other),
    };
    (user, contract)
}

fn first_stake(stake_type: StakeType, amount: u64, lock_duration: u64) -> (UserData, ContractData) {
    let contract = initialized_contract();
    let accounts = stake_accounts(&contract, vec![], plain_mint_data(), 1000);
    let effects = Processor::process(&PROGRAM_ID, &accounts, &stake_data(stake_type, amount, lock_duration), &env_at(START)).unwrap();
    written_records(&effects)
}

fn unstake_at(user: &UserData, contract: &ContractData, t: u64) -> Result<Vec<Effect>, StakingError> {
    let accounts = stake_accounts(contract, user.to_bytes(), plain_mint_data(), 1000);
    Processor::process(&PROGRAM_ID, &accounts[..7].to_vec(), &Instruction::UnStake { decimals: 9 }.pack(), &env_at(t))
}

#[test]
fn init_creates_the_record_and_hands_over_the_vault() {
    let (pda, bump) = contract_pda();
    let effects = Processor::process(&PROGRAM_ID, &init_accounts(), &init_data(), &env_at(START)).unwrap();
    assert_eq!(effects.len(), 3);
    match &effects[0] {
        Effect::CreateAccount { payer, address, lamports, space, owner, seeds } => {
            assert_eq!(*payer, ADMIN);
            assert_eq!(*address, pda);
            assert_eq!(*lamports, 2_000_000);
            assert_eq!(*space, ContractData::LEN as u64);
            assert_eq!(*owner, PROGRAM_ID);
            assert_eq!(seeds, &vec![b"spl_staking".to_vec(), ADMIN.to_vec(), MINT.to_vec(), vec![bump]]);
        },
        other => panic!("unexpected effect {:?}", other),
    }
    match &effects[1] {
        Effect::SetAccountOwner { account, new_owner, current_owner } => {
            assert_eq!((*account, *new_owner, *current_owner), (VAULT, pda, ADMIN));
        },
        other => panic!("unexpected effect {:?}", other),
    }
    let c = initialized_contract();
    assert!(c.is_initialized);
    assert_eq!(c.admin_pubkey, ADMIN);
    assert_eq!(c.stake_token_mint, MINT);
    assert_eq!(c.stake_token_account, VAULT);
    assert_eq!(c.minimum_stake_amount, 100);
    assert_eq!(c.minimum_lock_duration, 100);
    assert_eq!(c.normal_staking_apy, 100);
    assert_eq!(c.locked_staking_apy, 200);
    assert_eq!(c.early_withdrawal_fee, 50);
    assert_eq!((c.total_staked, c.total_earned), (0, 0));
}

#[test]
fn init_refusals() {
    let env = env_at(START);
    let mut accounts = init_accounts();
    accounts[0].is_signer = false;
    assert_eq!(Processor::process(&PROGRAM_ID, &accounts, &init_data(), &env).unwrap_err(), StakingError::MissingRequiredSignature);
    let zero_min = Instruction::Init {
        minimum_stake_amount: 0,
        minimum_lock_duration: 1,
        normal_staking_apy: 1,
        locked_staking_apy: 1,
        early_withdrawal_fee: 1,
        fee_basis_points: 0,
        max_fee: 0,
    }
    .pack();
    assert_eq!(Processor::process(&PROGRAM_ID, &init_accounts(), &zero_min, &env).unwrap_err(), StakingError::InvalidInstructionData);
    let mut accounts = init_accounts();
    accounts[4].key = [9u8; 32];
    assert_eq!(Processor::process(&PROGRAM_ID, &accounts, &init_data(), &env).unwrap_err(), StakingError::InvalidInstructionData);
    let mut accounts = init_accounts();
    accounts[1].key = [9u8; 32];
    assert_eq!(Processor::process(&PROGRAM_ID, &accounts, &init_data(), &env).unwrap_err(), StakingError::InvalidAccountData);
    let mut accounts = init_accounts();
    accounts[1].data = initialized_contract().to_bytes();
    assert_eq!(Processor::process(&PROGRAM_ID, &accounts, &init_data(), &env).unwrap_err(), StakingError::AccountAlreadyInitialized);
    let accounts = init_accounts()[..5].to_vec();
    assert_eq!(Processor::process(&PROGRAM_ID, &accounts, &init_data(), &env).unwrap_err(), StakingError::NotEnoughAccountKeys);
    assert_eq!(Processor::process(&PROGRAM_ID, &init_accounts(), &[], &env).unwrap_err(), StakingError::InvalidInstructionData);
}

#[test]
fn first_normal_stake_records_the_deposit() {
    let contract = initialized_contract();
    let accounts = stake_accounts(&contract, vec![], plain_mint_data(), 1000);
    let effects = Processor::process(&PROGRAM_ID, &accounts, &stake_data(StakeType::NORMAL, 100, 0), &env_at(START)).unwrap();
    assert_eq!(effects.len(), 4);
    let (user_key, user_bump) = user_pda(&USER);
    match &effects[0] {
        Effect::CreateAccount { payer, address, lamports, space, owner, seeds } => {
            assert_eq!((*payer, *address, *owner), (USER, user_key, PROGRAM_ID));
            assert_eq!(*lamports, 1_500_000);
            assert_eq!(*space, UserData::LEN as u64);
            assert_eq!(seeds, &vec![b"spl_staking_user".to_vec(), USER.to_vec(), vec![user_bump]]);
        },
        other => panic!("unexpected effect {:?}", other),
    }
    match &effects[1] {
        Effect::TransferChecked { source, mint, destination, authority, amount, decimals, fee, seeds } => {
            assert_eq!((*source, *mint, *destination, *authority), (USER_TOKEN, MINT, VAULT, USER));
            assert_eq!((*amount, *decimals, *fee), (100, 9, 0));
            assert!(seeds.is_empty());
        },
        other => panic!("unexpected effect {:?}", other),
    }
    let (user, contract) = written_records(&effects);
    assert_eq!(user.total_staked, 100);
    assert!(user.is_initialized);
    assert_eq!(user.owner_pubkey, USER);
    assert_eq!(user.stake_type, StakeType::NORMAL);
    assert_eq!(user.stake_ts, START);
    assert_eq!(contract.total_staked, 100);
}

#[test]
fn normal_restake_accrues_interest() {
    let (user, contract) = first_stake(StakeType::NORMAL, 100, 0);
    let t = 31_536_000u64;
    let accounts = stake_accounts(&contract, user.to_bytes(), plain_mint_data(), 1000);
    let effects = Processor::process(&PROGRAM_ID, &accounts, &stake_data(StakeType::NORMAL, 10, 0), &env_at(START + t)).unwrap();
    assert_eq!(effects.len(), 3);
    let (user, contract) = written_records(&effects);
    assert_eq!(user.total_staked, 110);
    assert_eq!(contract.total_staked, 110);
    assert_eq!(user.interest_accrued, (100u128 * 100 * t as u128 / 31_536_000_000) as u64);
    assert_eq!(user.interest_accrued, 10);
    assert_eq!(contract.total_earned, 10);
    assert_eq!(user.stake_ts, START + t);
}

#[test]
fn restake_with_another_type_is_refused() {
    let (user, contract) = first_stake(StakeType::NORMAL, 100, 0);
    let accounts = stake_accounts(&contract, user.to_bytes(), plain_mint_data(), 1000);
    let r = Processor::process(&PROGRAM_ID, &accounts, &stake_data(StakeType::LOCKED, 10, 500), &env_at(START + 5));
    assert_eq!(r.unwrap_err(), StakingError::InvalidInstructionData);
}

#[test]
fn locked_restake_takes_the_new_lock() {
    let (user, contract) = first_stake(StakeType::LOCKED, 500, 86_400);
    assert_eq!(user.lock_duration, 86_400);
    let accounts = stake_accounts(&contract, user.to_bytes(), plain_mint_data(), 1000);
    let effects = Processor::process(&PROGRAM_ID, &accounts, &stake_data(StakeType::LOCKED, 100, 172_800), &env_at(START + 3600)).unwrap();
    let (user, contract) = written_records(&effects);
    assert_eq!(user.lock_duration, 172_800);
    assert_eq!(user.total_staked, 600);
    assert_eq!(contract.total_staked, 600);
    assert_eq!(user.interest_accrued, compute_interest(200, 500, 3600));
}

#[test]
fn stake_refusals() {
    let contract = initialized_contract();
    let env = env_at(START);
    let short_lock = stake_data(StakeType::LOCKED, 100, 99);
    let accounts = stake_accounts(&contract, vec![], plain_mint_data(), 1000);
    assert_eq!(Processor::process(&PROGRAM_ID, &accounts, &short_lock, &env).unwrap_err(), StakingError::InvalidInstructionData);
    let poor = stake_accounts(&contract, vec![], plain_mint_data(), 99);
    let normal = stake_data(StakeType::NORMAL, 50, 0);
    assert_eq!(Processor::process(&PROGRAM_ID, &poor, &normal, &env).unwrap_err(), StakingError::InsufficientFunds);
    let mut unsigned = stake_accounts(&contract, vec![], plain_mint_data(), 1000);
    unsigned[0].is_signer = false;
    assert_eq!(Processor::process(&PROGRAM_ID, &unsigned, &normal, &env).unwrap_err(), StakingError::MissingRequiredSignature);
    let mut wrong_user_record = stake_accounts(&contract, vec![], plain_mint_data(), 1000);
    wrong_user_record[2].key = [8u8; 32];
    assert_eq!(Processor::process(&PROGRAM_ID, &wrong_user_record, &normal, &env).unwrap_err(), StakingError::InvalidAccountData);
    let mut wrong_vault = stake_accounts(&contract, vec![], plain_mint_data(), 1000);
    wrong_vault[3].data = token_account_data(MINT, USER, 0);
    assert_eq!(Processor::process(&PROGRAM_ID, &wrong_vault, &normal, &env).unwrap_err(), StakingError::InvalidAccountData);
    let mut foreign_token = stake_accounts(&contract, vec![], plain_mint_data(), 1000);
    foreign_token[1].data = token_account_data([6u8; 32], USER, 1000);
    assert_eq!(Processor::process(&PROGRAM_ID, &foreign_token, &normal, &env).unwrap_err(), StakingError::InvalidAccountData);
    let mut not_a_mint = stake_accounts(&contract, vec![], plain_mint_data(), 1000);
    not_a_mint[5].data = vec![0u8; 10];
    assert_eq!(Processor::process(&PROGRAM_ID, &not_a_mint, &normal, &env).unwrap_err(), StakingError::InvalidAccountData);
    let few = stake_accounts(&contract, vec![], plain_mint_data(), 1000)[..7].to_vec();
    assert_eq!(Processor::process(&PROGRAM_ID, &few, &normal, &env).unwrap_err(), StakingError::NotEnoughAccountKeys);
}

#[test]
fn early_locked_unstake_pays_principal_less_penalty() {
    let x = 1000u64;
    let (user, contract) = first_stake(StakeType::LOCKED, x, 86_400);
    let (pda, bump) = contract_pda();
    let (user_key, _) = user_pda(&USER);
    let effects = unstake_at(&user, &contract, START + 86_399).unwrap();
    assert_eq!(effects.len(), 4);
    match &effects[0] {
        Effect::TransferChecked { source, mint, destination, authority, amount, decimals, fee, seeds } => {
            assert_eq!((*source, *mint, *destination, *authority), (VAULT, MINT, USER_TOKEN, pda));
            assert_eq!(*amount, x - 50 * x / 1000);
            assert_eq!(*amount, 950);
            assert_eq!((*decimals, *fee), (9, 0));
            assert_eq!(seeds, &vec![b"spl_staking".to_vec(), ADMIN.to_vec(), MINT.to_vec(), vec![bump]]);
        },
        other => panic!("unexpected effect {:?}", other),
    }
    match &effects[1] {
        Effect::WriteUserData { account, data } => {
            assert_eq!(*account, user_key);
            assert_eq!(data.total_staked, 0);
            assert_eq!(data.interest_accrued, 0);
            assert_eq!(data.stake_ts, 0);
            assert!(!data.is_initialized);
        },
        other => panic!("unexpected effect {:?}", other),
    }
    match &effects[2] {
        Effect::CloseAccount { account, destination } => assert_eq!((*account, *destination), (user_key, pda)),
        other => panic!("unexpected effect {:?}", other),
    }
    match &effects[3] {
        Effect::WriteContractData { data, .. } => {
            assert_eq!(data.total_staked, 0);
            assert_eq!(data.total_earned, contract.total_earned);
        },
        other => panic!("unexpected effect {:?}", other),
    }
}

#[test]
fn matured_locked_unstake_pays_interest() {
    let x = 1000u64;
    let (user, contract) = first_stake(StakeType::LOCKED, x, 86_400);
    let accounts = stake_accounts(&contract, user.to_bytes(), plain_mint_data(), 1000);
    let effects = Processor::process(&PROGRAM_ID, &accounts, &stake_data(StakeType::LOCKED, 100, 86_400), &env_at(START + 1000)).unwrap();
    let (user, contract) = written_records(&effects);
    let accrued = user.interest_accrued;
    assert_eq!(accrued, compute_interest(200, x, 1000));
    let elapsed = 10 * 31_536_000u64;
    let effects = unstake_at(&user, &contract, START + 1000 + elapsed).unwrap();
    let fresh = (200u128 * 1100 * elapsed as u128 / 31_536_000_000) as u64;
    assert_eq!(fresh, 2200);
    match &effects[0] {
        Effect::TransferChecked { amount, .. } => assert_eq!(*amount, 1100 + accrued + fresh),
        other => panic!("unexpected effect {:?}", other),
    }
    match &effects[3] {
        Effect::WriteContractData { data, .. } => {
            assert_eq!(data.total_earned, contract.total_earned + fresh);
            assert_eq!(data.total_staked, 0);
        },
        other => panic!("unexpected effect {:?}", other),
    }
}

#[test]
fn normal_unstake_needs_a_day() {
    let (user, contract) = first_stake(StakeType::NORMAL, 100, 0);
    assert_eq!(unstake_at(&user, &contract, START + 1).unwrap_err(), StakingError::InvalidAccountData);
    assert_eq!(unstake_at(&user, &contract, START + 86_399).unwrap_err(), StakingError::InvalidAccountData);
    let effects = unstake_at(&user, &contract, START + 86_400).unwrap();
    match &effects[0] {
        Effect::TransferChecked { amount, .. } => assert_eq!(*amount, 100 + compute_interest(100, 100, 86_400)),
        other => panic!("unexpected effect {:?}", other),
    }
}

#[test]
fn unstake_with_fee_mint_sends_the_fee_on_top() {
    let (user, contract) = first_stake(StakeType::LOCKED, 1000, 86_400);
    let mut accounts = stake_accounts(&contract, user.to_bytes(), fee_mint_data(800, 1_000_000), 1000);
    accounts.truncate(7);
    let effects = Processor::process(&PROGRAM_ID, &accounts, &Instruction::UnStake { decimals: 9 }.pack(), &env_at(START + 10)).unwrap();
    match &effects[0] {
        Effect::TransferChecked { amount, fee, .. } => {
            assert_eq!(amount - fee, 950);
            assert_eq!(*fee, 83);
        },
        other => panic!("unexpected effect {:?}", other),
    }
}

#[test]
fn update_apy_then_read_back() {
    let (_, contract) = first_stake(StakeType::NORMAL, 100, 0);
    let (pda, _) = contract_pda();
    let accounts = vec![account(ADMIN, SYSTEM, true, vec![]), account(pda, PROGRAM_ID, false, contract.to_bytes())];
    let data = Instruction::UpdateAPY { normal_staking_apy: 150, locked_staking_apy: 300 }.pack();
    let effects = Processor::process(&PROGRAM_ID, &accounts, &data, &env_at(START)).unwrap();
    assert_eq!(effects.len(), 1);
    let written = match &effects[0] {
        Effect::WriteContractData { account, data } => {
            assert_eq!(*account, pda);
            *data
        },
        other => panic!("unexpected effect {:?}", other),
    };
    let mut stored = accounts[1].data.clone();
    written.pack_into_slice(&mut stored);
    let read = ContractData::unpack_from_slice(&stored).unwrap();
    assert_eq!(read.normal_staking_apy, 150);
    assert_eq!(read.locked_staking_apy, 300);
    assert_eq!(read.total_staked, contract.total_staked);
    assert_eq!(read.total_earned, contract.total_earned);
    assert_eq!(read.minimum_stake_amount, contract.minimum_stake_amount);
}

#[test]
fn admin_change_refusals() {
    let contract = initialized_contract();
    let (pda, _) = contract_pda();
    let env = env_at(START);
    let accounts = vec![account(ADMIN, SYSTEM, true, vec![]), account(pda, PROGRAM_ID, false, contract.to_bytes())];
    let zero = Instruction::UpdateAPY { normal_staking_apy: 0, locked_staking_apy: 300 }.pack();
    assert_eq!(Processor::process(&PROGRAM_ID, &accounts, &zero, &env).unwrap_err(), StakingError::InvalidInstructionData);
    let ok = Instruction::UpdateAPY { normal_staking_apy: 1, locked_staking_apy: 1 }.pack();
    let stranger = vec![account(USER, SYSTEM, true, vec![]), account(pda, PROGRAM_ID, false, contract.to_bytes())];
    assert_eq!(Processor::process(&PROGRAM_ID, &stranger, &ok, &env).unwrap_err(), StakingError::InvalidAccountData);
    let mut unsigned = accounts.clone();
    unsigned[0].is_signer = false;
    assert_eq!(Processor::process(&PROGRAM_ID, &unsigned, &ok, &env).unwrap_err(), StakingError::MissingRequiredSignature);
}

#[test]
fn change_transfer_fee_config_writes_the_new_fee() {
    let contract = initialized_contract();
    let (pda, _) = contract_pda();
    let accounts = vec![account(ADMIN, SYSTEM, true, vec![]), account(pda, PROGRAM_ID, false, contract.to_bytes())];
    let data = Instruction::ChangeTransferFeeConfig { fee_basis_points: 1000, max_fee: 1_000_000_000_000 }.pack();
    let effects = Processor::process(&PROGRAM_ID, &accounts, &data, &env_at(START)).unwrap();
    match &effects[0] {
        Effect::WriteContractData { data, .. } => {
            assert_eq!(data.fee_basis_points, 1000);
            assert_eq!(data.max_fee, 1_000_000_000_000);
            assert_eq!(data.normal_staking_apy, 100);
        },
        other => panic!("unexpected effect {:?}", other),
    }
}

#[test]
fn token_account_fields_are_read() {
    let a = read_token_account(&token_account_data(MINT, USER, 4242)).unwrap();
    assert_eq!((a.mint, a.owner, a.amount), (MINT, USER, 4242));
    let mut bad = token_account_data(MINT, USER, 1);
    bad[108] = 3;
    assert_eq!(read_token_account(&bad).unwrap_err(), StakingError::InvalidAccountData);
    assert_eq!(read_token_account(&bad[..100]).unwrap_err(), StakingError::InvalidAccountData);
}

#[test]
fn mint_transfer_fees() {
    let mint = fee_mint_data(800, 1_000_000);
    assert_eq!(transfer_fee(&mint, 1, 1000), Ok(80));
    assert_eq!(transfer_fee(&mint, 1, 1001), Ok(81));
    assert_eq!(inverse_transfer_fee(&mint, 1, 920), Ok(80));
    let capped = fee_mint_data(800, 5);
    assert_eq!(transfer_fee(&capped, 1, 1000), Ok(5));
    assert_eq!(transfer_fee(&plain_mint_data(), 1, 1000), Ok(0));
    assert_eq!(transfer_fee(&[0u8; 4], 1, 1000), Err(StakingError::InvalidAccountData));
    assert_eq!(inverse_transfer_fee(&[0u8; 4], 1, 1000), Err(StakingError::InvalidAccountData));
}
