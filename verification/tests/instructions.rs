use pinocchio_amm::account::AccountState;
use pinocchio_amm::address::{
    associated_token_program_id, program_id, system_program_id, token_program_id, Address,
};
use pinocchio_amm::error::ProgramError;
use pinocchio_amm::instructions::common::match_token_accounts;
use pinocchio_amm::instructions::deposit::{DepositLiquidity, DepositLiquidityAccounts};
use pinocchio_amm::instructions::initialize_amm::{InitializeAmm, InitializeAmmAccounts};
use pinocchio_amm::instructions::initialize_pool::{InitializePool, InitializePoolAccounts};
use pinocchio_amm::instructions::set_paused::{SetPaused, SetPausedAccounts};
use pinocchio_amm::instructions::swap::{SwapExactTokensForTokens, SwapExactTokensForTokensAccounts};
use pinocchio_amm::instructions::transfer_admin::{TransferAdmin, TransferAdminAccounts};
use pinocchio_amm::instructions::update_fee::{UpdateFee, UpdateFeeAccounts};
use pinocchio_amm::instructions::withdraw::{WithdrawLiquidity, WithdrawLiquidityAccounts};
use pinocchio_amm::math::{DepositPlan, SwapPlan};
use pinocchio_amm::state::{AmmConfig, Pool};

const ADMIN: [u8; 32] = [7; 32];
const AMM_ID: u32 = 42;
const MINT_A: [u8; 32] = [1; 32];
const MINT_B: [u8; 32] = [2; 32];

fn sol(a: [u8; 32]) -> solana_address::Address {
    solana_address::Address::new_from_array(a)
}

fn find(seeds: &[&[u8]], program: [u8; 32]) -> ([u8; 32], u8) {
    let program = sol(program);
    let found = match seeds.len() {
        3 => solana_address::Address::derive_program_address(&[seeds[0], seeds[1], seeds[2]], &program),
        4 => solana_address::Address::derive_program_address(&[seeds[0], seeds[1], seeds[2], seeds[3]], &program),
        _ => unreachable!(),
    };
    let (a, b) = found.unwrap();
    (a.to_bytes(), b)
}

fn amm_pda() -> ([u8; 32], u8) {
    find(&[b"amm", &ADMIN, &AMM_ID.to_le_bytes()], program_id().bytes)
}

fn pool_pda(amm: [u8; 32]) -> ([u8; 32], u8) {
    find(&[&amm, &MINT_A, &MINT_B], program_id().bytes)
}

fn lp_pda(amm: [u8; 32]) -> ([u8; 32], u8) {
    find(&[&amm, &MINT_A, &MINT_B, b"liquidity"], program_id().bytes)
}

fn ata(wallet: [u8; 32], mint: [u8; 32]) -> [u8; 32] {
    find(&[&wallet, &token_program_id().bytes, &mint], associated_token_program_id().bytes).0
}

fn amm_bytes(creator: [u8; 32], admin: [u8; 32], id: u32, fee: u16, paused: u8, bump: u8) -> Vec<u8> {
    let mut v = Vec::new();
    v.extend_from_slice(&creator);
    v.extend_from_slice(&admin);
    v.extend_from_slice(&id.to_le_bytes());
    v.extend_from_slice(&fee.to_le_bytes());
    v.push(paused);
    v.push(bump);
    v
}

fn pool_bytes(amm: [u8; 32], bump: u8, lp_bump: u8) -> Vec<u8> {
    let mut v = Vec::new();
    v.extend_from_slice(&amm);
    v.extend_from_slice(&MINT_A);
    v.extend_from_slice(&MINT_B);
    v.push(bump);
    v.push(lp_bump);
    v
}

fn acc(address: [u8; 32], owner: [u8; 32], is_signer: bool, is_writable: bool, data: Vec<u8>) -> AccountState {
    AccountState {
        address: Address::new_from_array(address),
        owner: Address::new_from_array(owner),
        is_signer,
        is_writable,
        data,
    }
}

fn plain(address: [u8; 32]) -> AccountState {
    acc(address, [0; 32], false, true, Vec::new())
}

/// The AMM account of the fixture, with the given pause state.
fn amm_account(paused: u8) -> AccountState {
    let (amm, bump) = amm_pda();
    acc(amm, program_id().bytes, false, true, amm_bytes(ADMIN, ADMIN, AMM_ID, 30, paused, bump))
}

fn pool_account() -> AccountState {
    let (amm, _) = amm_pda();
    let (pool, bump) = pool_pda(amm);
    let (_, lp_bump) = lp_pda(amm);
    acc(pool, program_id().bytes, false, true, pool_bytes(amm, bump, lp_bump))
}

fn deposit_accounts(paused: u8) -> Vec<AccountState> {
    let (amm, _) = amm_pda();
    let pool = pool_account();
    let pool_address = pool.address.bytes;
    vec![
        amm_account(paused),
        pool,
        acc([20; 32], [0; 32], true, false, Vec::new()),
        plain(lp_pda(amm).0),
        plain(ata(pool_address, MINT_A)),
        plain(ata(pool_address, MINT_B)),
        plain([21; 32]),
        plain([22; 32]),
        plain([23; 32]),
        acc([24; 32], [0; 32], true, true, Vec::new()),
        plain(token_program_id().bytes),
        plain(associated_token_program_id().bytes),
        plain(system_program_id().bytes),
    ]
}

#[test]
fn deposit_accounts_accepted() {
    let accounts = deposit_accounts(0);
    let checked = DepositLiquidityAccounts::try_from(&accounts).unwrap();
    assert_eq!(checked.mint_lp.bytes, accounts[3].address.bytes);
    assert_eq!(checked.depositor.bytes, [20; 32]);
    assert_eq!(checked.system_program.bytes, system_program_id().bytes);
}

#[test]
fn deposit_accounts_refused() {
    let accounts = deposit_accounts(0);
    assert_eq!(
        DepositLiquidityAccounts::try_from(&accounts[..12]).err().map(|e| e),
        Some(ProgramError::NotEnoughAccountKeys)
    );

    let mut paused = deposit_accounts(1);
    assert_eq!(DepositLiquidityAccounts::try_from(&paused).err(), Some(ProgramError::InvalidArgument));
    paused[0].address = Address::new_from_array([99; 32]);
    assert_eq!(DepositLiquidityAccounts::try_from(&paused).err(), Some(ProgramError::InvalidAccountData));

    let mut wrong_lp = deposit_accounts(0);
    wrong_lp[3].address = Address::new_from_array([98; 32]);
    assert_eq!(DepositLiquidityAccounts::try_from(&wrong_lp).err(), Some(ProgramError::InvalidSeeds));

    let mut swapped_atas = deposit_accounts(0);
    swapped_atas.swap(4, 5);
    assert_eq!(DepositLiquidityAccounts::try_from(&swapped_atas).err(), Some(ProgramError::InvalidSeeds));

    let mut foreign_pool = deposit_accounts(0);
    foreign_pool[1].owner = Address::new_from_array([5; 32]);
    assert_eq!(DepositLiquidityAccounts::try_from(&foreign_pool).err(), Some(ProgramError::InvalidAccountData));

    let mut short_pool = deposit_accounts(0);
    short_pool[1].data.pop();
    assert_eq!(
        DepositLiquidityAccounts::try_from(&short_pool).err(),
        Some(ProgramError::InvalidInstructionData)
    );
}

#[test]
fn deposit_instruction_decides_amounts() {
    let accounts = deposit_accounts(0);
    let mut data = Vec::new();
    data.extend_from_slice(&100u64.to_le_bytes());
    data.extend_from_slice(&500u64.to_le_bytes());
    let ix = DepositLiquidity::try_from(&accounts, &data).unwrap();
    assert_eq!(
        ix.process(10_000, 10_000, 1_000, 2_000, 1_314),
        Ok(DepositPlan { amount_a: 100, amount_b: 200, liquidity: 141 })
    );
    assert_eq!(
        DepositLiquidity::try_from(&accounts, &data[..8]).err(),
        Some(ProgramError::InvalidInstructionData)
    );
    // Accounts are validated before the data.
    assert_eq!(
        DepositLiquidity::try_from(&accounts[..3], &data[..8]).err(),
        Some(ProgramError::NotEnoughAccountKeys)
    );
}

fn withdraw_accounts() -> Vec<AccountState> {
    let (amm, _) = amm_pda();
    let pool = pool_account();
    let pool_address = pool.address.bytes;
    vec![
        pool,
        acc([20; 32], [0; 32], true, false, Vec::new()),
        plain(lp_pda(amm).0),
        plain(MINT_A),
        plain(MINT_B),
        plain(ata(pool_address, MINT_A)),
        plain(ata(pool_address, MINT_B)),
        plain([21; 32]),
        plain([22; 32]),
        plain([23; 32]),
        plain([24; 32]),
        plain(token_program_id().bytes),
        plain(associated_token_program_id().bytes),
        plain(system_program_id().bytes),
    ]
}

#[test]
fn withdraw_accounts_checked() {
    let accounts = withdraw_accounts();
    assert!(WithdrawLiquidityAccounts::try_from(&accounts).is_ok());
    assert_eq!(
        WithdrawLiquidityAccounts::try_from(&accounts[..13]).err(),
        Some(ProgramError::NotEnoughAccountKeys)
    );
    let mut wrong_lp = withdraw_accounts();
    wrong_lp[2].address = Address::new_from_array([1; 32]);
    assert_eq!(WithdrawLiquidityAccounts::try_from(&wrong_lp).err(), Some(ProgramError::InvalidSeeds));
    let mut wrong_ata = withdraw_accounts();
    wrong_ata[6].address = Address::new_from_array([1; 32]);
    assert_eq!(WithdrawLiquidityAccounts::try_from(&wrong_ata).err(), Some(ProgramError::InvalidSeeds));
}

#[test]
fn withdraw_instruction_decides_amounts() {
    let accounts = withdraw_accounts();
    let ix = WithdrawLiquidity::try_from(&accounts, &100u64.to_le_bytes()).unwrap();
    let plan = ix.process(1_000, 2_000, 900);
    assert_eq!((plan.amount_a, plan.amount_b), (100, 200));
}

fn swap_accounts(paused: u8) -> Vec<AccountState> {
    let pool = pool_account();
    let pool_address = pool.address.bytes;
    vec![
        amm_account(paused),
        pool,
        acc([20; 32], [0; 32], true, false, Vec::new()),
        plain(MINT_A),
        plain(MINT_B),
        plain(ata(pool_address, MINT_A)),
        plain(ata(pool_address, MINT_B)),
        plain([21; 32]),
        plain([22; 32]),
        plain([24; 32]),
        plain(token_program_id().bytes),
        plain(associated_token_program_id().bytes),
        plain(system_program_id().bytes),
    ]
}

#[test]
fn swap_accounts_checked() {
    assert!(SwapExactTokensForTokensAccounts::try_from(&swap_accounts(0)).is_ok());
    assert_eq!(
        SwapExactTokensForTokensAccounts::try_from(&swap_accounts(1)).err(),
        Some(ProgramError::InvalidArgument)
    );
    let mut wrong_amm = swap_accounts(0);
    wrong_amm[0].address = Address::new_from_array([3; 32]);
    assert_eq!(
        SwapExactTokensForTokensAccounts::try_from(&wrong_amm).err(),
        Some(ProgramError::InvalidAccountData)
    );
    let mut wrong_ata = swap_accounts(0);
    wrong_ata[5].address = Address::new_from_array([3; 32]);
    assert_eq!(SwapExactTokensForTokensAccounts::try_from(&wrong_ata).err(), Some(ProgramError::InvalidSeeds));
}

#[test]
fn swap_instruction_uses_stored_fee() {
    let accounts = swap_accounts(0);
    let mut data = vec![1u8];
    data.extend_from_slice(&1_000u64.to_le_bytes());
    data.extend_from_slice(&0u64.to_le_bytes());
    let ix = SwapExactTokensForTokens::try_from(&accounts, &data).unwrap();
    let plan = ix.process(5_000, 0, 10_000, 10_000, &accounts[0]).unwrap();
    assert_eq!(plan, SwapPlan { input: 1_000, output: 906, reserve_product: 100_000_000 });
    assert_eq!(ix.check_reserves(&plan, 11_000, 10_000 - 906), Ok(()));
    let (first, second) = ix.transfers(&plan);
    assert_eq!((first.from, first.to, first.authority, first.amount, first.signed_by_pool), (7, 5, 2, 1_000, false));
    assert_eq!((second.from, second.to, second.authority, second.amount, second.signed_by_pool), (6, 8, 1, 906, true));
    let mut other = data.clone();
    other[0] = 0;
    let ix_b = SwapExactTokensForTokens::try_from(&accounts, &other).unwrap();
    let (first, second) = ix_b.transfers(&plan);
    assert_eq!((first.from, first.to, first.authority, first.signed_by_pool), (5, 7, 1, true));
    assert_eq!((second.from, second.to, second.authority, second.signed_by_pool), (8, 6, 2, false));
    assert_eq!(ix.check_reserves(&plan, 10_000, 10_000 - 906), Err(ProgramError::InvalidAccountData));
    let mut foreign = accounts[0].clone();
    foreign.owner = Address::new_from_array([0; 32]);
    assert_eq!(ix.process(5_000, 0, 10_000, 10_000, &foreign), Err(ProgramError::InvalidAccountData));
}

fn initialize_amm_accounts() -> Vec<AccountState> {
    let (amm, _) = amm_pda();
    vec![
        acc([24; 32], [0; 32], true, true, Vec::new()),
        acc(ADMIN, [0; 32], true, false, Vec::new()),
        plain(amm),
        plain(system_program_id().bytes),
    ]
}

fn initialize_amm_data(id: u32, fee: u16) -> Vec<u8> {
    let mut data = Vec::new();
    data.extend_from_slice(&id.to_le_bytes());
    data.extend_from_slice(&fee.to_le_bytes());
    data
}

#[test]
fn initialize_amm_accounts_checked() {
    let accounts = initialize_amm_accounts();
    let checked = InitializeAmmAccounts::try_from(&accounts).unwrap();
    assert_eq!(checked.admin.bytes, ADMIN);
    assert_eq!(InitializeAmmAccounts::try_from(&accounts[..3]).err(), Some(ProgramError::NotEnoughAccountKeys));
    let mut wrong_system = initialize_amm_accounts();
    wrong_system[3].address = Address::new_from_array([1; 32]);
    assert_eq!(InitializeAmmAccounts::try_from(&wrong_system).err(), Some(ProgramError::InvalidAccountData));
    let mut unsigned_payer = initialize_amm_accounts();
    unsigned_payer[0].is_signer = false;
    assert_eq!(
        InitializeAmmAccounts::try_from(&unsigned_payer).err(),
        Some(ProgramError::MissingRequiredSignature)
    );
    let mut unsigned_admin = initialize_amm_accounts();
    unsigned_admin[1].is_signer = false;
    assert_eq!(
        InitializeAmmAccounts::try_from(&unsigned_admin).err(),
        Some(ProgramError::MissingRequiredSignature)
    );
}

#[test]
fn initialize_amm_creates_configuration() {
    let mut accounts = initialize_amm_accounts();
    let ix = InitializeAmm::try_from(&accounts, &initialize_amm_data(AMM_ID, 30)).unwrap();
    let plan = ix.process().unwrap();
    let (_, bump) = amm_pda();
    assert_eq!(plan.bump, bump);
    // Before the account is created, it does not hold a configuration.
    assert_eq!(ix.populate(&plan, &mut accounts[2]), Err(ProgramError::InvalidInstructionData));
    // The created account: owned by the program, zeroed data of the right length.
    accounts[2].owner = program_id();
    accounts[2].data = vec![0; 72];
    assert_eq!(ix.populate(&plan, &mut accounts[2]), Ok(()));
    assert_eq!(accounts[2].data, amm_bytes(ADMIN, ADMIN, AMM_ID, 30, 0, bump));
}

#[test]
fn initialize_amm_refuses_non_canonical_account() {
    let mut accounts = initialize_amm_accounts();
    accounts[2].address = Address::new_from_array([5; 32]);
    let ix = InitializeAmm::try_from(&accounts, &initialize_amm_data(AMM_ID, 30)).unwrap();
    assert_eq!(ix.process(), Err(ProgramError::InvalidAccountData));
    // Another identifier derives another address.
    let accounts = initialize_amm_accounts();
    let ix = InitializeAmm::try_from(&accounts, &initialize_amm_data(AMM_ID + 1, 30)).unwrap();
    assert_eq!(ix.process(), Err(ProgramError::InvalidAccountData));
    assert_eq!(
        InitializeAmm::try_from(&accounts, &initialize_amm_data(AMM_ID, 10_000)).err(),
        Some(ProgramError::InvalidInstructionData)
    );
}

fn initialize_pool_accounts(paused: u8) -> Vec<AccountState> {
    let (amm, _) = amm_pda();
    let (pool, _) = pool_pda(amm);
    vec![
        acc([24; 32], [0; 32], true, true, Vec::new()),
        amm_account(paused),
        plain(pool),
        plain(lp_pda(amm).0),
        plain(MINT_A),
        plain(MINT_B),
        plain(ata(pool, MINT_A)),
        plain(ata(pool, MINT_B)),
        plain(token_program_id().bytes),
        plain(associated_token_program_id().bytes),
        plain(system_program_id().bytes),
    ]
}

#[test]
fn initialize_pool_accounts_accepted() {
    let accounts = initialize_pool_accounts(0);
    let checked = InitializePoolAccounts::try_from(&accounts, Ok(true), Ok(true)).unwrap();
    assert_eq!(checked.mint_a.bytes, MINT_A);
    assert_eq!(checked.mint_b.bytes, MINT_B);
}

#[test]
fn initialize_pool_accounts_refused() {
    let accounts = initialize_pool_accounts(0);
    let check = |a: &Vec<AccountState>| InitializePoolAccounts::try_from(a, Ok(true), Ok(true)).err();
    assert_eq!(check(&accounts[..10].to_vec()), Some(ProgramError::NotEnoughAccountKeys));

    let mut unsigned = initialize_pool_accounts(0);
    unsigned[0].is_signer = false;
    assert_eq!(check(&unsigned), Some(ProgramError::MissingRequiredSignature));

    for i in [0usize, 2, 3, 6, 7] {
        let mut read_only = initialize_pool_accounts(0);
        read_only[i].is_writable = false;
        assert_eq!(check(&read_only), Some(ProgramError::InvalidAccountData));
    }

    for i in [8usize, 9, 10] {
        let mut wrong_program = initialize_pool_accounts(0);
        wrong_program[i].address = Address::new_from_array([3; 32]);
        assert_eq!(check(&wrong_program), Some(ProgramError::IncorrectProgramId));
    }

    assert_eq!(check(&initialize_pool_accounts(1)), Some(ProgramError::InvalidArgument));

    let mut moved_amm = initialize_pool_accounts(0);
    moved_amm[1].address = Address::new_from_array([3; 32]);
    assert_eq!(check(&moved_amm), Some(ProgramError::InvalidSeeds));

    assert_eq!(
        InitializePoolAccounts::try_from(&accounts, Ok(false), Ok(true)).err(),
        Some(ProgramError::UninitializedAccount)
    );
    assert_eq!(
        InitializePoolAccounts::try_from(&accounts, Ok(true), Ok(false)).err(),
        Some(ProgramError::UninitializedAccount)
    );
    assert_eq!(
        InitializePoolAccounts::try_from(&accounts, Err(ProgramError::IncorrectProgramId), Ok(false)).err(),
        Some(ProgramError::IncorrectProgramId)
    );
    assert_eq!(
        InitializePoolAccounts::try_from(&accounts, Ok(true), Err(ProgramError::InvalidAccountData)).err(),
        Some(ProgramError::InvalidAccountData)
    );

    let mut same_mints = initialize_pool_accounts(0);
    same_mints[5].address = Address::new_from_array(MINT_A);
    assert_eq!(check(&same_mints), Some(ProgramError::InvalidArgument));
    let mut reversed = initialize_pool_accounts(0);
    reversed.swap(4, 5);
    assert_eq!(check(&reversed), Some(ProgramError::InvalidArgument));

    let mut wrong_ata = initialize_pool_accounts(0);
    wrong_ata[7].address = Address::new_from_array([3; 32]);
    assert_eq!(check(&wrong_ata), Some(ProgramError::InvalidSeeds));
}

#[test]
fn initialize_pool_after_admin_transfer_is_accepted() {
    // The AMM address derives from the stored creator, which an admin
    // transfer leaves alone.
    let mut accounts = initialize_pool_accounts(0);
    let (_, bump) = amm_pda();
    accounts[1].data = amm_bytes(ADMIN, [8; 32], AMM_ID, 30, 0, bump);
    assert!(InitializePoolAccounts::try_from(&accounts, Ok(true), Ok(true)).is_ok());
    // A creator the address does not derive from is refused.
    accounts[1].data = amm_bytes([8; 32], ADMIN, AMM_ID, 30, 0, bump);
    assert_eq!(
        InitializePoolAccounts::try_from(&accounts, Ok(true), Ok(true)).err(),
        Some(ProgramError::InvalidSeeds)
    );
}

#[test]
fn initialize_pool_after_transfer_admin_instruction() {
    let mut transfer = transfer_accounts();
    let ix = TransferAdmin::try_from(&transfer, &[]).unwrap();
    assert_eq!(ix.process(&mut transfer[2]), Ok(()));
    let mut accounts = initialize_pool_accounts(0);
    accounts[1] = transfer[2].clone();
    assert!(InitializePoolAccounts::try_from(&accounts, Ok(true), Ok(true)).is_ok());
}

#[test]
fn initialize_pool_creates_configuration_accepted_by_deposit() {
    let mut accounts = initialize_pool_accounts(0);
    let ix = InitializePool::try_from(&accounts, &[], Ok(true), Ok(true)).unwrap();
    let plan = ix.process().unwrap();
    let (amm, _) = amm_pda();
    assert_eq!(plan.pool_bump, pool_pda(amm).1);
    assert_eq!(plan.mint_lp_bump, lp_pda(amm).1);
    accounts[2].owner = program_id();
    accounts[2].data = vec![0; 98];
    assert_eq!(ix.populate(&plan, &mut accounts[2]), Ok(()));
    assert_eq!(accounts[2].data, pool_account().data);
    let stored = Pool::load_pool(&accounts[2]).unwrap();
    let rederived = solana_address::Address::derive_address(
        &[&amm[..], &MINT_A[..], &MINT_B[..]],
        Some(stored.get_bump()[0]),
        &sol(program_id().bytes),
    );
    assert_eq!(rederived.to_bytes(), accounts[2].address.bytes);
    // The deposit validation accepts the new pool.
    let mut deposit = deposit_accounts(0);
    deposit[1] = accounts[2].clone();
    assert!(DepositLiquidityAccounts::try_from(&deposit).is_ok());
    assert_eq!(
        InitializePool::try_from(&accounts, &[1], Ok(true), Ok(true)).err(),
        Some(ProgramError::InvalidInstructionData)
    );
}

#[test]
fn initialize_pool_refuses_non_canonical_accounts() {
    let mut accounts = initialize_pool_accounts(0);
    accounts[2].address = Address::new_from_array([4; 32]);
    // The pool's token accounts must follow the pool configuration.
    accounts[6].address = Address::new_from_array(ata([4; 32], MINT_A));
    accounts[7].address = Address::new_from_array(ata([4; 32], MINT_B));
    let ix = InitializePool::try_from(&accounts, &[], Ok(true), Ok(true)).unwrap();
    assert_eq!(ix.process(), Err(ProgramError::InvalidSeeds));
    let mut accounts = initialize_pool_accounts(0);
    accounts[3].address = Address::new_from_array([4; 32]);
    let ix = InitializePool::try_from(&accounts, &[], Ok(true), Ok(true)).unwrap();
    assert_eq!(ix.process(), Err(ProgramError::InvalidSeeds));
}

fn admin_accounts() -> Vec<AccountState> {
    vec![acc(ADMIN, [0; 32], true, false, Vec::new()), amm_account(0)]
}

#[test]
fn update_fee_changes_only_fee() {
    let mut accounts = admin_accounts();
    let ix = UpdateFee::try_from(&accounts, &250u16.to_le_bytes()).unwrap();
    assert_eq!(ix.process(&mut accounts[1]), Ok(()));
    let (_, bump) = amm_pda();
    assert_eq!(accounts[1].data, amm_bytes(ADMIN, ADMIN, AMM_ID, 250, 0, bump));
}

#[test]
fn admin_accounts_refused() {
    let accounts = admin_accounts();
    assert_eq!(UpdateFeeAccounts::try_from(&accounts[..1]).err(), Some(ProgramError::NotEnoughAccountKeys));
    let mut unsigned = admin_accounts();
    unsigned[0].is_signer = false;
    assert_eq!(UpdateFeeAccounts::try_from(&unsigned).err(), Some(ProgramError::MissingRequiredSignature));
    let mut read_only = admin_accounts();
    read_only[1].is_writable = false;
    assert_eq!(SetPausedAccounts::try_from(&read_only).err(), Some(ProgramError::InvalidAccountData));
    let mut stranger = admin_accounts();
    stranger[0].address = Address::new_from_array([8; 32]);
    assert_eq!(UpdateFeeAccounts::try_from(&stranger).err(), Some(ProgramError::IncorrectAuthority));
    assert_eq!(SetPausedAccounts::try_from(&stranger).err(), Some(ProgramError::IncorrectAuthority));
    let mut foreign = admin_accounts();
    foreign[1].owner = Address::new_from_array([8; 32]);
    assert_eq!(SetPausedAccounts::try_from(&foreign).err(), Some(ProgramError::InvalidAccountData));
}

#[test]
fn set_paused_then_trading_is_refused() {
    let mut accounts = admin_accounts();
    let ix = SetPaused::try_from(&accounts, &[1]).unwrap();
    assert_eq!(ix.process(&mut accounts[1]), Ok(()));
    let (_, bump) = amm_pda();
    assert_eq!(accounts[1].data, amm_bytes(ADMIN, ADMIN, AMM_ID, 30, 1, bump));
    let mut deposit = deposit_accounts(0);
    deposit[0] = accounts[1].clone();
    assert_eq!(DepositLiquidityAccounts::try_from(&deposit).err(), Some(ProgramError::InvalidArgument));
    let mut swap = swap_accounts(0);
    swap[0] = accounts[1].clone();
    assert_eq!(SwapExactTokensForTokensAccounts::try_from(&swap).err(), Some(ProgramError::InvalidArgument));
    // Resuming lets deposits in again.
    let ix = SetPaused::try_from(&accounts, &[0]).unwrap();
    assert_eq!(ix.process(&mut accounts[1]), Ok(()));
    deposit[0] = accounts[1].clone();
    assert!(DepositLiquidityAccounts::try_from(&deposit).is_ok());
}

fn transfer_accounts() -> Vec<AccountState> {
    vec![
        acc(ADMIN, [0; 32], true, false, Vec::new()),
        acc([8; 32], [0; 32], true, false, Vec::new()),
        amm_account(0),
    ]
}

#[test]
fn transfer_admin_hands_over() {
    let mut accounts = transfer_accounts();
    let ix = TransferAdmin::try_from(&accounts, &[]).unwrap();
    assert_eq!(ix.process(&mut accounts[2]), Ok(()));
    let (_, bump) = amm_pda();
    assert_eq!(accounts[2].data, amm_bytes(ADMIN, [8; 32], AMM_ID, 30, 0, bump));
    // The old admin is refused from now on.
    assert_eq!(TransferAdminAccounts::try_from(&accounts).err(), Some(ProgramError::IncorrectAuthority));
    let loaded = AmmConfig::load_amm(&accounts[2]).unwrap();
    assert_eq!(loaded.get_admin().bytes, [8; 32]);
    assert_eq!(loaded.get_creator().bytes, ADMIN);
}

#[test]
fn transfer_admin_needs_both_signatures() {
    let mut accounts = transfer_accounts();
    accounts[1].is_signer = false;
    assert_eq!(TransferAdminAccounts::try_from(&accounts).err(), Some(ProgramError::MissingRequiredSignature));
    let accounts = transfer_accounts();
    assert_eq!(TransferAdmin::try_from(&accounts, &[0]).err(), Some(ProgramError::InvalidInstructionData));
    assert_eq!(TransferAdminAccounts::try_from(&accounts[..2]).err(), Some(ProgramError::NotEnoughAccountKeys));
}

#[test]
fn pool_account_round_trips() {
    let pool = pool_account();
    let loaded = Pool::load_pool(&pool).unwrap();
    assert_eq!(loaded.get_mint_a().bytes, MINT_A);
    assert_eq!(loaded.to_bytes(), pool.data);
}

#[test]
fn initialize_decisions_on_given_addresses() {
    let accounts = initialize_amm_accounts();
    let ix = InitializeAmm::try_from(&accounts, &initialize_amm_data(AMM_ID, 30)).unwrap();
    let amm = accounts[2].address;
    assert_eq!(ix.decide(Some((amm, 200))).map(|p| p.bump), Ok(200));
    assert_eq!(ix.decide(None).err(), Some(ProgramError::InvalidInstructionData));
    assert_eq!(
        ix.decide(Some((Address::new_from_array([0; 32]), 200))).err(),
        Some(ProgramError::InvalidAccountData)
    );

    let accounts = initialize_pool_accounts(0);
    let ix = InitializePool::try_from(&accounts, &[], Ok(true), Ok(true)).unwrap();
    let pool = accounts[2].address;
    let lp = accounts[3].address;
    let plan = ix.decide(Some((pool, 250)), Some((lp, 251))).unwrap();
    assert_eq!((plan.pool_bump, plan.mint_lp_bump), (250, 251));
    assert_eq!(ix.decide(None, Some((lp, 251))).err(), Some(ProgramError::InvalidSeeds));
    assert_eq!(ix.decide(Some((pool, 250)), None).err(), Some(ProgramError::InvalidSeeds));
    assert_eq!(ix.decide(Some((lp, 250)), Some((lp, 251))).err(), Some(ProgramError::InvalidSeeds));
    assert_eq!(ix.decide(Some((pool, 250)), Some((pool, 251))).err(), Some(ProgramError::InvalidSeeds));
}

#[test]
fn pool_token_accounts_match_given_addresses() {
    let a = Address::new_from_array([1; 32]);
    let b = Address::new_from_array([2; 32]);
    assert_eq!(match_token_accounts(Some(a), Some(b), &a, &b), Ok(()));
    assert_eq!(match_token_accounts(Some(a), Some(b), &b, &a), Err(ProgramError::InvalidSeeds));
    assert_eq!(match_token_accounts(None, Some(b), &a, &b), Err(ProgramError::InvalidSeeds));
    assert_eq!(match_token_accounts(Some(a), None, &a, &b), Err(ProgramError::InvalidSeeds));
}

#[test]
fn admin_updates_keep_creator_id_and_bump() {
    let mut accounts = admin_accounts();
    let (_, bump) = amm_pda();
    UpdateFee::try_from(&accounts, &9_999u16.to_le_bytes()).unwrap().process(&mut accounts[1]).unwrap();
    SetPaused::try_from(&accounts, &[1]).unwrap().process(&mut accounts[1]).unwrap();
    let config = AmmConfig::load_amm(&accounts[1]).unwrap();
    assert_eq!(config.get_creator().bytes, ADMIN);
    assert_eq!(config.get_id(), AMM_ID);
    assert_eq!(config.get_bump(), [bump]);
    assert!(config.get_fee() < 10_000 && config.get_paused() <= 1);
}
