use pinocchio_amm::account::AccountState;
use pinocchio_amm::address::{program_id, Address};
use pinocchio_amm::error::ProgramError;
use pinocchio_amm::state::{AmmConfig, Pool, AMM_CONFIG_LEN, POOL_LEN};

fn amm_bytes(creator: [u8; 32], admin: [u8; 32], id: u32, fee: u16, paused: u8, bump: u8) -> Vec<u8> {
    let mut v = Vec::new();
    v.extend_from_slice(&creator);
    v.extend_from_slice(&admin);
    v.extend_from_slice(&id.to_le_bytes());
    v.extend_from_slice(&fee.to_le_bytes());
    v.push(paused);
    v.push(bump);
    v
}

fn pool_bytes(amm: [u8; 32], a: [u8; 32], b: [u8; 32], bump: u8, lp_bump: u8) -> Vec<u8> {
    let mut v = Vec::new();
    v.extend_from_slice(&amm);
    v.extend_from_slice(&a);
    v.extend_from_slice(&b);
    v.push(bump);
    v.push(lp_bump);
    v
}

fn account(owner: Address, data: Vec<u8>) -> AccountState {
    AccountState {
        address: Address::new_from_array([9u8; 32]),
        owner,
        is_signer: false,
        is_writable: true,
        data,
    }
}

#[test]
fn layout_lengths() {
    assert_eq!(AMM_CONFIG_LEN, 72);
    assert_eq!(AmmConfig::LEN, 72);
    assert_eq!(POOL_LEN, 98);
    assert_eq!(Pool::LEN, 98);
}

#[test]
fn amm_config_reads_fields_and_writes_back() {
    let bytes = amm_bytes([1; 32], [2; 32], 0xdead_beef, 30, 1, 254);
    let config = AmmConfig::from_bytes(&bytes);
    assert_eq!(config.get_creator().bytes, [1; 32]);
    assert_eq!(config.get_admin().bytes, [2; 32]);
    assert_eq!(config.get_id(), 0xdead_beef);
    assert_eq!(config.get_fee(), 30);
    assert_eq!(config.get_paused(), 1);
    assert_eq!(config.get_bump(), [254]);
    assert_eq!(config.to_bytes(), bytes);
}

#[test]
fn amm_config_setters_change_one_field() {
    let bytes = amm_bytes([1; 32], [2; 32], 7, 30, 0, 200);
    let mut config = AmmConfig::from_bytes(&bytes);
    config.set_fee(250);
    assert_eq!(config.to_bytes(), amm_bytes([1; 32], [2; 32], 7, 250, 0, 200));
    config.set_paused(1);
    assert_eq!(config.to_bytes(), amm_bytes([1; 32], [2; 32], 7, 250, 1, 200));
    config.set_admin(Address::new_from_array([3; 32]));
    assert_eq!(config.to_bytes(), amm_bytes([1; 32], [3; 32], 7, 250, 1, 200));
    config.set_id(8);
    config.set_bump([5]);
    assert_eq!(config.to_bytes(), amm_bytes([1; 32], [3; 32], 8, 250, 1, 5));
    config.set_all(
        Address::new_from_array([4; 32]),
        Address::new_from_array([5; 32]),
        1,
        2,
        0,
        [3],
    );
    assert_eq!(config.to_bytes(), amm_bytes([4; 32], [5; 32], 1, 2, 0, 3));
}

#[test]
fn load_amm_checks_length_then_owner() {
    let bytes = amm_bytes([1; 32], [2; 32], 7, 30, 0, 200);
    let ok = account(program_id(), bytes.clone());
    assert_eq!(AmmConfig::load_amm(&ok).map(|c| c.to_bytes()), Ok(bytes.clone()));
    assert_eq!(AmmConfig::load_amm_mut(&ok).map(|c| c.get_fee()), Ok(30));

    let short = account(program_id(), bytes[..71].to_vec());
    assert_eq!(AmmConfig::load_amm(&short).err(), Some(ProgramError::InvalidInstructionData));

    let foreign = account(Address::new_from_array([8; 32]), bytes.clone());
    assert_eq!(AmmConfig::load_amm(&foreign).err(), Some(ProgramError::InvalidAccountData));

    // The length is checked before the owner.
    let both = account(Address::new_from_array([8; 32]), vec![0; 10]);
    assert_eq!(AmmConfig::load_amm(&both).err(), Some(ProgramError::InvalidInstructionData));
}

#[test]
fn amm_config_store_rewrites_data() {
    let bytes = amm_bytes([1; 32], [2; 32], 7, 30, 0, 200);
    let mut acc = account(program_id(), bytes.clone());
    let mut config = AmmConfig::load_amm_mut(&acc).unwrap();
    config.set_fee(99);
    config.store(&mut acc);
    assert_eq!(acc.data, amm_bytes([1; 32], [2; 32], 7, 99, 0, 200));
    assert_eq!(acc.owner.bytes, program_id().bytes);
}

#[test]
fn pool_reads_fields_and_writes_back() {
    let bytes = pool_bytes([1; 32], [2; 32], [3; 32], 250, 251);
    let pool = Pool::from_bytes(&bytes);
    assert_eq!(pool.get_amm().bytes, [1; 32]);
    assert_eq!(pool.get_mint_a().bytes, [2; 32]);
    assert_eq!(pool.get_mint_b().bytes, [3; 32]);
    assert_eq!(pool.get_bump(), [250]);
    assert_eq!(pool.get_mint_lp_bump(), [251]);
    assert_eq!(pool.to_bytes(), bytes);
}

#[test]
fn pool_setters_change_one_field() {
    let mut pool = Pool::from_bytes(&pool_bytes([1; 32], [2; 32], [3; 32], 250, 251));
    pool.set_amm(Address::new_from_array([7; 32]));
    pool.set_mint_a(Address::new_from_array([8; 32]));
    assert_eq!(pool.to_bytes(), pool_bytes([7; 32], [8; 32], [3; 32], 250, 251));
    pool.set_mint_b(Address::new_from_array([9; 32]));
    pool.set_bump([1]);
    pool.set_mint_lp_bump([2]);
    assert_eq!(pool.to_bytes(), pool_bytes([7; 32], [8; 32], [9; 32], 1, 2));
    pool.set_all(
        Address::new_from_array([4; 32]),
        Address::new_from_array([5; 32]),
        Address::new_from_array([6; 32]),
        [10],
        [11],
    );
    assert_eq!(pool.to_bytes(), pool_bytes([4; 32], [5; 32], [6; 32], 10, 11));
}

#[test]
fn load_pool_checks_length_then_owner() {
    let bytes = pool_bytes([1; 32], [2; 32], [3; 32], 250, 251);
    let ok = account(program_id(), bytes.clone());
    assert_eq!(Pool::load_pool(&ok).map(|p| p.to_bytes()), Ok(bytes.clone()));
    assert_eq!(Pool::load_pool_mut(&ok).map(|p| p.get_bump()), Ok([250]));
    let long = account(program_id(), [bytes.clone(), vec![0]].concat());
    assert_eq!(Pool::load_pool(&long).err(), Some(ProgramError::InvalidInstructionData));
    let foreign = account(Address::new_from_array([0; 32]), bytes.clone());
    assert_eq!(Pool::load_pool(&foreign).err(), Some(ProgramError::InvalidAccountData));
    let mut target = account(program_id(), vec![0; 98]);
    Pool::from_bytes(&bytes).store(&mut target);
    assert_eq!(target.data, bytes);
}
