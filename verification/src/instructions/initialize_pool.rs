//! Initializes a new pool for a pair of mints: its configuration, its LP
//! mint and its two token accounts.
use vstd::prelude::*;
use crate::account::AccountState;
use crate::address::{
    Address, associated_token_program_bytes, associated_token_program_id, bytes_lt, program_id_bytes,
    system_program_bytes, system_program_id, token_program_bytes, token_program_id,
};
use crate::error::ProgramError;
use crate::instructions::common::{check_pool_token_accounts, pool_token_accounts_check};
use crate::pda::{
    amm_address, canonical_address, derive_amm_address, find_lp_mint_address, find_pool_address, pool_address,
    liquidity_seed, lp_mint_address,
};
use crate::state::{AmmConfig, Pool, PoolView, load_amm_result, load_pool_result, pool_bytes};

verus! {

/// The accounts of `InitializePool`, by role.
#[derive(Clone, Copy, Debug)]
pub struct InitializePoolAccounts {
    pub payer: Address,
    pub amm: Address,
    pub pool_config: Address,
    pub mint_lp: Address,
    pub mint_a: Address,
    pub mint_b: Address,
    pub pool_ata_a: Address,
    pub pool_ata_b: Address,
    pub token_program: Address,
    pub associated_token_program: Address,
    pub system_program: Address,
}

/// The accounts in their order, by role.
pub open spec fn initialize_pool_accounts_of(accounts: Seq<AccountState>) -> InitializePoolAccounts {
    InitializePoolAccounts {
        payer: accounts[0].address,
        amm: accounts[1].address,
        pool_config: accounts[2].address,
        mint_lp: accounts[3].address,
        mint_a: accounts[4].address,
        mint_b: accounts[5].address,
        pool_ata_a: accounts[6].address,
        pool_ata_b: accounts[7].address,
        token_program: accounts[8].address,
        associated_token_program: accounts[9].address,
        system_program: accounts[10].address,
    }
}

/// What validating the accounts of `InitializePool` gives, for what
/// reading the two mints reported (whether each is initialized): exactly
/// eleven accounts; the payer signed; the accounts to create are writable;
/// the three programs are the Token, Associated Token Account and System
/// programs; the AMM holds a configuration at the address derived from its
/// creator, identifier and bump, and is not paused; both mints are
/// initialized, mint A orders strictly before mint B; the pool's token
/// accounts are the associated token accounts of the pool configuration.
pub open spec fn initialize_pool_accounts_result(
    accounts: Seq<AccountState>,
    mint_a_initialized: Result<bool, ProgramError>,
    mint_b_initialized: Result<bool, ProgramError>,
) -> Result<InitializePoolAccounts, ProgramError> {
    if accounts.len() != 11 {
        Err(ProgramError::NotEnoughAccountKeys)
    } else if !accounts[0].is_signer {
        Err(ProgramError::MissingRequiredSignature)
    } else if !accounts[0].is_writable || !accounts[2].is_writable || !accounts[3].is_writable
        || !accounts[6].is_writable || !accounts[7].is_writable {
        Err(ProgramError::InvalidAccountData)
    } else if accounts[8].address@ != token_program_bytes()
        || accounts[9].address@ != associated_token_program_bytes()
        || accounts[10].address@ != system_program_bytes() {
        Err(ProgramError::IncorrectProgramId)
    } else {
        match load_amm_result(accounts[1]) {
            Err(e) => Err(e),
            Ok(config) => if accounts[1].address@ != amm_address(config.creator, config.id, config.bump) {
                Err(ProgramError::InvalidSeeds)
            } else if config.paused != 0 {
                Err(ProgramError::InvalidArgument)
            } else {
                match (mint_a_initialized, mint_b_initialized) {
                    (Err(e), _) => Err(e),
                    (Ok(_), Err(e)) => Err(e),
                    (Ok(a_initialized), Ok(b_initialized)) => if !a_initialized || !b_initialized {
                        Err(ProgramError::UninitializedAccount)
                    } else if !bytes_lt(accounts[4].address@, accounts[5].address@) {
                        Err(ProgramError::InvalidArgument)
                    } else {
                        match pool_token_accounts_check(
                            accounts[2].address@,
                            accounts[4].address@,
                            accounts[5].address@,
                            accounts[6].address@,
                            accounts[7].address@,
                        ) {
                            Err(e) => Err(e),
                            Ok(_) => Ok(initialize_pool_accounts_of(accounts)),
                        }
                    },
                }
            },
        }
    }
}

impl InitializePoolAccounts {
    /// Validates the accounts. `mint_a_initialized` and
    /// `mint_b_initialized` are what reading the two mint accounts reported.
    pub fn try_from(
        accounts: &[AccountState],
        mint_a_initialized: Result<bool, ProgramError>,
        mint_b_initialized: Result<bool, ProgramError>,
    ) -> (r: Result<InitializePoolAccounts, ProgramError>)
        ensures
            r == initialize_pool_accounts_result(accounts@, mint_a_initialized, mint_b_initialized),
    {
        if accounts.len() != 11 {
            return Err(ProgramError::NotEnoughAccountKeys);
        }
        if !accounts[0].is_signer {
            return Err(ProgramError::MissingRequiredSignature);
        }
        if !accounts[0].is_writable || !accounts[2].is_writable || !accounts[3].is_writable
            || !accounts[6].is_writable || !accounts[7].is_writable {
            return Err(ProgramError::InvalidAccountData);
        }
        let token_program = token_program_id();
        let ata_program = associated_token_program_id();
        let system_program = system_program_id();
        if !accounts[8].address.equals(&token_program) || !accounts[9].address.equals(&ata_program)
            || !accounts[10].address.equals(&system_program) {
            return Err(ProgramError::IncorrectProgramId);
        }
        let config = AmmConfig::load_amm(&accounts[1])?;
        let expected_amm = derive_amm_address(config.get_creator(), config.get_id(), config.get_bump()[0]);
        if !accounts[1].address.equals(&expected_amm) {
            return Err(ProgramError::InvalidSeeds);
        }
        if config.get_paused() != 0 {
            return Err(ProgramError::InvalidArgument);
        }
        let a_initialized = mint_a_initialized?;
        let b_initialized = mint_b_initialized?;
        if !a_initialized || !b_initialized {
            return Err(ProgramError::UninitializedAccount);
        }
        if !accounts[4].address.less_than(&accounts[5].address) {
            return Err(ProgramError::InvalidArgument);
        }
        check_pool_token_accounts(
            &accounts[2].address,
            &accounts[4].address,
            &accounts[5].address,
            &accounts[6].address,
            &accounts[7].address,
        )?;
        Ok(InitializePoolAccounts {
            payer: accounts[0].address,
            amm: accounts[1].address,
            pool_config: accounts[2].address,
            mint_lp: accounts[3].address,
            mint_a: accounts[4].address,
            mint_b: accounts[5].address,
            pool_ata_a: accounts[6].address,
            pool_ata_b: accounts[7].address,
            token_program: accounts[8].address,
            associated_token_program: accounts[9].address,
            system_program: accounts[10].address,
        })
    }
}

/// `InitializePool` takes no instruction data.
#[derive(Clone, Copy, Debug, PartialEq, Eq, Structural)]
pub struct InitializePoolInstructionData;

impl InitializePoolInstructionData {
    /// Refuses any data.
    pub fn try_from(data: &[u8]) -> (r: Result<InitializePoolInstructionData, ProgramError>)
        ensures
            r == (if data@.len() == 0 {
                Ok(InitializePoolInstructionData)
            } else {
                Err(ProgramError::InvalidInstructionData)
            }),
    {
        if data.len() != 0 {
            return Err(ProgramError::InvalidInstructionData);
        }
        Ok(InitializePoolInstructionData)
    }
}

/// The `InitializePool` instruction: its validated accounts and its data.
#[derive(Clone, Copy, Debug)]
pub struct InitializePool {
    pub accounts: InitializePoolAccounts,
    pub instruction_data: InitializePoolInstructionData,
}

/// The canonical bumps of the pool configuration and of the LP mint.
#[derive(Clone, Copy, Debug, PartialEq, Eq, Structural)]
pub struct InitializePoolPlan {
    pub pool_bump: u8,
    pub mint_lp_bump: u8,
}

/// What `InitializePool::process` decides: the pool configuration and
/// the LP mint must sit at their canonical addresses, derived from the
/// AMM and the two mints (and "liquidity" for the LP mint).
pub open spec fn initialize_pool_process_result(ix: InitializePool) -> Result<InitializePoolPlan, ProgramError> {
    let a = ix.accounts;
    match canonical_address(seq![a.amm@, a.mint_a@, a.mint_b@], program_id_bytes()) {
        None => Err(ProgramError::InvalidSeeds),
        Some((pool_address, pool_bump)) => if a.pool_config@ != pool_address {
            Err(ProgramError::InvalidSeeds)
        } else {
            match canonical_address(seq![a.amm@, a.mint_a@, a.mint_b@, liquidity_seed()], program_id_bytes()) {
                None => Err(ProgramError::InvalidSeeds),
                Some((mint_address, mint_lp_bump)) => if a.mint_lp@ != mint_address {
                    Err(ProgramError::InvalidSeeds)
                } else {
                    Ok(InitializePoolPlan { pool_bump, mint_lp_bump })
                },
            }
        },
    }
}

/// The configuration a new pool starts with.
pub open spec fn new_pool_config(ix: InitializePool, plan: InitializePoolPlan) -> PoolView {
    PoolView {
        amm: ix.accounts.amm@,
        mint_a: ix.accounts.mint_a@,
        mint_b: ix.accounts.mint_b@,
        bump: plan.pool_bump,
        mint_lp_bump: plan.mint_lp_bump,
    }
}

impl InitializePool {
    /// The first byte of the instruction data that selects this instruction.
    pub const DISCRIMINATOR: u8 = 1;

    /// Validates the accounts, then decodes the data.
    pub fn try_from(
        accounts: &[AccountState],
        data: &[u8],
        mint_a_initialized: Result<bool, ProgramError>,
        mint_b_initialized: Result<bool, ProgramError>,
    ) -> (r: Result<InitializePool, ProgramError>)
        ensures
            r == (match initialize_pool_accounts_result(accounts@, mint_a_initialized, mint_b_initialized) {
                Err(e) => Err(e),
                Ok(a) => if data@.len() == 0 {
                    Ok(InitializePool { accounts: a, instruction_data: InitializePoolInstructionData })
                } else {
                    Err(ProgramError::InvalidInstructionData)
                },
            }),
    {
        let accounts = InitializePoolAccounts::try_from(accounts, mint_a_initialized, mint_b_initialized)?;
        let instruction_data = InitializePoolInstructionData::try_from(data)?;
        Ok(InitializePool { accounts, instruction_data })
    }

    /// Checks the pool configuration and LP mint accounts against their
    /// canonical addresses and returns the bumps. The caller then creates
    /// the pool configuration (signed by its seeds), creates and
    /// initializes the LP mint (6 decimals, the pool configuration as mint
    /// authority), creates the pool's two token accounts, and calls
    /// `populate`.
    pub fn process(&self) -> (r: Result<InitializePoolPlan, ProgramError>)
        ensures
            r == initialize_pool_process_result(*self),
            r matches Ok(plan) ==> self.accounts.pool_config@ == pool_address(
                self.accounts.amm@,
                self.accounts.mint_a@,
                self.accounts.mint_b@,
                plan.pool_bump,
            ),
            r matches Ok(plan) ==> self.accounts.mint_lp@ == lp_mint_address(
                self.accounts.amm@,
                self.accounts.mint_a@,
                self.accounts.mint_b@,
                plan.mint_lp_bump,
            ),
    {
        let a = &self.accounts;
        let found_pool = find_pool_address(&a.amm, &a.mint_a, &a.mint_b);
        if found_pool.is_none() {
            return Err(ProgramError::InvalidSeeds);
        }
        let found_mint_lp = find_lp_mint_address(&a.amm, &a.mint_a, &a.mint_b);
        self.decide(found_pool, found_mint_lp)
    }

    /// The decision of `process` for what the two address searches found.
    pub fn decide(&self, found_pool: Option<(Address, u8)>, found_mint_lp: Option<(Address, u8)>) -> (r: Result<
        InitializePoolPlan,
        ProgramError,
    >)
        ensures
            r == (match found_pool {
                None => Err(ProgramError::InvalidSeeds),
                Some((pool_address, pool_bump)) => if self.accounts.pool_config@ != pool_address@ {
                    Err(ProgramError::InvalidSeeds)
                } else {
                    match found_mint_lp {
                        None => Err(ProgramError::InvalidSeeds),
                        Some((mint_address, mint_lp_bump)) => if self.accounts.mint_lp@ != mint_address@ {
                            Err(ProgramError::InvalidSeeds)
                        } else {
                            Ok(InitializePoolPlan { pool_bump, mint_lp_bump })
                        },
                    }
                },
            }),
            r matches Ok(plan) ==> (found_pool matches Some((p, b)) && p@ == self.accounts.pool_config@
                && b == plan.pool_bump) && (found_mint_lp matches Some(
                (m, b),
            ) && m@ == self.accounts.mint_lp@ && b == plan.mint_lp_bump),
    {
        let a = &self.accounts;
        let (expected_pool, pool_bump) = match found_pool {
            Some(x) => x,
            None => {
                return Err(ProgramError::InvalidSeeds);
            },
        };
        if !a.pool_config.equals(&expected_pool) {
            return Err(ProgramError::InvalidSeeds);
        }
        let (expected_mint_lp, mint_lp_bump) = match found_mint_lp {
            Some(x) => x,
            None => {
                return Err(ProgramError::InvalidSeeds);
            },
        };
        if !a.mint_lp.equals(&expected_mint_lp) {
            return Err(ProgramError::InvalidSeeds);
        }
        Ok(InitializePoolPlan { pool_bump, mint_lp_bump })
    }

    /// Writes the new pool configuration into the created account.
    pub fn populate(&self, plan: &InitializePoolPlan, pool_config: &mut AccountState) -> (r: Result<(), ProgramError>)
        ensures
            match load_pool_result(*old(pool_config)) {
                Err(e) => r == Err::<(), ProgramError>(e) && *final(pool_config) == *old(pool_config),
                Ok(_) => r is Ok && final(pool_config).data@ == pool_bytes(new_pool_config(*self, *plan))
                    && *final(pool_config) == (AccountState { data: final(pool_config).data, ..*old(pool_config) }),
            },
    {
        let mut pool = Pool::load_pool_mut(pool_config)?;
        pool.set_all(
            self.accounts.amm,
            self.accounts.mint_a,
            self.accounts.mint_b,
            [plan.pool_bump],
            [plan.mint_lp_bump],
        );
        pool.store(pool_config);
        Ok(())
    }
}

} // verus!
