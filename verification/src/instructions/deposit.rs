//! Deposits a pair of tokens and mints the corresponding LP tokens. The
//! pool configuration signs as the pool's token authority.
use vstd::prelude::*;
use crate::account::AccountState;
use crate::address::Address;
use crate::bytes::{le_value, read_le};
use crate::error::ProgramError;
use crate::instructions::common::{check_pool_token_accounts, pool_token_accounts_check};
use crate::math::{DepositPlan, compute_deposit, deposit_result};
use crate::pda::{derive_lp_mint_address, lp_mint_address};
use crate::state::{AmmConfig, Pool, load_amm_result, load_pool_result};

verus! {

/// The accounts of `DepositLiquidity`, by role.
#[derive(Clone, Copy, Debug)]
pub struct DepositLiquidityAccounts {
    pub amm: Address,
    pub pool_config: Address,
    pub depositor: Address,
    pub mint_lp: Address,
    pub pool_ata_a: Address,
    pub pool_ata_b: Address,
    pub depositor_ata_lp: Address,
    pub depositor_ata_a: Address,
    pub depositor_ata_b: Address,
    pub payer: Address,
    pub token_program: Address,
    pub associated_token_program: Address,
    pub system_program: Address,
}

/// The accounts in their order, by role.
pub open spec fn deposit_accounts_of(accounts: Seq<AccountState>) -> DepositLiquidityAccounts {
    DepositLiquidityAccounts {
        amm: accounts[0].address,
        pool_config: accounts[1].address,
        depositor: accounts[2].address,
        mint_lp: accounts[3].address,
        pool_ata_a: accounts[4].address,
        pool_ata_b: accounts[5].address,
        depositor_ata_lp: accounts[6].address,
        depositor_ata_a: accounts[7].address,
        depositor_ata_b: accounts[8].address,
        payer: accounts[9].address,
        token_program: accounts[10].address,
        associated_token_program: accounts[11].address,
        system_program: accounts[12].address,
    }
}

/// What validating the accounts of `DepositLiquidity` gives: exactly
/// thirteen accounts; the pool configuration is one of this program; the
/// AMM is the pool's and is not paused; the LP mint is the pool's, at the
/// address derived with its stored bump; the pool's token accounts are
/// the associated token accounts of the pool configuration.
pub open spec fn deposit_accounts_result(accounts: Seq<AccountState>) -> Result<DepositLiquidityAccounts, ProgramError> {
    if accounts.len() != 13 {
        Err(ProgramError::NotEnoughAccountKeys)
    } else {
        match load_pool_result(accounts[1]) {
            Err(e) => Err(e),
            Ok(pool) => if accounts[0].address@ != pool.amm {
                Err(ProgramError::InvalidAccountData)
            } else {
                match load_amm_result(accounts[0]) {
                    Err(e) => Err(e),
                    Ok(config) => if config.paused != 0 {
                        Err(ProgramError::InvalidArgument)
                    } else if accounts[3].address@ != lp_mint_address(
                        pool.amm,
                        pool.mint_a,
                        pool.mint_b,
                        pool.mint_lp_bump,
                    ) {
                        Err(ProgramError::InvalidSeeds)
                    } else {
                        match pool_token_accounts_check(
                            accounts[1].address@,
                            pool.mint_a,
                            pool.mint_b,
                            accounts[4].address@,
                            accounts[5].address@,
                        ) {
                            Err(e) => Err(e),
                            Ok(_) => Ok(deposit_accounts_of(accounts)),
                        }
                    },
                }
            },
        }
    }
}

impl DepositLiquidityAccounts {
    pub fn try_from(accounts: &[AccountState]) -> (r: Result<DepositLiquidityAccounts, ProgramError>)
        ensures
            r == deposit_accounts_result(accounts@),
    {
        if accounts.len() != 13 {
            return Err(ProgramError::NotEnoughAccountKeys);
        }
        let pool = Pool::load_pool(&accounts[1])?;
        if !accounts[0].address.equals(pool.get_amm()) {
            return Err(ProgramError::InvalidAccountData);
        }
        let config = AmmConfig::load_amm(&accounts[0])?;
        if config.get_paused() != 0 {
            return Err(ProgramError::InvalidArgument);
        }
        let expected_mint_lp = derive_lp_mint_address(
            pool.get_amm(),
            pool.get_mint_a(),
            pool.get_mint_b(),
            pool.get_mint_lp_bump()[0],
        );
        if !accounts[3].address.equals(&expected_mint_lp) {
            return Err(ProgramError::InvalidSeeds);
        }
        check_pool_token_accounts(
            &accounts[1].address,
            pool.get_mint_a(),
            pool.get_mint_b(),
            &accounts[4].address,
            &accounts[5].address,
        )?;
        Ok(DepositLiquidityAccounts {
            amm: accounts[0].address,
            pool_config: accounts[1].address,
            depositor: accounts[2].address,
            mint_lp: accounts[3].address,
            pool_ata_a: accounts[4].address,
            pool_ata_b: accounts[5].address,
            depositor_ata_lp: accounts[6].address,
            depositor_ata_a: accounts[7].address,
            depositor_ata_b: accounts[8].address,
            payer: accounts[9].address,
            token_program: accounts[10].address,
            associated_token_program: accounts[11].address,
            system_program: accounts[12].address,
        })
    }
}

/// The instruction data of `DepositLiquidity`: the largest amounts of
/// tokens A and B to deposit.
#[derive(Clone, Copy, Debug, PartialEq, Eq, Structural)]
pub struct DepositLiquidityInstructionData {
    pub amount_a: u64,
    pub amount_b: u64,
}

/// What decoding the data of `DepositLiquidity` gives: sixteen bytes, two
/// little-endian `u64` amounts.
pub open spec fn deposit_data_result(data: Seq<u8>) -> Result<DepositLiquidityInstructionData, ProgramError> {
    if data.len() != 16 {
        Err(ProgramError::InvalidInstructionData)
    } else {
        Ok(DepositLiquidityInstructionData {
            amount_a: le_value(data.subrange(0, 8)) as u64,
            amount_b: le_value(data.subrange(8, 16)) as u64,
        })
    }
}

impl DepositLiquidityInstructionData {
    pub fn try_from(data: &[u8]) -> (r: Result<DepositLiquidityInstructionData, ProgramError>)
        ensures
            r == deposit_data_result(data@),
    {
        if data.len() != 16 {
            return Err(ProgramError::InvalidInstructionData);
        }
        let amount_a = read_le(data, 0, 8);
        let amount_b = read_le(data, 8, 8);
        Ok(DepositLiquidityInstructionData { amount_a, amount_b })
    }
}

/// The `DepositLiquidity` instruction: its validated accounts and its data.
#[derive(Clone, Copy, Debug)]
pub struct DepositLiquidity {
    pub accounts: DepositLiquidityAccounts,
    pub instruction_data: DepositLiquidityInstructionData,
}

impl DepositLiquidity {
    /// The first byte of the instruction data that selects this instruction.
    pub const DISCRIMINATOR: u8 = 2;

    /// Validates the accounts, then decodes the data.
    pub fn try_from(accounts: &[AccountState], data: &[u8]) -> (r: Result<DepositLiquidity, ProgramError>)
        ensures
            r == (match deposit_accounts_result(accounts@) {
                Err(e) => Err(e),
                Ok(a) => match deposit_data_result(data@) {
                    Err(e) => Err(e),
                    Ok(d) => Ok(DepositLiquidity { accounts: a, instruction_data: d }),
                },
            }),
    {
        let accounts = DepositLiquidityAccounts::try_from(accounts)?;
        let instruction_data = DepositLiquidityInstructionData::try_from(data)?;
        Ok(DepositLiquidity { accounts, instruction_data })
    }

    /// Decides a deposit from the depositor's balances, the pool's
    /// reserves and the LP supply. The caller then creates the depositor's
    /// LP token account if needed, transfers `amount_a` and `amount_b` from
    /// the depositor to the pool, and mints `liquidity` LP tokens to the
    /// depositor, signed by the pool configuration.
    pub fn process(
        &self,
        depositor_balance_a: u64,
        depositor_balance_b: u64,
        pool_balance_a: u64,
        pool_balance_b: u64,
        lp_supply: u64,
    ) -> (r: Result<DepositPlan, ProgramError>)
        ensures
            r == deposit_result(
                self.instruction_data.amount_a,
                self.instruction_data.amount_b,
                depositor_balance_a,
                depositor_balance_b,
                pool_balance_a,
                pool_balance_b,
                lp_supply,
            ),
    {
        compute_deposit(
            self.instruction_data.amount_a,
            self.instruction_data.amount_b,
            depositor_balance_a,
            depositor_balance_b,
            pool_balance_a,
            pool_balance_b,
            lp_supply,
        )
    }
}

} // verus!
