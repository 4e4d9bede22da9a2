//! Burns LP tokens and withdraws the corresponding pool tokens. The pool
//! configuration signs as the pool's token authority.
use vstd::prelude::*;
use crate::account::AccountState;
use crate::address::Address;
use crate::bytes::{le_value, read_le};
use crate::error::ProgramError;
use crate::instructions::common::{check_pool_token_accounts, pool_token_accounts_check};
use crate::math::{WithdrawPlan, compute_withdraw_share, withdraw_share};
use crate::pda::{derive_lp_mint_address, lp_mint_address};
use crate::state::{Pool, load_pool_result};

verus! {

/// The accounts of `WithdrawLiquidity`, by role.
#[derive(Clone, Copy, Debug)]
pub struct WithdrawLiquidityAccounts {
    pub pool_config: Address,
    pub depositor: Address,
    pub mint_lp: Address,
    pub mint_a: Address,
    pub mint_b: Address,
    pub pool_ata_a: Address,
    pub pool_ata_b: Address,
    pub depositor_ata_lp: Address,
    pub depositor_ata_a: Address,
    pub depositor_ata_b: Address,
    pub payer: Address,
    pub token_program: Address,
    pub associated_token_program: Address,
    pub system_program: Address,
}

/// The accounts in their order, by role.
pub open spec fn withdraw_accounts_of(accounts: Seq<AccountState>) -> WithdrawLiquidityAccounts {
    WithdrawLiquidityAccounts {
        pool_config: accounts[0].address,
        depositor: accounts[1].address,
        mint_lp: accounts[2].address,
        mint_a: accounts[3].address,
        mint_b: accounts[4].address,
        pool_ata_a: accounts[5].address,
        pool_ata_b: accounts[6].address,
        depositor_ata_lp: accounts[7].address,
        depositor_ata_a: accounts[8].address,
        depositor_ata_b: accounts[9].address,
        payer: accounts[10].address,
        token_program: accounts[11].address,
        associated_token_program: accounts[12].address,
        system_program: accounts[13].address,
    }
}

/// What validating the accounts of `WithdrawLiquidity` gives: exactly
/// fourteen accounts; the pool configuration is one of this program; the
/// LP mint is the pool's; the pool's token accounts are the associated
/// token accounts of the pool configuration.
pub open spec fn withdraw_accounts_result(accounts: Seq<AccountState>) -> Result<WithdrawLiquidityAccounts, ProgramError> {
    if accounts.len() != 14 {
        Err(ProgramError::NotEnoughAccountKeys)
    } else {
        match load_pool_result(accounts[0]) {
            Err(e) => Err(e),
            Ok(pool) => if accounts[2].address@ != lp_mint_address(
                pool.amm,
                pool.mint_a,
                pool.mint_b,
                pool.mint_lp_bump,
            ) {
                Err(ProgramError::InvalidSeeds)
            } else {
                match pool_token_accounts_check(
                    accounts[0].address@,
                    pool.mint_a,
                    pool.mint_b,
                    accounts[5].address@,
                    accounts[6].address@,
                ) {
                    Err(e) => Err(e),
                    Ok(_) => Ok(withdraw_accounts_of(accounts)),
                }
            },
        }
    }
}

impl WithdrawLiquidityAccounts {
    pub fn try_from(accounts: &[AccountState]) -> (r: Result<WithdrawLiquidityAccounts, ProgramError>)
        ensures
            r == withdraw_accounts_result(accounts@),
    {
        if accounts.len() != 14 {
            return Err(ProgramError::NotEnoughAccountKeys);
        }
        let pool = Pool::load_pool(&accounts[0])?;
        let expected_mint_lp = derive_lp_mint_address(
            pool.get_amm(),
            pool.get_mint_a(),
            pool.get_mint_b(),
            pool.get_mint_lp_bump()[0],
        );
        if !accounts[2].address.equals(&expected_mint_lp) {
            return Err(ProgramError::InvalidSeeds);
        }
        check_pool_token_accounts(
            &accounts[0].address,
            pool.get_mint_a(),
            pool.get_mint_b(),
            &accounts[5].address,
            &accounts[6].address,
        )?;
        Ok(WithdrawLiquidityAccounts {
            pool_config: accounts[0].address,
            depositor: accounts[1].address,
            mint_lp: accounts[2].address,
            mint_a: accounts[3].address,
            mint_b: accounts[4].address,
            pool_ata_a: accounts[5].address,
            pool_ata_b: accounts[6].address,
            depositor_ata_lp: accounts[7].address,
            depositor_ata_a: accounts[8].address,
            depositor_ata_b: accounts[9].address,
            payer: accounts[10].address,
            token_program: accounts[11].address,
            associated_token_program: accounts[12].address,
            system_program: accounts[13].address,
        })
    }
}

/// The instruction data of `WithdrawLiquidity`: the LP tokens to burn.
#[derive(Clone, Copy, Debug, PartialEq, Eq, Structural)]
pub struct WithdrawLiquidityInstructionData {
    pub amount: u64,
}

/// What decoding the data of `WithdrawLiquidity` gives: eight bytes, a
/// little-endian `u64` amount.
pub open spec fn withdraw_data_result(data: Seq<u8>) -> Result<WithdrawLiquidityInstructionData, ProgramError> {
    if data.len() != 8 {
        Err(ProgramError::InvalidInstructionData)
    } else {
        Ok(WithdrawLiquidityInstructionData { amount: le_value(data) as u64 })
    }
}

impl WithdrawLiquidityInstructionData {
    pub fn try_from(data: &[u8]) -> (r: Result<WithdrawLiquidityInstructionData, ProgramError>)
        ensures
            r == withdraw_data_result(data@),
    {
        if data.len() != 8 {
            return Err(ProgramError::InvalidInstructionData);
        }
        let amount = read_le(data, 0, 8);
        assert(data@.subrange(0, 8) =~= data@);
        Ok(WithdrawLiquidityInstructionData { amount })
    }
}

/// The `WithdrawLiquidity` instruction: its validated accounts and its data.
#[derive(Clone, Copy, Debug)]
pub struct WithdrawLiquidity {
    pub accounts: WithdrawLiquidityAccounts,
    pub instruction_data: WithdrawLiquidityInstructionData,
}

impl WithdrawLiquidity {
    /// The first byte of the instruction data that selects this instruction.
    pub const DISCRIMINATOR: u8 = 3;

    /// Validates the accounts, then decodes the data.
    pub fn try_from(accounts: &[AccountState], data: &[u8]) -> (r: Result<WithdrawLiquidity, ProgramError>)
        ensures
            r == (match withdraw_accounts_result(accounts@) {
                Err(e) => Err(e),
                Ok(a) => match withdraw_data_result(data@) {
                    Err(e) => Err(e),
                    Ok(d) => Ok(WithdrawLiquidity { accounts: a, instruction_data: d }),
                },
            }),
    {
        let accounts = WithdrawLiquidityAccounts::try_from(accounts)?;
        let instruction_data = WithdrawLiquidityInstructionData::try_from(data)?;
        Ok(WithdrawLiquidity { accounts, instruction_data })
    }

    /// Decides a withdrawal from the pool's reserves and the LP supply.
    /// The caller then creates the depositor's token accounts if needed,
    /// transfers `amount_a` and `amount_b` from the pool to the depositor,
    /// signed by the pool configuration, and burns the LP tokens.
    pub fn process(&self, pool_balance_a: u64, pool_balance_b: u64, mint_lp_supply: u64) -> (r: WithdrawPlan)
        ensures
            r.amount_a == withdraw_share(self.instruction_data.amount as int, pool_balance_a as int, mint_lp_supply as int),
            r.amount_b == withdraw_share(self.instruction_data.amount as int, pool_balance_b as int, mint_lp_supply as int),
    {
        let amount_a = compute_withdraw_share(self.instruction_data.amount, pool_balance_a, mint_lp_supply);
        let amount_b = compute_withdraw_share(self.instruction_data.amount, pool_balance_b, mint_lp_supply);
        WithdrawPlan { amount_a, amount_b }
    }
}

} // verus!
