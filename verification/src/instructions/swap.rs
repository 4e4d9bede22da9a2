//! Swaps an exact amount of one pool token for the other. The pool
//! configuration signs as the pool's token authority.
use vstd::prelude::*;
use crate::account::AccountState;
use crate::address::Address;
use crate::bytes::{le_value, read_le};
use crate::error::ProgramError;
use crate::instructions::common::{check_pool_token_accounts, pool_token_accounts_check};
use crate::math::{SwapPlan, check_invariant, compute_swap, invariant_holds, swap_result};
use crate::state::{AmmConfig, Pool, load_amm_result, load_pool_result};

verus! {

/// The accounts of `SwapExactTokensForTokens`, by role.
#[derive(Clone, Copy, Debug)]
pub struct SwapExactTokensForTokensAccounts {
    pub amm: Address,
    pub pool_config: Address,
    pub trader: Address,
    pub mint_a: Address,
    pub mint_b: Address,
    pub pool_ata_a: Address,
    pub pool_ata_b: Address,
    pub trader_ata_a: Address,
    pub trader_ata_b: Address,
    pub payer: Address,
    pub token_program: Address,
    pub associated_token_program: Address,
    pub system_program: Address,
}

/// The accounts in their order, by role.
pub open spec fn swap_accounts_of(accounts: Seq<AccountState>) -> SwapExactTokensForTokensAccounts {
    SwapExactTokensForTokensAccounts {
        amm: accounts[0].address,
        pool_config: accounts[1].address,
        trader: accounts[2].address,
        mint_a: accounts[3].address,
        mint_b: accounts[4].address,
        pool_ata_a: accounts[5].address,
        pool_ata_b: accounts[6].address,
        trader_ata_a: accounts[7].address,
        trader_ata_b: accounts[8].address,
        payer: accounts[9].address,
        token_program: accounts[10].address,
        associated_token_program: accounts[11].address,
        system_program: accounts[12].address,
    }
}

/// What validating the accounts of a swap gives: exactly thirteen
/// accounts; the pool configuration is one of this program; the AMM is
/// the pool's and is not paused; the pool's token accounts are the
/// associated token accounts of the pool configuration.
pub open spec fn swap_accounts_result(accounts: Seq<AccountState>) -> Result<SwapExactTokensForTokensAccounts, ProgramError> {
    if accounts.len() != 13 {
        Err(ProgramError::NotEnoughAccountKeys)
    } else {
        match load_pool_result(accounts[1]) {
            Err(e) => Err(e),
            Ok(pool) => if accounts[0].address@ != pool.amm {
                Err(ProgramError::InvalidAccountData)
            } else {
                match load_amm_result(accounts[0]) {
                    Err(e) => Err(e),
                    Ok(config) => if config.paused != 0 {
                        Err(ProgramError::InvalidArgument)
                    } else {
                        match pool_token_accounts_check(
                            accounts[1].address@,
                            pool.mint_a,
                            pool.mint_b,
                            accounts[5].address@,
                            accounts[6].address@,
                        ) {
                            Err(e) => Err(e),
                            Ok(_) => Ok(swap_accounts_of(accounts)),
                        }
                    },
                }
            },
        }
    }
}

impl SwapExactTokensForTokensAccounts {
    pub fn try_from(accounts: &[AccountState]) -> (r: Result<SwapExactTokensForTokensAccounts, ProgramError>)
        ensures
            r == swap_accounts_result(accounts@),
    {
        if accounts.len() != 13 {
            return Err(ProgramError::NotEnoughAccountKeys);
        }
        let pool = Pool::load_pool(&accounts[1])?;
        if !accounts[0].address.equals(pool.get_amm()) {
            return Err(ProgramError::InvalidAccountData);
        }
        let config = AmmConfig::load_amm(&accounts[0])?;
        if config.get_paused() != 0 {
            return Err(ProgramError::InvalidArgument);
        }
        check_pool_token_accounts(
            &accounts[1].address,
            pool.get_mint_a(),
            pool.get_mint_b(),
            &accounts[5].address,
            &accounts[6].address,
        )?;
        Ok(SwapExactTokensForTokensAccounts {
            amm: accounts[0].address,
            pool_config: accounts[1].address,
            trader: accounts[2].address,
            mint_a: accounts[3].address,
            mint_b: accounts[4].address,
            pool_ata_a: accounts[5].address,
            pool_ata_b: accounts[6].address,
            trader_ata_a: accounts[7].address,
            trader_ata_b: accounts[8].address,
            payer: accounts[9].address,
            token_program: accounts[10].address,
            associated_token_program: accounts[11].address,
            system_program: accounts[12].address,
        })
    }
}

/// The instruction data of a swap: the direction (`swap_a`: pay token A,
/// receive token B), the amount paid in, and the least output accepted.
#[derive(Clone, Copy, Debug, PartialEq, Eq, Structural)]
pub struct SwapExactTokensForTokensInstructionData {
    pub swap_a: bool,
    pub input_amount: u64,
    pub min_output_amount: u64,
}

/// What decoding the data of a swap gives: seventeen bytes, a direction
/// byte (0 or 1), then two little-endian `u64` amounts.
pub open spec fn swap_data_result(data: Seq<u8>) -> Result<SwapExactTokensForTokensInstructionData, ProgramError> {
    if data.len() != 17 || data[0] > 1 {
        Err(ProgramError::InvalidInstructionData)
    } else {
        Ok(SwapExactTokensForTokensInstructionData {
            swap_a: data[0] == 1,
            input_amount: le_value(data.subrange(1, 9)) as u64,
            min_output_amount: le_value(data.subrange(9, 17)) as u64,
        })
    }
}

impl SwapExactTokensForTokensInstructionData {
    pub fn try_from(data: &[u8]) -> (r: Result<SwapExactTokensForTokensInstructionData, ProgramError>)
        ensures
            r == swap_data_result(data@),
    {
        if data.len() != 17 {
            return Err(ProgramError::InvalidInstructionData);
        }
        let swap_a = match data[0] {
            0 => false,
            1 => true,
            _ => {
                return Err(ProgramError::InvalidInstructionData);
            },
        };
        let input_amount = read_le(data, 1, 8);
        let min_output_amount = read_le(data, 9, 8);
        Ok(SwapExactTokensForTokensInstructionData { swap_a, input_amount, min_output_amount })
    }
}

/// A token transfer a swap makes, by positions in the instruction's
/// account list: source, destination and authority token accounts, and
/// whether the pool configuration signs for it.
#[derive(Clone, Copy, Debug, PartialEq, Eq, Structural)]
pub struct TokenTransfer {
    pub from: usize,
    pub to: usize,
    pub authority: usize,
    pub amount: u64,
    pub signed_by_pool: bool,
}

/// The `SwapExactTokensForTokens` instruction: its validated accounts and
/// its data.
#[derive(Clone, Copy, Debug)]
pub struct SwapExactTokensForTokens {
    pub accounts: SwapExactTokensForTokensAccounts,
    pub instruction_data: SwapExactTokensForTokensInstructionData,
}

impl SwapExactTokensForTokens {
    /// The first byte of the instruction data that selects this instruction.
    pub const DISCRIMINATOR: u8 = 4;

    /// Validates the accounts, then decodes the data.
    pub fn try_from(accounts: &[AccountState], data: &[u8]) -> (r: Result<SwapExactTokensForTokens, ProgramError>)
        ensures
            r == (match swap_accounts_result(accounts@) {
                Err(e) => Err(e),
                Ok(a) => match swap_data_result(data@) {
                    Err(e) => Err(e),
                    Ok(d) => Ok(SwapExactTokensForTokens { accounts: a, instruction_data: d }),
                },
            }),
    {
        let accounts = SwapExactTokensForTokensAccounts::try_from(accounts)?;
        let instruction_data = SwapExactTokensForTokensInstructionData::try_from(data)?;
        Ok(SwapExactTokensForTokens { accounts, instruction_data })
    }

    /// Decides a swap from the trader's balances, the pool's reserves and
    /// the fee of the AMM configuration held by `amm`. The caller has
    /// created the trader's token accounts if needed; it then transfers the
    /// input from the trader to the pool and the output from the pool to the
    /// trader, signed by the pool configuration, and calls `check_reserves`
    /// with the new reserves. A fee above 10 000 basis points, which this
    /// program never stores, would make the fee exceed the input.
    pub fn process(
        &self,
        trader_balance_a: u64,
        trader_balance_b: u64,
        pool_balance_a: u64,
        pool_balance_b: u64,
        amm: &AccountState,
    ) -> (r: Result<SwapPlan, ProgramError>)
        requires
            load_amm_result(*amm) matches Ok(config) ==> config.fee <= 10_000,
        ensures
            r == (match load_amm_result(*amm) {
                Err(e) => Err(e),
                Ok(config) => swap_result(
                    self.instruction_data.swap_a,
                    self.instruction_data.input_amount,
                    self.instruction_data.min_output_amount,
                    trader_balance_a,
                    trader_balance_b,
                    pool_balance_a,
                    pool_balance_b,
                    config.fee,
                ),
            }),
    {
        let fee = AmmConfig::load_amm(amm)?.get_fee();
        compute_swap(
            self.instruction_data.swap_a,
            self.instruction_data.input_amount,
            self.instruction_data.min_output_amount,
            trader_balance_a,
            trader_balance_b,
            pool_balance_a,
            pool_balance_b,
            fee,
        )
    }

    /// The two transfers of a swap, in the order they are made: paying A
    /// (`swap_a`), the trader pays the input into the pool's A account, then
    /// the pool pays the output from its B account; paying B, the pool pays
    /// the output from its A account first, then the trader pays the input
    /// into the pool's B account. Positions: 1 pool configuration, 2 trader,
    /// 5 and 6 the pool's A and B accounts, 7 and 8 the trader's.
    pub fn transfers(&self, plan: &SwapPlan) -> (r: (TokenTransfer, TokenTransfer))
        ensures
            r == (if self.instruction_data.swap_a {
                (
                    TokenTransfer { from: 7, to: 5, authority: 2, amount: plan.input, signed_by_pool: false },
                    TokenTransfer { from: 6, to: 8, authority: 1, amount: plan.output, signed_by_pool: true },
                )
            } else {
                (
                    TokenTransfer { from: 5, to: 7, authority: 1, amount: plan.output, signed_by_pool: true },
                    TokenTransfer { from: 8, to: 6, authority: 2, amount: plan.input, signed_by_pool: false },
                )
            }),
    {
        if self.instruction_data.swap_a {
            (
                TokenTransfer { from: 7, to: 5, authority: 2, amount: plan.input, signed_by_pool: false },
                TokenTransfer { from: 6, to: 8, authority: 1, amount: plan.output, signed_by_pool: true },
            )
        } else {
            (
                TokenTransfer { from: 5, to: 7, authority: 1, amount: plan.output, signed_by_pool: true },
                TokenTransfer { from: 8, to: 6, authority: 2, amount: plan.input, signed_by_pool: false },
            )
        }
    }

    /// The check after the transfers: the product of the new reserves is
    /// not below the product before the swap.
    pub fn check_reserves(&self, plan: &SwapPlan, new_pool_balance_a: u64, new_pool_balance_b: u64) -> (r: Result<(), ProgramError>)
        ensures
            r == (if invariant_holds(plan.reserve_product, new_pool_balance_a, new_pool_balance_b) {
                Ok(())
            } else {
                Err(ProgramError::InvalidAccountData)
            }),
    {
        check_invariant(plan.reserve_product, new_pool_balance_a, new_pool_balance_b)
    }
}

} // verus!
