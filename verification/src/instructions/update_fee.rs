//! Updates the AMM swap fee. Only the current admin can update the fee.
use vstd::prelude::*;
use crate::account::AccountState;
use crate::address::Address;
use crate::bytes::{le_value, read_le};
use crate::error::ProgramError;
use crate::state::{AmmConfig, AmmConfigView, amm_config_bytes, load_amm_result};

verus! {

/// The accounts of an admin instruction: the admin, then the AMM.
#[derive(Clone, Copy, Debug)]
pub struct UpdateFeeAccounts {
    pub admin: Address,
    pub amm: Address,
}

/// What validating the accounts of an admin instruction gives: exactly
/// two accounts; the admin signed; the AMM is writable, holds a
/// configuration of this program, and names the signer as its admin.
pub open spec fn admin_accounts_check(accounts: Seq<AccountState>) -> Result<(), ProgramError> {
    if accounts.len() != 2 {
        Err(ProgramError::NotEnoughAccountKeys)
    } else if !accounts[0].is_signer {
        Err(ProgramError::MissingRequiredSignature)
    } else if !accounts[1].is_writable {
        Err(ProgramError::InvalidAccountData)
    } else {
        match load_amm_result(accounts[1]) {
            Err(e) => Err(e),
            Ok(config) => if accounts[0].address@ != config.admin {
                Err(ProgramError::IncorrectAuthority)
            } else {
                Ok(())
            },
        }
    }
}

/// Validates the accounts of an admin instruction with two accounts.
pub fn check_admin_accounts(accounts: &[AccountState]) -> (r: Result<(), ProgramError>)
    ensures
        r == admin_accounts_check(accounts@),
{
    if accounts.len() != 2 {
        return Err(ProgramError::NotEnoughAccountKeys);
    }
    if !accounts[0].is_signer {
        return Err(ProgramError::MissingRequiredSignature);
    }
    if !accounts[1].is_writable {
        return Err(ProgramError::InvalidAccountData);
    }
    let config = AmmConfig::load_amm(&accounts[1])?;
    if !accounts[0].address.equals(config.get_admin()) {
        return Err(ProgramError::IncorrectAuthority);
    }
    Ok(())
}

impl UpdateFeeAccounts {
    pub fn try_from(accounts: &[AccountState]) -> (r: Result<UpdateFeeAccounts, ProgramError>)
        ensures
            r == (match admin_accounts_check(accounts@) {
                Err(e) => Err(e),
                Ok(_) => Ok(UpdateFeeAccounts { admin: accounts@[0].address, amm: accounts@[1].address }),
            }),
    {
        check_admin_accounts(accounts)?;
        Ok(UpdateFeeAccounts { admin: accounts[0].address, amm: accounts[1].address })
    }
}

/// The instruction data of `UpdateFee`: the new fee in basis points.
#[derive(Clone, Copy, Debug, PartialEq, Eq, Structural)]
pub struct UpdateFeeInstructionData {
    pub fee: u16,
}

/// What decoding the data of `UpdateFee` gives: two bytes, a little-endian
/// fee below 10 000 basis points.
pub open spec fn update_fee_data_result(data: Seq<u8>) -> Result<UpdateFeeInstructionData, ProgramError> {
    if data.len() != 2 || le_value(data) >= 10_000 {
        Err(ProgramError::InvalidInstructionData)
    } else {
        Ok(UpdateFeeInstructionData { fee: le_value(data) as u16 })
    }
}

impl UpdateFeeInstructionData {
    pub fn try_from(data: &[u8]) -> (r: Result<UpdateFeeInstructionData, ProgramError>)
        ensures
            r == update_fee_data_result(data@),
    {
        if data.len() != 2 {
            return Err(ProgramError::InvalidInstructionData);
        }
        let fee = read_le(data, 0, 2);
        assert(data@.subrange(0, 2) =~= data@);
        if fee >= 10_000 {
            return Err(ProgramError::InvalidInstructionData);
        }
        Ok(UpdateFeeInstructionData { fee: fee as u16 })
    }
}

/// The `UpdateFee` instruction: its validated accounts and its data.
#[derive(Clone, Copy, Debug)]
pub struct UpdateFee {
    pub accounts: UpdateFeeAccounts,
    pub instruction_data: UpdateFeeInstructionData,
}

impl UpdateFee {
    /// The first byte of the instruction data that selects this instruction.
    pub const DISCRIMINATOR: u8 = 5;

    /// Validates the accounts, then decodes the data.
    pub fn try_from(accounts: &[AccountState], data: &[u8]) -> (r: Result<UpdateFee, ProgramError>)
        ensures
            r == (match admin_accounts_check(accounts@) {
                Err(e) => Err(e),
                Ok(_) => match update_fee_data_result(data@) {
                    Err(e) => Err(e),
                    Ok(d) => Ok(UpdateFee {
                        accounts: UpdateFeeAccounts { admin: accounts@[0].address, amm: accounts@[1].address },
                        instruction_data: d,
                    }),
                },
            }),
    {
        let accounts = UpdateFeeAccounts::try_from(accounts)?;
        let instruction_data = UpdateFeeInstructionData::try_from(data)?;
        Ok(UpdateFee { accounts, instruction_data })
    }

    /// Sets the fee of the AMM configuration held by `amm`; nothing else
    /// of the configuration changes.
    pub fn process(&self, amm: &mut AccountState) -> (r: Result<(), ProgramError>)
        ensures
            match load_amm_result(*old(amm)) {
                Err(e) => r == Err::<(), ProgramError>(e) && *final(amm) == *old(amm),
                Ok(config) => r is Ok && final(amm).data@ == amm_config_bytes(
                    AmmConfigView { fee: self.instruction_data.fee, ..config },
                ) && *final(amm) == (AccountState { data: final(amm).data, ..*old(amm) }),
            },
    {
        let mut config = AmmConfig::load_amm_mut(amm)?;
        config.set_fee(self.instruction_data.fee);
        config.store(amm);
        Ok(())
    }
}

} // verus!
