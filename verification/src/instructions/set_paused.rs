//! Updates the AMM pause state. Only the current admin can pause or
//! resume the AMM.
use vstd::prelude::*;
use crate::account::AccountState;
use crate::address::Address;
use crate::error::ProgramError;
use crate::instructions::update_fee::{admin_accounts_check, check_admin_accounts};
use crate::state::{AmmConfig, AmmConfigView, amm_config_bytes, load_amm_result};

verus! {

/// The accounts of `SetPaused`: the admin, then the AMM.
#[derive(Clone, Copy, Debug)]
pub struct SetPausedAccounts {
    pub admin: Address,
    pub amm: Address,
}

impl SetPausedAccounts {
    pub fn try_from(accounts: &[AccountState]) -> (r: Result<SetPausedAccounts, ProgramError>)
        ensures
            r == (match admin_accounts_check(accounts@) {
                Err(e) => Err(e),
                Ok(_) => Ok(SetPausedAccounts { admin: accounts@[0].address, amm: accounts@[1].address }),
            }),
    {
        check_admin_accounts(accounts)?;
        Ok(SetPausedAccounts { admin: accounts[0].address, amm: accounts[1].address })
    }
}

/// The instruction data of `SetPaused`: 1 pauses, 0 resumes.
#[derive(Clone, Copy, Debug, PartialEq, Eq, Structural)]
pub struct SetPausedInstructionData {
    pub paused: u8,
}

/// What decoding the data of `SetPaused` gives: one byte, 0 or 1.
pub open spec fn set_paused_data_result(data: Seq<u8>) -> Result<SetPausedInstructionData, ProgramError> {
    if data.len() != 1 || data[0] > 1 {
        Err(ProgramError::InvalidInstructionData)
    } else {
        Ok(SetPausedInstructionData { paused: data[0] })
    }
}

impl SetPausedInstructionData {
    pub fn try_from(data: &[u8]) -> (r: Result<SetPausedInstructionData, ProgramError>)
        ensures
            r == set_paused_data_result(data@),
    {
        if data.len() != 1 {
            return Err(ProgramError::InvalidInstructionData);
        }
        let paused = match data[0] {
            0 => 0u8,
            1 => 1u8,
            _ => {
                return Err(ProgramError::InvalidInstructionData);
            },
        };
        Ok(SetPausedInstructionData { paused })
    }
}

/// The `SetPaused` instruction: its validated accounts and its data.
#[derive(Clone, Copy, Debug)]
pub struct SetPaused {
    pub accounts: SetPausedAccounts,
    pub instruction_data: SetPausedInstructionData,
}

impl SetPaused {
    /// The first byte of the instruction data that selects this instruction.
    pub const DISCRIMINATOR: u8 = 6;

    /// Validates the accounts, then decodes the data.
    pub fn try_from(accounts: &[AccountState], data: &[u8]) -> (r: Result<SetPaused, ProgramError>)
        ensures
            r == (match admin_accounts_check(accounts@) {
                Err(e) => Err(e),
                Ok(_) => match set_paused_data_result(data@) {
                    Err(e) => Err(e),
                    Ok(d) => Ok(SetPaused {
                        accounts: SetPausedAccounts { admin: accounts@[0].address, amm: accounts@[1].address },
                        instruction_data: d,
                    }),
                },
            }),
    {
        let accounts = SetPausedAccounts::try_from(accounts)?;
        let instruction_data = SetPausedInstructionData::try_from(data)?;
        Ok(SetPaused { accounts, instruction_data })
    }

    /// Sets the pause state of the AMM configuration held by `amm`;
    /// nothing else of the configuration changes.
    pub fn process(&self, amm: &mut AccountState) -> (r: Result<(), ProgramError>)
        ensures
            match load_amm_result(*old(amm)) {
                Err(e) => r == Err::<(), ProgramError>(e) && *final(amm) == *old(amm),
                Ok(config) => r is Ok && final(amm).data@ == amm_config_bytes(
                    AmmConfigView { paused: self.instruction_data.paused, ..config },
                ) && *final(amm) == (AccountState { data: final(amm).data, ..*old(amm) }),
            },
    {
        let mut config = AmmConfig::load_amm_mut(amm)?;
        config.set_paused(self.instruction_data.paused);
        config.store(amm);
        Ok(())
    }
}

} // verus!
