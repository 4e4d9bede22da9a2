//! Transfers AMM administration to a new authority. Both the current and
//! the new admin must sign.
use vstd::prelude::*;
use crate::account::AccountState;
use crate::address::Address;
use crate::error::ProgramError;
use crate::state::{AmmConfig, AmmConfigView, amm_config_bytes, load_amm_result};

verus! {

/// The accounts of `TransferAdmin`: the admin, the new admin, the AMM.
#[derive(Clone, Copy, Debug)]
pub struct TransferAdminAccounts {
    pub admin: Address,
    pub new_admin: Address,
    pub amm: Address,
}

/// What validating the accounts of `TransferAdmin` gives: exactly three
/// accounts; both admins signed; the AMM is writable, holds a
/// configuration of this program, and names the first signer as admin.
pub open spec fn transfer_admin_accounts_result(accounts: Seq<AccountState>) -> Result<TransferAdminAccounts, ProgramError> {
    if accounts.len() != 3 {
        Err(ProgramError::NotEnoughAccountKeys)
    } else if !accounts[0].is_signer || !accounts[1].is_signer {
        Err(ProgramError::MissingRequiredSignature)
    } else if !accounts[2].is_writable {
        Err(ProgramError::InvalidAccountData)
    } else {
        match load_amm_result(accounts[2]) {
            Err(e) => Err(e),
            Ok(config) => if accounts[0].address@ != config.admin {
                Err(ProgramError::IncorrectAuthority)
            } else {
                Ok(TransferAdminAccounts {
                    admin: accounts[0].address,
                    new_admin: accounts[1].address,
                    amm: accounts[2].address,
                })
            },
        }
    }
}

impl TransferAdminAccounts {
    pub fn try_from(accounts: &[AccountState]) -> (r: Result<TransferAdminAccounts, ProgramError>)
        ensures
            r == transfer_admin_accounts_result(accounts@),
    {
        if accounts.len() != 3 {
            return Err(ProgramError::NotEnoughAccountKeys);
        }
        if !accounts[0].is_signer || !accounts[1].is_signer {
            return Err(ProgramError::MissingRequiredSignature);
        }
        if !accounts[2].is_writable {
            return Err(ProgramError::InvalidAccountData);
        }
        let config = AmmConfig::load_amm(&accounts[2])?;
        if !accounts[0].address.equals(config.get_admin()) {
            return Err(ProgramError::IncorrectAuthority);
        }
        Ok(TransferAdminAccounts {
            admin: accounts[0].address,
            new_admin: accounts[1].address,
            amm: accounts[2].address,
        })
    }
}

/// `TransferAdmin` takes no instruction data.
#[derive(Clone, Copy, Debug, PartialEq, Eq, Structural)]
pub struct TransferAdminInstructionData;

impl TransferAdminInstructionData {
    /// Refuses any data.
    pub fn try_from(data: &[u8]) -> (r: Result<TransferAdminInstructionData, ProgramError>)
        ensures
            r == (if data@.len() == 0 {
                Ok(TransferAdminInstructionData)
            } else {
                Err(ProgramError::InvalidInstructionData)
            }),
    {
        if data.len() != 0 {
            return Err(ProgramError::InvalidInstructionData);
        }
        Ok(TransferAdminInstructionData)
    }
}

/// The `TransferAdmin` instruction: its validated accounts and its data.
#[derive(Clone, Copy, Debug)]
pub struct TransferAdmin {
    pub accounts: TransferAdminAccounts,
    pub instruction_data: TransferAdminInstructionData,
}

impl TransferAdmin {
    /// The first byte of the instruction data that selects this instruction.
    pub const DISCRIMINATOR: u8 = 7;

    /// Validates the accounts, then decodes the data.
    pub fn try_from(accounts: &[AccountState], data: &[u8]) -> (r: Result<TransferAdmin, ProgramError>)
        ensures
            r == (match transfer_admin_accounts_result(accounts@) {
                Err(e) => Err(e),
                Ok(a) => if data@.len() == 0 {
                    Ok(TransferAdmin { accounts: a, instruction_data: TransferAdminInstructionData })
                } else {
                    Err(ProgramError::InvalidInstructionData)
                },
            }),
    {
        let accounts = TransferAdminAccounts::try_from(accounts)?;
        let instruction_data = TransferAdminInstructionData::try_from(data)?;
        Ok(TransferAdmin { accounts, instruction_data })
    }

    /// Makes the new admin the admin of the AMM configuration held by
    /// `amm`; nothing else of the configuration changes.
    pub fn process(&self, amm: &mut AccountState) -> (r: Result<(), ProgramError>)
        ensures
            match load_amm_result(*old(amm)) {
                Err(e) => r == Err::<(), ProgramError>(e) && *final(amm) == *old(amm),
                Ok(config) => r is Ok && final(amm).data@ == amm_config_bytes(
                    AmmConfigView { admin: self.accounts.new_admin@, ..config },
                ) && *final(amm) == (AccountState { data: final(amm).data, ..*old(amm) }),
            },
    {
        let mut config = AmmConfig::load_amm_mut(amm)?;
        config.set_admin(self.accounts.new_admin);
        config.store(amm);
        Ok(())
    }
}

} // verus!
