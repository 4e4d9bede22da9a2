//! Initializes the AMM configuration account. The account stores the
//! creator, admin, identifier, fee, pause state and canonical bump.
use vstd::prelude::*;
use crate::account::AccountState;
use crate::address::{Address, program_id_bytes, system_program_bytes, system_program_id};
use crate::bytes::{le_bytes, le_value, read_le};
use crate::error::ProgramError;
use crate::pda::{amm_address, amm_seed, canonical_address, find_amm_address};
use crate::state::{AmmConfig, AmmConfigView, amm_config_bytes, load_amm_result};

verus! {

/// The accounts of `InitializeAmm`, by role.
#[derive(Clone, Copy, Debug)]
pub struct InitializeAmmAccounts {
    pub payer: Address,
    pub admin: Address,
    pub amm: Address,
    pub system_program: Address,
}

/// What validating the accounts of `InitializeAmm` gives: exactly four
/// accounts, the System program last, and signatures of the payer and
/// the admin.
pub open spec fn initialize_amm_accounts_result(accounts: Seq<AccountState>) -> Result<InitializeAmmAccounts, ProgramError> {
    if accounts.len() != 4 {
        Err(ProgramError::NotEnoughAccountKeys)
    } else if accounts[3].address@ != system_program_bytes() {
        Err(ProgramError::InvalidAccountData)
    } else if !accounts[0].is_signer {
        Err(ProgramError::MissingRequiredSignature)
    } else if !accounts[1].is_signer {
        Err(ProgramError::MissingRequiredSignature)
    } else {
        Ok(InitializeAmmAccounts {
            payer: accounts[0].address,
            admin: accounts[1].address,
            amm: accounts[2].address,
            system_program: accounts[3].address,
        })
    }
}

impl InitializeAmmAccounts {
    pub fn try_from(accounts: &[AccountState]) -> (r: Result<InitializeAmmAccounts, ProgramError>)
        ensures
            r == initialize_amm_accounts_result(accounts@),
    {
        if accounts.len() != 4 {
            return Err(ProgramError::NotEnoughAccountKeys);
        }
        let system = system_program_id();
        if !accounts[3].address.equals(&system) {
            return Err(ProgramError::InvalidAccountData);
        }
        if !accounts[0].is_signer {
            return Err(ProgramError::MissingRequiredSignature);
        }
        if !accounts[1].is_signer {
            return Err(ProgramError::MissingRequiredSignature);
        }
        Ok(InitializeAmmAccounts {
            payer: accounts[0].address,
            admin: accounts[1].address,
            amm: accounts[2].address,
            system_program: accounts[3].address,
        })
    }
}

/// The instruction data of `InitializeAmm`: the AMM's identifier and its
/// swap fee in basis points.
#[derive(Clone, Copy, Debug, PartialEq, Eq, Structural)]
pub struct InitializeAmmInstructionData {
    pub id: u32,
    pub fee: u16,
}

/// What decoding the data of `InitializeAmm` gives: six bytes, a
/// little-endian `u32` identifier then a little-endian `u16` fee, which
/// must be below 10 000 basis points.
pub open spec fn initialize_amm_data_result(data: Seq<u8>) -> Result<InitializeAmmInstructionData, ProgramError> {
    if data.len() != 6 {
        Err(ProgramError::InvalidInstructionData)
    } else if le_value(data.subrange(4, 6)) >= 10_000 {
        Err(ProgramError::InvalidInstructionData)
    } else {
        Ok(InitializeAmmInstructionData {
            id: le_value(data.subrange(0, 4)) as u32,
            fee: le_value(data.subrange(4, 6)) as u16,
        })
    }
}

impl InitializeAmmInstructionData {
    pub fn try_from(data: &[u8]) -> (r: Result<InitializeAmmInstructionData, ProgramError>)
        ensures
            r == initialize_amm_data_result(data@),
    {
        if data.len() != 6 {
            return Err(ProgramError::InvalidInstructionData);
        }
        let id = read_le(data, 0, 4);
        let fee = read_le(data, 4, 2);
        if fee >= 10_000 {
            return Err(ProgramError::InvalidInstructionData);
        }
        proof {
            crate::bytes::lemma_pow256_values();
        }
        Ok(InitializeAmmInstructionData { id: id as u32, fee: fee as u16 })
    }
}

/// The `InitializeAmm` instruction: its validated accounts and its data.
#[derive(Clone, Copy, Debug)]
pub struct InitializeAmm {
    pub accounts: InitializeAmmAccounts,
    pub instruction_data: InitializeAmmInstructionData,
}

/// The canonical bump of the new AMM's address, found by `process`.
#[derive(Clone, Copy, Debug, PartialEq, Eq, Structural)]
pub struct InitializeAmmPlan {
    pub bump: u8,
}

/// What `InitializeAmm::process` decides: the AMM account must sit at the
/// canonical address derived from "amm", the admin and the identifier.
pub open spec fn initialize_amm_process_result(ix: InitializeAmm) -> Result<InitializeAmmPlan, ProgramError> {
    match canonical_address(
        seq![amm_seed(), ix.accounts.admin@, le_bytes(ix.instruction_data.id as nat, 4)],
        program_id_bytes(),
    ) {
        None => Err(ProgramError::InvalidInstructionData),
        Some((address, bump)) => if ix.accounts.amm@ != address {
            Err(ProgramError::InvalidAccountData)
        } else {
            Ok(InitializeAmmPlan { bump })
        },
    }
}

/// The configuration a new AMM starts with: created and administered by
/// the admin, running, with the given identifier, fee and bump.
pub open spec fn new_amm_config(ix: InitializeAmm, bump: u8) -> AmmConfigView {
    AmmConfigView {
        creator: ix.accounts.admin@,
        admin: ix.accounts.admin@,
        id: ix.instruction_data.id,
        fee: ix.instruction_data.fee,
        paused: 0,
        bump,
    }
}

impl InitializeAmm {
    /// The first byte of the instruction data that selects this instruction.
    pub const DISCRIMINATOR: u8 = 0;

    /// Validates the accounts, then decodes the data.
    pub fn try_from(accounts: &[AccountState], data: &[u8]) -> (r: Result<InitializeAmm, ProgramError>)
        ensures
            r == (match initialize_amm_accounts_result(accounts@) {
                Err(e) => Err(e),
                Ok(a) => match initialize_amm_data_result(data@) {
                    Err(e) => Err(e),
                    Ok(d) => Ok(InitializeAmm { accounts: a, instruction_data: d }),
                },
            }),
    {
        let accounts = InitializeAmmAccounts::try_from(accounts)?;
        let instruction_data = InitializeAmmInstructionData::try_from(data)?;
        Ok(InitializeAmm { accounts, instruction_data })
    }

    /// Checks the AMM account against the canonical address and returns
    /// its bump. The caller then creates the account, signed with the
    /// seeds "amm", admin, identifier and bump, and calls `populate`.
    pub fn process(&self) -> (r: Result<InitializeAmmPlan, ProgramError>)
        ensures
            r == initialize_amm_process_result(*self),
            r matches Ok(plan) ==> self.accounts.amm@ == amm_address(
                self.accounts.admin@,
                self.instruction_data.id,
                plan.bump,
            ),
    {
        let found = find_amm_address(&self.accounts.admin, self.instruction_data.id);
        self.decide(found)
    }

    /// The decision of `process` for what the address search found.
    pub fn decide(&self, found: Option<(Address, u8)>) -> (r: Result<InitializeAmmPlan, ProgramError>)
        ensures
            r == (match found {
                None => Err(ProgramError::InvalidInstructionData),
                Some((address, bump)) => if self.accounts.amm@ != address@ {
                    Err(ProgramError::InvalidAccountData)
                } else {
                    Ok(InitializeAmmPlan { bump })
                },
            }),
    {
        match found {
            None => Err(ProgramError::InvalidInstructionData),
            Some((expected, bump)) => {
                if !self.accounts.amm.equals(&expected) {
                    return Err(ProgramError::InvalidAccountData);
                }
                Ok(InitializeAmmPlan { bump })
            },
        }
    }

    /// Writes the new configuration into the created AMM account.
    pub fn populate(&self, plan: &InitializeAmmPlan, amm: &mut AccountState) -> (r: Result<(), ProgramError>)
        ensures
            match load_amm_result(*old(amm)) {
                Err(e) => r == Err::<(), ProgramError>(e) && *final(amm) == *old(amm),
                Ok(_) => r is Ok && final(amm).data@ == amm_config_bytes(new_amm_config(*self, plan.bump))
                    && *final(amm) == (AccountState { data: final(amm).data, ..*old(amm) }),
            },
    {
        let mut config = AmmConfig::load_amm_mut(amm)?;
        config.set_all(
            self.accounts.admin,
            self.accounts.admin,
            self.instruction_data.id,
            self.instruction_data.fee,
            0,
            [plan.bump],
        );
        config.store(amm);
        Ok(())
    }
}

} // verus!
