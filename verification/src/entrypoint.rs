//! Which instruction the first byte of the instruction data selects.
use vstd::prelude::*;
use crate::error::ProgramError;

verus! {

/// The program's instructions, by their discriminator byte.
#[derive(Clone, Copy, Debug, PartialEq, Eq, Structural)]
pub enum InstructionKind {
    InitializeAmm,
    InitializePool,
    DepositLiquidity,
    WithdrawLiquidity,
    SwapExactTokensForTokens,
    UpdateFee,
    SetPaused,
    TransferAdmin,
}

/// The instruction a discriminator byte selects.
pub open spec fn kind_of(discriminator: u8) -> Option<InstructionKind> {
    if discriminator == 0 {
        Some(InstructionKind::InitializeAmm)
    } else if discriminator == 1 {
        Some(InstructionKind::InitializePool)
    } else if discriminator == 2 {
        Some(InstructionKind::DepositLiquidity)
    } else if discriminator == 3 {
        Some(InstructionKind::WithdrawLiquidity)
    } else if discriminator == 4 {
        Some(InstructionKind::SwapExactTokensForTokens)
    } else if discriminator == 5 {
        Some(InstructionKind::UpdateFee)
    } else if discriminator == 6 {
        Some(InstructionKind::SetPaused)
    } else if discriminator == 7 {
        Some(InstructionKind::TransferAdmin)
    } else {
        None
    }
}

impl InstructionKind {
    /// The discriminator byte of the instruction.
    pub fn discriminator(&self) -> (r: u8)
        ensures
            kind_of(r) == Some(*self),
    {
        match self {
            InstructionKind::InitializeAmm => 0,
            InstructionKind::InitializePool => 1,
            InstructionKind::DepositLiquidity => 2,
            InstructionKind::WithdrawLiquidity => 3,
            InstructionKind::SwapExactTokensForTokens => 4,
            InstructionKind::UpdateFee => 5,
            InstructionKind::SetPaused => 6,
            InstructionKind::TransferAdmin => 7,
        }
    }
}

/// Selects the instruction by the first byte of the instruction data; the
/// rest of the data belongs to the instruction. Empty data, or an unknown
/// first byte, is invalid instruction data.
pub fn decode_instruction(data: &[u8]) -> (r: Result<InstructionKind, ProgramError>)
    ensures
        r == (if data@.len() == 0 {
            Err(ProgramError::InvalidInstructionData)
        } else {
            match kind_of(data@[0]) {
                Some(k) => Ok(k),
                None => Err(ProgramError::InvalidInstructionData),
            }
        }),
{
    if data.len() == 0 {
        return Err(ProgramError::InvalidInstructionData);
    }
    match data[0] {
        0 => Ok(InstructionKind::InitializeAmm),
        1 => Ok(InstructionKind::InitializePool),
        2 => Ok(InstructionKind::DepositLiquidity),
        3 => Ok(InstructionKind::WithdrawLiquidity),
        4 => Ok(InstructionKind::SwapExactTokensForTokens),
        5 => Ok(InstructionKind::UpdateFee),
        6 => Ok(InstructionKind::SetPaused),
        7 => Ok(InstructionKind::TransferAdmin),
        _ => Err(ProgramError::InvalidInstructionData),
    }
}

} // verus!
