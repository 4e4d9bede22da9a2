use pinocchio_amm::entrypoint::{decode_instruction, InstructionKind};
use pinocchio_amm::error::ProgramError;
use pinocchio_amm::instructions::deposit::{DepositLiquidity, DepositLiquidityInstructionData};
use pinocchio_amm::instructions::initialize_amm::{InitializeAmm, InitializeAmmInstructionData};
use pinocchio_amm::instructions::initialize_pool::{InitializePool, InitializePoolInstructionData};
use pinocchio_amm::instructions::set_paused::{SetPaused, SetPausedInstructionData};
use pinocchio_amm::instructions::swap::{
    SwapExactTokensForTokens, SwapExactTokensForTokensInstructionData,
};
use pinocchio_amm::instructions::transfer_admin::{TransferAdmin, TransferAdminInstructionData};
use pinocchio_amm::instructions::update_fee::{UpdateFee, UpdateFeeInstructionData};
use pinocchio_amm::instructions::withdraw::{WithdrawLiquidity, WithdrawLiquidityInstructionData};

#[test]
fn initialize_amm_data_decodes_id_and_fee() {
    let mut data = Vec::new();
    data.extend_from_slice(&0x0403_0201u32.to_le_bytes());
    data.extend_from_slice(&30u16.to_le_bytes());
    assert_eq!(
        InitializeAmmInstructionData::try_from(&data[..]),
        Ok(InitializeAmmInstructionData { id: 0x0403_0201, fee: 30 })
    );
}

#[test]
fn initialize_amm_data_fee_bound() {
    let mut data = vec![1, 0, 0, 0];
    data.extend_from_slice(&9_999u16.to_le_bytes());
    assert_eq!(
        InitializeAmmInstructionData::try_from(&data[..]),
        Ok(InitializeAmmInstructionData { id: 1, fee: 9_999 })
    );
    let mut data = vec![1, 0, 0, 0];
    data.extend_from_slice(&10_000u16.to_le_bytes());
    assert_eq!(
        InitializeAmmInstructionData::try_from(&data[..]),
        Err(ProgramError::InvalidInstructionData)
    );
    let mut data = vec![1, 0, 0, 0];
    data.extend_from_slice(&u16::MAX.to_le_bytes());
    assert_eq!(
        InitializeAmmInstructionData::try_from(&data[..]),
        Err(ProgramError::InvalidInstructionData)
    );
}

#[test]
fn initialize_amm_data_length() {
    assert_eq!(
        InitializeAmmInstructionData::try_from(&[0u8; 5][..]),
        Err(ProgramError::InvalidInstructionData)
    );
    assert_eq!(
        InitializeAmmInstructionData::try_from(&[0u8; 7][..]),
        Err(ProgramError::InvalidInstructionData)
    );
    assert_eq!(
        InitializeAmmInstructionData::try_from(&[0u8; 6][..]),
        Ok(InitializeAmmInstructionData { id: 0, fee: 0 })
    );
}

#[test]
fn deposit_data_decodes_amounts() {
    let mut data = Vec::new();
    data.extend_from_slice(&123_456_789u64.to_le_bytes());
    data.extend_from_slice(&u64::MAX.to_le_bytes());
    assert_eq!(
        DepositLiquidityInstructionData::try_from(&data[..]),
        Ok(DepositLiquidityInstructionData { amount_a: 123_456_789, amount_b: u64::MAX })
    );
    assert_eq!(
        DepositLiquidityInstructionData::try_from(&data[..15]),
        Err(ProgramError::InvalidInstructionData)
    );
    data.push(0);
    assert_eq!(
        DepositLiquidityInstructionData::try_from(&data[..]),
        Err(ProgramError::InvalidInstructionData)
    );
}

#[test]
fn withdraw_data_decodes_amount() {
    let data = 0x0102_0304_0506_0708u64.to_le_bytes();
    assert_eq!(
        WithdrawLiquidityInstructionData::try_from(&data[..]),
        Ok(WithdrawLiquidityInstructionData { amount: 0x0102_0304_0506_0708 })
    );
    assert_eq!(
        WithdrawLiquidityInstructionData::try_from(&data[..7]),
        Err(ProgramError::InvalidInstructionData)
    );
    assert_eq!(
        WithdrawLiquidityInstructionData::try_from(&[]),
        Err(ProgramError::InvalidInstructionData)
    );
}

fn swap_bytes(direction: u8, input: u64, min_output: u64) -> Vec<u8> {
    let mut data = vec![direction];
    data.extend_from_slice(&input.to_le_bytes());
    data.extend_from_slice(&min_output.to_le_bytes());
    data
}

#[test]
fn swap_data_decodes_direction_and_amounts() {
    assert_eq!(
        SwapExactTokensForTokensInstructionData::try_from(&swap_bytes(1, 500, 7)[..]),
        Ok(SwapExactTokensForTokensInstructionData { swap_a: true, input_amount: 500, min_output_amount: 7 })
    );
    assert_eq!(
        SwapExactTokensForTokensInstructionData::try_from(&swap_bytes(0, 1, u64::MAX)[..]),
        Ok(SwapExactTokensForTokensInstructionData {
            swap_a: false,
            input_amount: 1,
            min_output_amount: u64::MAX
        })
    );
}

#[test]
fn swap_data_rejects_bad_direction_and_length() {
    assert_eq!(
        SwapExactTokensForTokensInstructionData::try_from(&swap_bytes(2, 500, 7)[..]),
        Err(ProgramError::InvalidInstructionData)
    );
    let data = swap_bytes(1, 500, 7);
    assert_eq!(
        SwapExactTokensForTokensInstructionData::try_from(&data[..16]),
        Err(ProgramError::InvalidInstructionData)
    );
}

#[test]
fn update_fee_data_bound() {
    assert_eq!(
        UpdateFeeInstructionData::try_from(&9_999u16.to_le_bytes()[..]),
        Ok(UpdateFeeInstructionData { fee: 9_999 })
    );
    assert_eq!(
        UpdateFeeInstructionData::try_from(&0u16.to_le_bytes()[..]),
        Ok(UpdateFeeInstructionData { fee: 0 })
    );
    assert_eq!(
        UpdateFeeInstructionData::try_from(&10_000u16.to_le_bytes()[..]),
        Err(ProgramError::InvalidInstructionData)
    );
    assert_eq!(UpdateFeeInstructionData::try_from(&[1u8][..]), Err(ProgramError::InvalidInstructionData));
    assert_eq!(
        UpdateFeeInstructionData::try_from(&[1u8, 0, 0][..]),
        Err(ProgramError::InvalidInstructionData)
    );
}

#[test]
fn set_paused_data_values() {
    assert_eq!(SetPausedInstructionData::try_from(&[0u8][..]), Ok(SetPausedInstructionData { paused: 0 }));
    assert_eq!(SetPausedInstructionData::try_from(&[1u8][..]), Ok(SetPausedInstructionData { paused: 1 }));
    assert_eq!(SetPausedInstructionData::try_from(&[2u8][..]), Err(ProgramError::InvalidInstructionData));
    assert_eq!(SetPausedInstructionData::try_from(&[][..]), Err(ProgramError::InvalidInstructionData));
    assert_eq!(
        SetPausedInstructionData::try_from(&[1u8, 1][..]),
        Err(ProgramError::InvalidInstructionData)
    );
}

#[test]
fn empty_instruction_data() {
    assert_eq!(InitializePoolInstructionData::try_from(&[][..]), Ok(InitializePoolInstructionData));
    assert_eq!(
        InitializePoolInstructionData::try_from(&[0u8][..]),
        Err(ProgramError::InvalidInstructionData)
    );
    assert_eq!(TransferAdminInstructionData::try_from(&[][..]), Ok(TransferAdminInstructionData));
    assert_eq!(
        TransferAdminInstructionData::try_from(&[9u8][..]),
        Err(ProgramError::InvalidInstructionData)
    );
}

#[test]
fn discriminators_select_instructions() {
    let kinds = [
        (InitializeAmm::DISCRIMINATOR, InstructionKind::InitializeAmm),
        (InitializePool::DISCRIMINATOR, InstructionKind::InitializePool),
        (DepositLiquidity::DISCRIMINATOR, InstructionKind::DepositLiquidity),
        (WithdrawLiquidity::DISCRIMINATOR, InstructionKind::WithdrawLiquidity),
        (SwapExactTokensForTokens::DISCRIMINATOR, InstructionKind::SwapExactTokensForTokens),
        (UpdateFee::DISCRIMINATOR, InstructionKind::UpdateFee),
        (SetPaused::DISCRIMINATOR, InstructionKind::SetPaused),
        (TransferAdmin::DISCRIMINATOR, InstructionKind::TransferAdmin),
    ];
    for (i, (d, k)) in kinds.iter().enumerate() {
        assert_eq!(*d as usize, i);
        assert_eq!(decode_instruction(&[*d, 1, 2, 3]), Ok(*k));
        assert_eq!(k.discriminator(), *d);
    }
    assert_eq!(decode_instruction(&[8]), Err(ProgramError::InvalidInstructionData));
    assert_eq!(decode_instruction(&[255, 0]), Err(ProgramError::InvalidInstructionData));
    assert_eq!(decode_instruction(&[]), Err(ProgramError::InvalidInstructionData));
}
