//! The errors the program reports.
use vstd::prelude::*;

verus! {

/// Errors of the program, named after the runtime's program errors.
/// `Other` carries the runtime's numeric code for an error that a read
/// of the runtime's state reported and that this list does not name.
#[derive(Clone, Copy, Debug, PartialEq, Eq, Structural)]
pub enum ProgramError {
    InvalidArgument,
    InvalidInstructionData,
    InvalidAccountData,
    NotEnoughAccountKeys,
    IncorrectProgramId,
    MissingRequiredSignature,
    UninitializedAccount,
    InvalidSeeds,
    ArithmeticOverflow,
    IncorrectAuthority,
    AccountBorrowFailed,
    Other(u64),
}

} // verus!
