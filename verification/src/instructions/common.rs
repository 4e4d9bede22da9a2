//! Checks shared by the pool instructions.
use vstd::prelude::*;
use crate::address::Address;
use crate::error::ProgramError;
use crate::pda::{associated_token_address, derive_associated_token_address};

verus! {

/// The check that two accounts are the pool's token accounts for its two
/// mints: the associated token accounts of the pool configuration.
pub open spec fn pool_token_accounts_check(
    pool_config: Seq<u8>,
    mint_a: Seq<u8>,
    mint_b: Seq<u8>,
    pool_ata_a: Seq<u8>,
    pool_ata_b: Seq<u8>,
) -> Result<(), ProgramError> {
    match associated_token_address(pool_config, mint_a) {
        None => Err(ProgramError::InvalidSeeds),
        Some(expected_a) => match associated_token_address(pool_config, mint_b) {
            None => Err(ProgramError::InvalidSeeds),
            Some(expected_b) => if pool_ata_a != expected_a || pool_ata_b != expected_b {
                Err(ProgramError::InvalidSeeds)
            } else {
                Ok(())
            },
        },
    }
}

/// The check of the pool's token accounts against the derived ones, when
/// deriving gave `expected_a` and `expected_b`.
pub open spec fn token_accounts_match(
    expected_a: Option<Seq<u8>>,
    expected_b: Option<Seq<u8>>,
    pool_ata_a: Seq<u8>,
    pool_ata_b: Seq<u8>,
) -> Result<(), ProgramError> {
    match (expected_a, expected_b) {
        (None, _) => Err(ProgramError::InvalidSeeds),
        (_, None) => Err(ProgramError::InvalidSeeds),
        (Some(a), Some(b)) => if pool_ata_a != a || pool_ata_b != b {
            Err(ProgramError::InvalidSeeds)
        } else {
            Ok(())
        },
    }
}

/// The view of a derived address that may be missing.
pub open spec fn opt_view(a: Option<Address>) -> Option<Seq<u8>> {
    match a {
        Some(x) => Some(x@),
        None => None,
    }
}

/// Compares the pool's token accounts with the derived ones.
pub fn match_token_accounts(
    expected_a: Option<Address>,
    expected_b: Option<Address>,
    pool_ata_a: &Address,
    pool_ata_b: &Address,
) -> (r: Result<(), ProgramError>)
    ensures
        r == token_accounts_match(opt_view(expected_a), opt_view(expected_b), pool_ata_a@, pool_ata_b@),
{
    let a = match expected_a {
        Some(a) => a,
        None => {
            return Err(ProgramError::InvalidSeeds);
        },
    };
    let b = match expected_b {
        Some(b) => b,
        None => {
            return Err(ProgramError::InvalidSeeds);
        },
    };
    if !pool_ata_a.equals(&a) || !pool_ata_b.equals(&b) {
        return Err(ProgramError::InvalidSeeds);
    }
    Ok(())
}

/// Checks that two accounts are the pool's token accounts: see
/// `pool_token_accounts_check`.
pub fn check_pool_token_accounts(
    pool_config: &Address,
    mint_a: &Address,
    mint_b: &Address,
    pool_ata_a: &Address,
    pool_ata_b: &Address,
) -> (r: Result<(), ProgramError>)
    ensures
        r == pool_token_accounts_check(pool_config@, mint_a@, mint_b@, pool_ata_a@, pool_ata_b@),
{
    let expected_a = derive_associated_token_address(pool_config, mint_a);
    if expected_a.is_none() {
        return Err(ProgramError::InvalidSeeds);
    }
    let expected_b = derive_associated_token_address(pool_config, mint_b);
    match_token_accounts(expected_a, expected_b, pool_ata_a, pool_ata_b)
}

} // verus!
