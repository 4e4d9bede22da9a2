use pinocchio_amm::error::ProgramError;
use pinocchio_amm::math::{
    check_invariant, compute_deposit, compute_swap, compute_withdraw_share, isqrt, DepositPlan, SwapPlan,
    MINIMUM_LIQUIDITY,
};

#[test]
fn isqrt_rounds_down() {
    assert_eq!(isqrt(0), 0);
    assert_eq!(isqrt(1), 1);
    assert_eq!(isqrt(2), 1);
    assert_eq!(isqrt(3), 1);
    assert_eq!(isqrt(4), 2);
    assert_eq!(isqrt(15), 3);
    assert_eq!(isqrt(16), 4);
    assert_eq!(isqrt(17), 4);
    assert_eq!(isqrt(400_000_000), 20_000);
    assert_eq!(isqrt(u128::MAX), u64::MAX);
    let m = u64::MAX as u128;
    assert_eq!(isqrt(m * m), u64::MAX);
    assert_eq!(isqrt(m * m - 1), u64::MAX - 1);
    for n in 0u128..2000 {
        assert_eq!(isqrt(n) as u128, n.isqrt());
    }
}

#[test]
fn first_deposit_mints_square_root_less_minimum() {
    assert_eq!(MINIMUM_LIQUIDITY, 100);
    let plan = compute_deposit(10_000, 40_000, u64::MAX, u64::MAX, 0, 0, 0);
    assert_eq!(plan, Ok(DepositPlan { amount_a: 10_000, amount_b: 40_000, liquidity: 19_900 }));
}

#[test]
fn first_deposit_is_capped_by_balances() {
    let plan = compute_deposit(1_000_000, 1_000_000, 250_000, 40_000, 0, 0, 0);
    assert_eq!(plan, Ok(DepositPlan { amount_a: 250_000, amount_b: 40_000, liquidity: 100_000 - 100 }));
}

#[test]
fn first_deposit_below_minimum_is_refused() {
    assert_eq!(compute_deposit(50, 50, 1_000, 1_000, 0, 0, 0), Err(ProgramError::InvalidArgument));
    assert_eq!(compute_deposit(99, 101, 1_000, 1_000, 0, 0, 0), Err(ProgramError::InvalidArgument));
    assert_eq!(
        compute_deposit(100, 100, 1_000, 1_000, 0, 0, 0),
        Ok(DepositPlan { amount_a: 100, amount_b: 100, liquidity: 0 })
    );
}

#[test]
fn later_deposit_keeps_pool_ratio_and_mints_share() {
    // Pool 1000 A : 2000 B with 1314 LP tokens plus the locked 100.
    let plan = compute_deposit(100, 500, 10_000, 10_000, 1_000, 2_000, 1_314);
    // B is lowered to the ratio: 100 * 2000 / 1000 = 200.
    // Share: min(100 * 1414 / 1000, 200 * 1414 / 2000) = 141.
    assert_eq!(plan, Ok(DepositPlan { amount_a: 100, amount_b: 200, liquidity: 141 }));
}

#[test]
fn later_deposit_lowers_a_when_b_is_short() {
    // 100 A would need 200 B; only 50 B: A becomes 50 * 1000 / 2000 = 25.
    let plan = compute_deposit(100, 50, 10_000, 10_000, 1_000, 2_000, 1_314);
    // Share: min(25 * 1414 / 1000, 50 * 1414 / 2000) = min(35, 35) = 35.
    assert_eq!(plan, Ok(DepositPlan { amount_a: 25, amount_b: 50, liquidity: 35 }));
}

#[test]
fn later_deposit_share_accounts_for_fees() {
    // After swaps the reserves grew to 1100 A : 2200 B for the same 1414 liquidity.
    let plan = compute_deposit(110, 220, 10_000, 10_000, 1_100, 2_200, 1_314);
    assert_eq!(plan, Ok(DepositPlan { amount_a: 110, amount_b: 220, liquidity: 141 }));
}

#[test]
fn deposit_into_pool_with_empty_a_reserve_is_an_arithmetic_error() {
    assert_eq!(compute_deposit(10, 10, 100, 100, 0, 5, 0), Err(ProgramError::ArithmeticOverflow));
}

#[test]
fn deposit_into_pool_with_empty_b_reserve_mints_nothing() {
    // No B at the pool ratio, and nothing minted; the A amount is taken.
    assert_eq!(
        compute_deposit(10, 10, 100, 100, 5, 0, 0),
        Ok(DepositPlan { amount_a: 10, amount_b: 0, liquidity: 0 })
    );
    assert_eq!(
        compute_deposit(u64::MAX, 3, u64::MAX, u64::MAX, 1, 0, u64::MAX),
        Ok(DepositPlan { amount_a: u64::MAX, amount_b: 0, liquidity: 0 })
    );
}

#[test]
fn deposit_share_overflow_is_reported() {
    let plan = compute_deposit(u64::MAX, u64::MAX, u64::MAX, u64::MAX, 1, 1, u64::MAX);
    assert_eq!(plan, Err(ProgramError::ArithmeticOverflow));
}

#[test]
fn withdraw_pays_share_of_total_liquidity() {
    // 100 of 900 + 100 total liquidity, reserve 1000.
    assert_eq!(compute_withdraw_share(100, 1_000, 900), 100);
    assert_eq!(compute_withdraw_share(0, 1_000, 900), 0);
    assert_eq!(compute_withdraw_share(900, 1_000, 900), 900);
    assert_eq!(compute_withdraw_share(333, 1_000, 900), 333);
    assert_eq!(compute_withdraw_share(1, 999, 900), 0);
}

#[test]
fn withdraw_share_keeps_low_bits() {
    let q = (u64::MAX as u128) * (u64::MAX as u128) / 100;
    assert_eq!(compute_withdraw_share(u64::MAX, u64::MAX, 0), q as u64);
}

#[test]
fn swap_takes_fee_and_prices_rest() {
    let plan = compute_swap(true, 1_000, 0, 5_000, 0, 10_000, 10_000, 30);
    // fee 3, priced input 997, output 997 * 10000 / 10997 = 906.
    assert_eq!(plan, Ok(SwapPlan { input: 1_000, output: 906, reserve_product: 100_000_000 }));
    let plan = compute_swap(false, 1_000, 0, 0, 5_000, 20_000, 10_000, 0);
    // no fee: 1000 * 20000 / 11000 = 1818.
    assert_eq!(plan, Ok(SwapPlan { input: 1_000, output: 1_818, reserve_product: 200_000_000 }));
}

#[test]
fn swap_input_is_capped_by_balance() {
    let plan = compute_swap(true, 1_000_000, 0, 1_000, 0, 10_000, 10_000, 30);
    assert_eq!(plan, Ok(SwapPlan { input: 1_000, output: 906, reserve_product: 100_000_000 }));
}

#[test]
fn swap_below_minimum_output_is_refused() {
    assert_eq!(compute_swap(true, 1_000, 907, 5_000, 0, 10_000, 10_000, 30), Err(ProgramError::InvalidArgument));
    assert!(compute_swap(true, 1_000, 906, 5_000, 0, 10_000, 10_000, 30).is_ok());
}

#[test]
fn swap_against_empty_reserve_is_an_arithmetic_error() {
    assert_eq!(compute_swap(true, 0, 0, 5_000, 0, 0, 10_000, 30), Err(ProgramError::ArithmeticOverflow));
    // Input eaten by a full fee against an empty reserve.
    assert_eq!(compute_swap(true, 1, 0, 5_000, 0, 0, 10_000, 10_000), Err(ProgramError::ArithmeticOverflow));
}

#[test]
fn swap_full_fee_pays_nothing() {
    assert_eq!(
        compute_swap(true, 1_000, 0, 5_000, 0, 10_000, 10_000, 10_000),
        Ok(SwapPlan { input: 1_000, output: 0, reserve_product: 100_000_000 })
    );
}

#[test]
fn swap_keeps_reserve_product() {
    for (pool_a, pool_b, input, fee) in [
        (10_000u64, 10_000u64, 1_000u64, 30u16),
        (1, 1_000_000, 999, 0),
        (7, 13, 100, 9_999),
        (u64::MAX / 2, 3, u64::MAX / 2, 25),
    ] {
        let plan = compute_swap(true, input, 0, u64::MAX, 0, pool_a, pool_b, fee).unwrap();
        assert!(plan.output <= pool_b);
        let before = pool_a as u128 * pool_b as u128;
        let after = (pool_a as u128 + plan.input as u128) * (pool_b - plan.output) as u128;
        assert!(after >= before);
    }
}

#[test]
fn reserve_check_after_swap() {
    assert_eq!(check_invariant(100, 10, 10), Ok(()));
    assert_eq!(check_invariant(100, 11, 10), Ok(()));
    assert_eq!(check_invariant(100, 9, 11), Err(ProgramError::InvalidAccountData));
    let plan = compute_swap(true, 1_000, 0, 5_000, 0, 10_000, 10_000, 30).unwrap();
    assert_eq!(check_invariant(plan.reserve_product, 10_000 + plan.input, 10_000 - plan.output), Ok(()));
    assert_eq!(
        check_invariant(plan.reserve_product, 10_000 + plan.input, 10_000 - plan.output - 200),
        Err(ProgramError::InvalidAccountData)
    );
}

#[test]
fn deposit_then_withdraw_returns_no_more() {
    let (pool_a, pool_b, supply) = (1_100u64, 2_200u64, 1_314u64);
    let plan = compute_deposit(333, 700, 10_000, 10_000, pool_a, pool_b, supply).unwrap();
    let back_a = compute_withdraw_share(plan.liquidity, pool_a + plan.amount_a, supply + plan.liquidity);
    let back_b = compute_withdraw_share(plan.liquidity, pool_b + plan.amount_b, supply + plan.liquidity);
    assert!(back_a <= plan.amount_a);
    assert!(back_b <= plan.amount_b);
}

#[test]
fn later_deposit_does_not_dilute() {
    for (req_a, req_b, pool_a, pool_b, supply) in [
        (333u64, 700u64, 1_100u64, 2_200u64, 1_314u64),
        (5, 1_000_000, 17, 999, 3),
        (1_000_000, 7, 12_345, 678, 9_000),
    ] {
        let plan = compute_deposit(req_a, req_b, u64::MAX, u64::MAX, pool_a, pool_b, supply).unwrap();
        let total = (supply + MINIMUM_LIQUIDITY) as u128;
        assert!(plan.liquidity as u128 * pool_a as u128 <= plan.amount_a as u128 * total);
        assert!(plan.liquidity as u128 * pool_b as u128 <= plan.amount_b as u128 * total);
        assert!(plan.amount_a <= req_a && plan.amount_b <= req_b);
    }
}

#[test]
fn mirrored_swaps_agree() {
    for (input, min_out, ta, tb, pa, pb, fee) in [
        (1_000u64, 0u64, 5_000u64, 7u64, 10_000u64, 20_000u64, 30u16),
        (1_000, 2_000, 5_000, 7, 10_000, 20_000, 30),
        (0, 0, 1, 1, 0, 9, 0),
    ] {
        assert_eq!(
            compute_swap(true, input, min_out, ta, tb, pa, pb, fee),
            compute_swap(false, input, min_out, tb, ta, pb, pa, fee)
        );
    }
}

#[test]
fn more_input_never_less_output() {
    let mut last = 0u64;
    for input in [1u64, 2, 3, 10, 333, 334, 1_000, 4_999, 5_000, 6_000] {
        let plan = compute_swap(true, input, 0, 5_000, 0, 10_000, 20_000, 9_999).unwrap();
        assert!(plan.output >= last);
        last = plan.output;
    }
}
