//! The pool arithmetic: integer square root, deposit, withdrawal and
//! swap amounts.
use vstd::prelude::*;
use vstd::arithmetic::div_mod::{lemma_div_is_ordered, lemma_fundamental_div_mod, lemma_mod_pos_bound};
use crate::error::ProgramError;

verus! {

/// `r` is the square root of `n`, rounded down.
pub open spec fn is_floor_sqrt(n: int, r: int) -> bool {
    0 <= r && r * r <= n && n < (r + 1) * (r + 1)
}

/// The square root of `n`, rounded down.
pub open spec fn floor_sqrt(n: int) -> int {
    choose|r: int| is_floor_sqrt(n, r)
}

/// The rounded-down square root of a number is unique.
pub proof fn lemma_floor_sqrt_unique(n: int, r1: int, r2: int)
    requires
        is_floor_sqrt(n, r1),
        is_floor_sqrt(n, r2),
    ensures
        r1 == r2,
{
    if r1 < r2 {
        assert((r1 + 1) * (r1 + 1) <= r2 * r2) by (nonlinear_arith)
            requires
                0 <= r1 < r2,
        ;
    } else if r2 < r1 {
        assert((r2 + 1) * (r2 + 1) <= r1 * r1) by (nonlinear_arith)
            requires
                0 <= r2 < r1,
        ;
    }
}

/// A number that has a rounded-down square root `r` has `floor_sqrt` equal to `r`.
pub proof fn lemma_floor_sqrt_is(n: int, r: int)
    requires
        is_floor_sqrt(n, r),
    ensures
        floor_sqrt(n) == r,
{
    let c = floor_sqrt(n);
    assert(is_floor_sqrt(n, c));
    lemma_floor_sqrt_unique(n, r, c);
}

/// Square roots found by counting up: a witness that every natural number
/// has a rounded-down square root.
spec fn sqrt_by_counting(n: int) -> int
    decreases n,
{
    if n <= 0 {
        0
    } else {
        let r = sqrt_by_counting(n - 1);
        if (r + 1) * (r + 1) <= n {
            r + 1
        } else {
            r
        }
    }
}

proof fn lemma_sqrt_by_counting(n: int)
    requires
        0 <= n,
    ensures
        is_floor_sqrt(n, sqrt_by_counting(n)),
    decreases n,
{
    if n > 0 {
        lemma_sqrt_by_counting(n - 1);
        let r = sqrt_by_counting(n - 1);
        if (r + 1) * (r + 1) <= n {
            assert(n < (r + 2) * (r + 2)) by (nonlinear_arith)
                requires
                    n - 1 < (r + 1) * (r + 1),
                    0 <= r,
            ;
        }
    }
}

/// Every natural number below 2^128 has a rounded-down square root, and
/// it is below 2^64.
pub proof fn lemma_floor_sqrt_exists(n: int)
    requires
        0 <= n < u128_limit(),
    ensures
        is_floor_sqrt(n, floor_sqrt(n)),
        floor_sqrt(n) < u64_limit(),
{
    lemma_sqrt_by_counting(n);
    lemma_floor_sqrt_is(n, sqrt_by_counting(n));
    let r = floor_sqrt(n);
    if r >= u64_limit() {
        assert(r * r >= u128_limit()) by (nonlinear_arith)
            requires
                r >= 0x1_0000_0000_0000_0000int,
        ;
    }
}

/// The square root of a 128-bit number, rounded down, by bisection.
pub fn isqrt(n: u128) -> (r: u64)
    ensures
        is_floor_sqrt(n as int, r as int),
        r == floor_sqrt(n as int),
{
    let mut lo: u128 = 0;
    let mut hi: u128 = 0x1_0000_0000_0000_0000;
    assert(n < hi * hi) by (nonlinear_arith)
        requires
            hi == 0x1_0000_0000_0000_0000u128,
            n <= 0xffff_ffff_ffff_ffff_ffff_ffff_ffff_ffffu128,
    ;
    while hi - lo > 1
        invariant
            lo < hi <= 0x1_0000_0000_0000_0000u128,
            lo * lo <= n,
            n < hi * hi,
        decreases hi - lo,
    {
        let mid = lo + (hi - lo) / 2;
        assert(mid * mid <= 0xffff_ffff_ffff_fffe_0000_0000_0000_0001u128) by (nonlinear_arith)
            requires
                mid < 0x1_0000_0000_0000_0000u128,
        ;
        if mid * mid <= n {
            lo = mid;
        } else {
            hi = mid;
        }
    }
    proof {
        assert(hi == lo + 1);
        lemma_floor_sqrt_is(n as int, lo as int);
    }
    lo as u64
}

/// LP tokens locked for good by the first deposit of a pool; they stay
/// counted in the pool's total liquidity.
pub const MINIMUM_LIQUIDITY: u64 = 100;

/// The number of values of a 128-bit integer.
pub open spec fn u128_limit() -> int {
    0x1_0000_0000_0000_0000_0000_0000_0000_0000int
}

/// The number of values of a 64-bit integer.
pub open spec fn u64_limit() -> int {
    0x1_0000_0000_0000_0000int
}

pub open spec fn min_of(a: int, b: int) -> int {
    if a <= b {
        a
    } else {
        b
    }
}

/// Division facts for a positive divisor: the quotient times the divisor
/// is at most the dividend, and less than one divisor below it.
pub proof fn lemma_div_bounds(x: int, d: int)
    requires
        0 <= x,
        0 < d,
    ensures
        (x / d) * d <= x,
        x < (x / d + 1) * d,
        0 <= x / d,
{
    lemma_fundamental_div_mod(x, d);
    lemma_mod_pos_bound(x, d);
    assert((x / d) * d == d * (x / d)) by (nonlinear_arith);
    assert((x / d + 1) * d == d * (x / d) + d) by (nonlinear_arith);
    assert(0 <= x / d) by (nonlinear_arith)
        requires
            x == d * (x / d) + x % d,
            0 <= x % d < d,
            0 <= x,
            0 < d,
    ;
}

/// A product divided by a number at least as large as one factor is at
/// most the other factor: `x * y / z <= x` when `y <= z`.
pub proof fn lemma_mul_div_le(x: int, y: int, z: int)
    requires
        0 <= x,
        0 <= y <= z,
        0 < z,
    ensures
        x * y / z <= x,
        0 <= x * y / z,
{
    assert(0 <= x * y) by (nonlinear_arith)
        requires
            0 <= x,
            0 <= y,
    ;
    lemma_div_bounds(x * y, z);
    assert(x * y <= x * z) by (nonlinear_arith)
        requires
            0 <= x,
            y <= z,
    ;
    let q = x * y / z;
    assert(q <= x) by (nonlinear_arith)
        requires
            q * z <= x * z,
            0 < z,
    ;
}

/// The deposited amounts of tokens A and B: the requested amounts, capped
/// by the depositor's balances, then brought to the pool's ratio by
/// lowering one of them (rounding down). An empty pool takes both as
/// they are.
pub open spec fn deposit_amounts(a0: int, b0: int, pool_a: int, pool_b: int) -> Result<(int, int), ProgramError> {
    if pool_a == 0 && pool_b == 0 {
        Ok((a0, b0))
    } else if pool_a == 0 {
        Err(ProgramError::ArithmeticOverflow)
    } else if a0 * pool_b / pool_a <= b0 {
        Ok((a0, a0 * pool_b / pool_a))
    } else if pool_b == 0 {
        Err(ProgramError::ArithmeticOverflow)
    } else {
        Ok((b0 * pool_a / pool_b, b0))
    }
}

/// The LP tokens minted for a deposit of `a` and `b`. The first deposit
/// of a pool mints the square root of their product, less the locked
/// minimum; a later one mints its share of the total liquidity (the LP
/// supply plus the locked minimum): the smaller of its shares of the two
/// reserves. Into a pool whose B reserve is empty (A is not), the deposit
/// brings no B at the pool ratio and mints nothing, as the square root of
/// the two amounts' product is then zero.
pub open spec fn deposit_liquidity(a: int, b: int, pool_a: int, pool_b: int, supply: int) -> Result<int, ProgramError> {
    if pool_a == 0 && pool_b == 0 {
        let l = floor_sqrt(a * b);
        if l < MINIMUM_LIQUIDITY {
            Err(ProgramError::InvalidArgument)
        } else {
            Ok(l - MINIMUM_LIQUIDITY)
        }
    } else if pool_b == 0 {
        Ok(0)
    } else {
        let total = supply + MINIMUM_LIQUIDITY;
        if a * total >= u128_limit() || b * total >= u128_limit() || pool_a == 0 {
            Err(ProgramError::ArithmeticOverflow)
        } else {
            let l = min_of(a * total / pool_a, b * total / pool_b);
            if l >= u64_limit() {
                Err(ProgramError::ArithmeticOverflow)
            } else {
                Ok(l)
            }
        }
    }
}

/// Amounts moved by a deposit, and the LP tokens it mints.
#[derive(Clone, Copy, Debug, PartialEq, Eq, Structural)]
pub struct DepositPlan {
    pub amount_a: u64,
    pub amount_b: u64,
    pub liquidity: u64,
}

/// What a deposit of the requested amounts gives, for the depositor's
/// balances, the pool's reserves and the LP supply.
pub open spec fn deposit_result(
    req_a: u64,
    req_b: u64,
    balance_a: u64,
    balance_b: u64,
    pool_a: u64,
    pool_b: u64,
    supply: u64,
) -> Result<DepositPlan, ProgramError> {
    let a0 = min_of(req_a as int, balance_a as int);
    let b0 = min_of(req_b as int, balance_b as int);
    match deposit_amounts(a0, b0, pool_a as int, pool_b as int) {
        Err(e) => Err(e),
        Ok((a, b)) => match deposit_liquidity(a, b, pool_a as int, pool_b as int, supply as int) {
            Err(e) => Err(e),
            Ok(l) => Ok(DepositPlan { amount_a: a as u64, amount_b: b as u64, liquidity: l as u64 }),
        },
    }
}

/// Computes a deposit: see `deposit_result`.
pub fn compute_deposit(
    req_a: u64,
    req_b: u64,
    balance_a: u64,
    balance_b: u64,
    pool_a: u64,
    pool_b: u64,
    supply: u64,
) -> (r: Result<DepositPlan, ProgramError>)
    ensures
        r == deposit_result(req_a, req_b, balance_a, balance_b, pool_a, pool_b, supply),
{
    let mut amount_a = if req_a < balance_a { req_a } else { balance_a };
    let mut amount_b = if req_b < balance_b { req_b } else { balance_b };
    let ghost a0 = amount_a as int;
    let ghost b0 = amount_b as int;
    let pool_creation = pool_a == 0 && pool_b == 0;
    if !pool_creation {
        if pool_a == 0 {
            return Err(ProgramError::ArithmeticOverflow);
        }
        assert((amount_a as u128) * (pool_b as u128) < u128_limit()) by (nonlinear_arith)
            requires
                amount_a < u64_limit(),
                pool_b < u64_limit(),
        ;
        let amount_b_required = (amount_a as u128) * (pool_b as u128) / (pool_a as u128);
        if amount_b_required <= amount_b as u128 {
            amount_b = amount_b_required as u64;
        } else {
            if pool_b == 0 {
                return Err(ProgramError::ArithmeticOverflow);
            }
            proof {
                lemma_branch_other_side(a0, b0, pool_a as int, pool_b as int);
            }
            assert((amount_b as u128) * (pool_a as u128) < u128_limit()) by (nonlinear_arith)
                requires
                    amount_b < u64_limit(),
                    pool_a < u64_limit(),
            ;
            amount_a = ((amount_b as u128) * (pool_a as u128) / (pool_b as u128)) as u64;
        }
    }
    let ghost amounts = deposit_amounts(a0, b0, pool_a as int, pool_b as int);
    assert(amounts == Ok::<(int, int), ProgramError>((amount_a as int, amount_b as int)));
    assert((amount_a as u128) * (amount_b as u128) < u128_limit()) by (nonlinear_arith)
        requires
            amount_a < u64_limit(),
            amount_b < u64_limit(),
    ;
    if pool_creation {
        let liquidity = isqrt((amount_a as u128) * (amount_b as u128));
        if liquidity < MINIMUM_LIQUIDITY {
            return Err(ProgramError::InvalidArgument);
        }
        return Ok(DepositPlan { amount_a, amount_b, liquidity: liquidity - MINIMUM_LIQUIDITY });
    }
    if pool_b == 0 {
        return Ok(DepositPlan { amount_a, amount_b, liquidity: 0 });
    }
    let total = supply as u128 + MINIMUM_LIQUIDITY as u128;
    let share_a = match (amount_a as u128).checked_mul(total) {
        Some(x) => x / (pool_a as u128),
        None => {
            return Err(ProgramError::ArithmeticOverflow);
        },
    };
    let share_b = match (amount_b as u128).checked_mul(total) {
        Some(x) => match x.checked_div(pool_b as u128) {
            Some(q) => q,
            None => {
                return Err(ProgramError::ArithmeticOverflow);
            },
        },
        None => {
            return Err(ProgramError::ArithmeticOverflow);
        },
    };
    let liquidity = if share_a <= share_b { share_a } else { share_b };
    if liquidity > 0xffff_ffff_ffff_ffffu128 {
        return Err(ProgramError::ArithmeticOverflow);
    }
    Ok(DepositPlan { amount_a, amount_b, liquidity: liquidity as u64 })
}

/// When the amount of B that matches `a0` at the pool ratio exceeds `b0`,
/// the amount of A that matches `b0` is below `a0`.
proof fn lemma_branch_other_side(a0: int, b0: int, pool_a: int, pool_b: int)
    requires
        0 <= a0,
        0 <= b0,
        0 < pool_a,
        0 < pool_b,
        a0 * pool_b / pool_a > b0,
    ensures
        b0 * pool_a / pool_b < a0,
        0 <= b0 * pool_a / pool_b,
{
    assert(0 <= a0 * pool_b) by (nonlinear_arith)
        requires
            0 <= a0,
            0 < pool_b,
    ;
    assert(0 <= b0 * pool_a) by (nonlinear_arith)
        requires
            0 <= b0,
            0 < pool_a,
    ;
    lemma_div_bounds(a0 * pool_b, pool_a);
    let q = a0 * pool_b / pool_a;
    assert(b0 * pool_a < a0 * pool_b) by (nonlinear_arith)
        requires
            q * pool_a <= a0 * pool_b,
            q >= b0 + 1,
            0 < pool_a,
    ;
    lemma_div_bounds(b0 * pool_a, pool_b);
    let p = b0 * pool_a / pool_b;
    assert(p < a0) by (nonlinear_arith)
        requires
            p * pool_b <= b0 * pool_a,
            b0 * pool_a < a0 * pool_b,
            0 < pool_b,
    ;
}

/// The amount of one token that burning `amount` LP tokens pays out: the
/// burnt share of the reserve, out of the total liquidity (the LP supply
/// plus the locked minimum), rounded down and kept to its low 64 bits.
pub open spec fn withdraw_share(amount: int, reserve: int, supply: int) -> int {
    (amount * reserve / (supply + MINIMUM_LIQUIDITY)) % u64_limit()
}

/// Amounts of tokens A and B that a withdrawal pays out.
#[derive(Clone, Copy, Debug, PartialEq, Eq, Structural)]
pub struct WithdrawPlan {
    pub amount_a: u64,
    pub amount_b: u64,
}

/// Computes the payout of one token for burning `amount` LP tokens: see
/// `withdraw_share`.
pub fn compute_withdraw_share(amount: u64, reserve: u64, supply: u64) -> (r: u64)
    ensures
        r == withdraw_share(amount as int, reserve as int, supply as int),
{
    let total = supply as u128 + MINIMUM_LIQUIDITY as u128;
    assert((amount as u128) * (reserve as u128) < u128_limit()) by (nonlinear_arith)
        requires
            amount < u64_limit(),
            reserve < u64_limit(),
    ;
    let q = (amount as u128) * (reserve as u128) / total;
    let r = q as u64;
    assert(r as u128 == q % 0x1_0000_0000_0000_0000u128) by (bit_vector)
        requires
            r == q as u64,
    ;
    r
}

/// The swap fee taken from an input, in basis points, rounded down.
pub open spec fn fee_amount(input: int, fee: int) -> int {
    input * fee / 10_000
}

/// Output of a constant-product swap: the input after the fee, priced
/// against the reserves, rounded down.
pub open spec fn swap_output(taxed_input: int, reserve_in: int, reserve_out: int) -> int {
    taxed_input * reserve_out / (reserve_in + taxed_input)
}

/// Amounts of a swap: what the trader pays in, what the pool pays out,
/// and the product of the reserves before the swap.
#[derive(Clone, Copy, Debug, PartialEq, Eq, Structural)]
pub struct SwapPlan {
    pub input: u64,
    pub output: u64,
    pub reserve_product: u128,
}

/// What a swap gives. The input is the requested amount capped by the
/// trader's balance of the token paid in (A when `swap_a`). The fee stays
/// in the pool: all of the input is paid in, the output is priced on the
/// input less the fee. A zero denominator is an arithmetic error, an output
/// below the minimum is refused.
pub open spec fn swap_result(
    swap_a: bool,
    input_amount: u64,
    min_output_amount: u64,
    trader_a: u64,
    trader_b: u64,
    pool_a: u64,
    pool_b: u64,
    fee: u16,
) -> Result<SwapPlan, ProgramError> {
    let input = if swap_a {
        min_of(input_amount as int, trader_a as int)
    } else {
        min_of(input_amount as int, trader_b as int)
    };
    let taxed = input - fee_amount(input, fee as int);
    let reserve_in = if swap_a { pool_a as int } else { pool_b as int };
    let reserve_out = if swap_a { pool_b as int } else { pool_a as int };
    if reserve_in + taxed == 0 {
        Err(ProgramError::ArithmeticOverflow)
    } else if swap_output(taxed, reserve_in, reserve_out) < min_output_amount {
        Err(ProgramError::InvalidArgument)
    } else {
        Ok(SwapPlan {
            input: input as u64,
            output: swap_output(taxed, reserve_in, reserve_out) as u64,
            reserve_product: (pool_a * pool_b) as u128,
        })
    }
}

/// Computes a swap: see `swap_result`. A fee above 10 000 basis points
/// would take more than the input.
pub fn compute_swap(
    swap_a: bool,
    input_amount: u64,
    min_output_amount: u64,
    trader_a: u64,
    trader_b: u64,
    pool_a: u64,
    pool_b: u64,
    fee: u16,
) -> (r: Result<SwapPlan, ProgramError>)
    requires
        fee <= 10_000,
    ensures
        r == swap_result(swap_a, input_amount, min_output_amount, trader_a, trader_b, pool_a, pool_b, fee),
{
    let input = if swap_a {
        if input_amount < trader_a { input_amount } else { trader_a }
    } else {
        if input_amount < trader_b { input_amount } else { trader_b }
    };
    assert((input as u128) * (fee as u128) < u128_limit()) by (nonlinear_arith)
        requires
            input < u64_limit(),
            fee <= 10_000,
    ;
    proof {
        lemma_mul_div_le(input as int, fee as int, 10_000);
    }
    let fee_amount = ((input as u128) * (fee as u128) / 10_000) as u64;
    let taxed_input = input - fee_amount;
    let (reserve_in, reserve_out) = if swap_a { (pool_a, pool_b) } else { (pool_b, pool_a) };
    let denominator = reserve_in as u128 + taxed_input as u128;
    if denominator == 0 {
        return Err(ProgramError::ArithmeticOverflow);
    }
    assert((taxed_input as u128) * (reserve_out as u128) < u128_limit()) by (nonlinear_arith)
        requires
            taxed_input < u64_limit(),
            reserve_out < u64_limit(),
    ;
    proof {
        assert(0 <= reserve_in);
        lemma_mul_div_le(reserve_out as int, taxed_input as int, denominator as int);
        assert(reserve_out as int * taxed_input as int == taxed_input as int * reserve_out as int) by (nonlinear_arith);
    }
    let output = ((taxed_input as u128) * (reserve_out as u128) / denominator) as u64;
    if output < min_output_amount {
        return Err(ProgramError::InvalidArgument);
    }
    assert((pool_a as u128) * (pool_b as u128) < u128_limit()) by (nonlinear_arith)
        requires
            pool_a < u64_limit(),
            pool_b < u64_limit(),
    ;
    let reserve_product = (pool_a as u128) * (pool_b as u128);
    Ok(SwapPlan { input, output, reserve_product })
}

/// The check made after a swap's transfers: the product of the new
/// reserves must not be below the product before the swap.
pub open spec fn invariant_holds(product_before: u128, new_pool_a: u64, new_pool_b: u64) -> bool {
    product_before <= new_pool_a * new_pool_b
}

/// Checks the reserves after a swap against the product before it.
pub fn check_invariant(product_before: u128, new_pool_a: u64, new_pool_b: u64) -> (r: Result<(), ProgramError>)
    ensures
        r == (if invariant_holds(product_before, new_pool_a, new_pool_b) {
            Ok(())
        } else {
            Err(ProgramError::InvalidAccountData)
        }),
{
    assert((new_pool_a as u128) * (new_pool_b as u128) < u128_limit()) by (nonlinear_arith)
        requires
            new_pool_a < u64_limit(),
            new_pool_b < u64_limit(),
    ;
    let new_product = (new_pool_a as u128) * (new_pool_b as u128);
    if product_before > new_product {
        return Err(ProgramError::InvalidAccountData);
    }
    Ok(())
}

/// A swap never pays out more than the reserve of the token paid out, and
/// the product of the reserves after the trader's full input comes in and
/// the output goes out is at least the product before: the fee stays in
/// the pool and the rounding favours it.
pub proof fn lemma_swap_keeps_product(
    swap_a: bool,
    input_amount: u64,
    min_output_amount: u64,
    trader_a: u64,
    trader_b: u64,
    pool_a: u64,
    pool_b: u64,
    fee: u16,
)
    requires
        fee <= 10_000,
        swap_result(swap_a, input_amount, min_output_amount, trader_a, trader_b, pool_a, pool_b, fee) is Ok,
    ensures
        ({
            let plan = swap_result(swap_a, input_amount, min_output_amount, trader_a, trader_b, pool_a, pool_b, fee)->Ok_0;
            &&& plan.reserve_product == pool_a * pool_b
            &&& swap_a ==> plan.output <= pool_b && (pool_a + plan.input) * (pool_b - plan.output) >= pool_a * pool_b
            &&& !swap_a ==> plan.output <= pool_a && (pool_b + plan.input) * (pool_a - plan.output) >= pool_a * pool_b
        }),
{
    let input = if swap_a {
        min_of(input_amount as int, trader_a as int)
    } else {
        min_of(input_amount as int, trader_b as int)
    };
    let f = fee_amount(input, fee as int);
    lemma_mul_div_le(input, fee as int, 10_000);
    let taxed = input - f;
    let rin = if swap_a { pool_a as int } else { pool_b as int };
    let rout = if swap_a { pool_b as int } else { pool_a as int };
    let d = rin + taxed;
    assert(0 <= taxed * rout) by (nonlinear_arith)
        requires
            0 <= taxed,
            0 <= rout,
    ;
    lemma_div_bounds(taxed * rout, d);
    lemma_mul_div_le(rout, taxed, d);
    assert(rout * taxed == taxed * rout) by (nonlinear_arith);
    let out = swap_output(taxed, rin, rout);
    assert(out < u64_limit());
    assert((input + rin) * (rout - out) >= rin * rout) by (nonlinear_arith)
        requires
            out * d <= taxed * rout,
            d == rin + taxed,
            0 <= taxed <= input,
            0 <= out <= rout,
            0 <= rin,
    ;
    assert((pool_a as u128) * (pool_b as u128) < u128_limit()) by (nonlinear_arith)
        requires
            pool_a < u64_limit(),
            pool_b < u64_limit(),
    ;
    assert(0 <= pool_a * pool_b) by (nonlinear_arith)
        requires
            0 <= pool_a,
            0 <= pool_b,
    ;
    assert(pool_b * pool_a == pool_a * pool_b) by (nonlinear_arith);
}

/// The check after a swap passes when the reserves moved by exactly the
/// planned amounts.
pub proof fn lemma_swap_passes_check(
    swap_a: bool,
    input_amount: u64,
    min_output_amount: u64,
    trader_a: u64,
    trader_b: u64,
    pool_a: u64,
    pool_b: u64,
    fee: u16,
    new_pool_a: u64,
    new_pool_b: u64,
)
    requires
        fee <= 10_000,
        swap_result(swap_a, input_amount, min_output_amount, trader_a, trader_b, pool_a, pool_b, fee) is Ok,
        ({
            let plan = swap_result(swap_a, input_amount, min_output_amount, trader_a, trader_b, pool_a, pool_b, fee)->Ok_0;
            if swap_a {
                new_pool_a == pool_a + plan.input && new_pool_b == pool_b - plan.output
            } else {
                new_pool_b == pool_b + plan.input && new_pool_a == pool_a - plan.output
            }
        }),
    ensures
        invariant_holds(
            swap_result(swap_a, input_amount, min_output_amount, trader_a, trader_b, pool_a, pool_b, fee)->Ok_0.reserve_product,
            new_pool_a,
            new_pool_b,
        ),
{
    lemma_swap_keeps_product(swap_a, input_amount, min_output_amount, trader_a, trader_b, pool_a, pool_b, fee);
    if !swap_a {
        assert(new_pool_a * new_pool_b == new_pool_b * new_pool_a) by (nonlinear_arith);
    }
}

/// Swapping in one direction is swapping in the other with the two tokens'
/// roles exchanged: the same result, error or plan.
pub proof fn lemma_swap_mirrored(
    swap_a: bool,
    input_amount: u64,
    min_output_amount: u64,
    trader_a: u64,
    trader_b: u64,
    pool_a: u64,
    pool_b: u64,
    fee: u16,
)
    ensures
        swap_result(swap_a, input_amount, min_output_amount, trader_a, trader_b, pool_a, pool_b, fee)
            == swap_result(!swap_a, input_amount, min_output_amount, trader_b, trader_a, pool_b, pool_a, fee),
{
    assert(pool_a * pool_b == pool_b * pool_a) by (nonlinear_arith);
}

/// The part of the input that is priced grows with the input, for a fee
/// of at most 10 000 basis points.
pub proof fn lemma_taxed_input_monotone(i1: int, i2: int, fee: int)
    requires
        0 <= i1 <= i2,
        0 <= fee <= 10_000,
    ensures
        i1 - fee_amount(i1, fee) <= i2 - fee_amount(i2, fee),
{
    let f1 = fee_amount(i1, fee);
    let f2 = fee_amount(i2, fee);
    assert(0 <= i1 * fee && 0 <= i2 * fee) by (nonlinear_arith)
        requires
            0 <= i1,
            0 <= i2,
            0 <= fee,
    ;
    lemma_div_bounds(i1 * fee, 10_000);
    lemma_div_bounds(i2 * fee, 10_000);
    // f2 * 10000 <= i2 * fee and i1 * fee < (f1 + 1) * 10000, so
    // (f2 - f1 - 1) * 10000 < (i2 - i1) * fee <= (i2 - i1) * 10000.
    assert((i2 - i1) * fee <= (i2 - i1) * 10_000) by (nonlinear_arith)
        requires
            0 <= i2 - i1,
            fee <= 10_000,
    ;
    assert(i2 * fee - i1 * fee == (i2 - i1) * fee) by (nonlinear_arith);
    assert(f2 - f1 <= i2 - i1) by (nonlinear_arith)
        requires
            f2 * 10_000 <= i2 * fee,
            i1 * fee < (f1 + 1) * 10_000,
            i2 * fee - i1 * fee == (i2 - i1) * fee,
            (i2 - i1) * fee <= (i2 - i1) * 10_000,
    ;
}

/// The output of the pricing grows with the priced input.
pub proof fn lemma_swap_output_monotone(t1: int, t2: int, reserve_in: int, reserve_out: int)
    requires
        0 <= t1 <= t2,
        0 <= reserve_in,
        0 <= reserve_out,
        0 < reserve_in + t1,
    ensures
        swap_output(t1, reserve_in, reserve_out) <= swap_output(t2, reserve_in, reserve_out),
{
    let d1 = reserve_in + t1;
    let d2 = reserve_in + t2;
    let x1 = t1 * reserve_out;
    let x2 = t2 * reserve_out;
    assert(0 <= x1 && 0 <= x2) by (nonlinear_arith)
        requires
            x1 == t1 * reserve_out,
            x2 == t2 * reserve_out,
            0 <= t1,
            0 <= t2,
            0 <= reserve_out,
    ;
    lemma_div_bounds(x1, d1);
    lemma_div_bounds(x2, d2);
    let q1 = x1 / d1;
    // x1 * d2 <= x2 * d1, since t1 * reserve_in <= t2 * reserve_in.
    assert(x1 * d2 <= x2 * d1) by (nonlinear_arith)
        requires
            x1 == t1 * reserve_out,
            x2 == t2 * reserve_out,
            d1 == reserve_in + t1,
            d2 == reserve_in + t2,
            0 <= t1 <= t2,
            0 <= reserve_in,
            0 <= reserve_out,
    ;
    assert(q1 * d2 <= x2) by (nonlinear_arith)
        requires
            q1 * d1 <= x1,
            x1 * d2 <= x2 * d1,
            0 < d1,
            0 < d2,
            0 <= q1,
    ;
    assert(q1 <= x2 / d2) by (nonlinear_arith)
        requires
            q1 * d2 <= x2,
            x2 < (x2 / d2 + 1) * d2,
            0 < d2,
    ;
}

/// Offering more input never yields less: when a swap succeeds, the same
/// swap with a larger requested input succeeds too, paying in at least as
/// much and paying out at least as much.
pub proof fn lemma_swap_monotone_in_input(
    swap_a: bool,
    input_1: u64,
    input_2: u64,
    min_output_amount: u64,
    trader_a: u64,
    trader_b: u64,
    pool_a: u64,
    pool_b: u64,
    fee: u16,
)
    requires
        fee <= 10_000,
        input_1 <= input_2,
        swap_result(swap_a, input_1, min_output_amount, trader_a, trader_b, pool_a, pool_b, fee) is Ok,
    ensures
        swap_result(swap_a, input_2, min_output_amount, trader_a, trader_b, pool_a, pool_b, fee) is Ok,
        swap_result(swap_a, input_1, min_output_amount, trader_a, trader_b, pool_a, pool_b, fee)->Ok_0.input
            <= swap_result(swap_a, input_2, min_output_amount, trader_a, trader_b, pool_a, pool_b, fee)->Ok_0.input,
        swap_result(swap_a, input_1, min_output_amount, trader_a, trader_b, pool_a, pool_b, fee)->Ok_0.output
            <= swap_result(swap_a, input_2, min_output_amount, trader_a, trader_b, pool_a, pool_b, fee)->Ok_0.output,
{
    let balance = if swap_a { trader_a as int } else { trader_b as int };
    let i1 = min_of(input_1 as int, balance);
    let i2 = min_of(input_2 as int, balance);
    lemma_taxed_input_monotone(i1, i2, fee as int);
    lemma_mul_div_le(i1, fee as int, 10_000);
    lemma_mul_div_le(i2, fee as int, 10_000);
    let t1 = i1 - fee_amount(i1, fee as int);
    let t2 = i2 - fee_amount(i2, fee as int);
    let rin = if swap_a { pool_a as int } else { pool_b as int };
    let rout = if swap_a { pool_b as int } else { pool_a as int };
    lemma_swap_output_monotone(t1, t2, rin, rout);
    assert(0 <= t2 * rout) by (nonlinear_arith)
        requires
            0 <= t2,
            0 <= rout,
    ;
    lemma_mul_div_le(rout, t2, rin + t2);
    assert(rout * t2 == t2 * rout) by (nonlinear_arith);
}

/// The fee never exceeds the input, so the input splits into the fee and
/// the part that is priced.
pub proof fn lemma_fee_within_input(input: u64, fee: u16)
    requires
        fee <= 10_000,
    ensures
        0 <= fee_amount(input as int, fee as int) <= input,
{
    lemma_mul_div_le(input as int, fee as int, 10_000);
}

/// A deposit takes no more of either token than requested and than the
/// depositor holds.
pub proof fn lemma_deposit_within_request(
    req_a: u64,
    req_b: u64,
    balance_a: u64,
    balance_b: u64,
    pool_a: u64,
    pool_b: u64,
    supply: u64,
)
    requires
        deposit_result(req_a, req_b, balance_a, balance_b, pool_a, pool_b, supply) is Ok,
    ensures
        ({
            let plan = deposit_result(req_a, req_b, balance_a, balance_b, pool_a, pool_b, supply)->Ok_0;
            &&& plan.amount_a <= req_a && plan.amount_a <= balance_a
            &&& plan.amount_b <= req_b && plan.amount_b <= balance_b
        }),
{
    let pa = pool_a as int;
    let pb = pool_b as int;
    let a0 = min_of(req_a as int, balance_a as int);
    let b0 = min_of(req_b as int, balance_b as int);
    if !(pa == 0 && pb == 0) && pa != 0 {
        if a0 * pb / pa <= b0 {
            assert(0 <= a0 * pb) by (nonlinear_arith)
                requires
                    0 <= a0,
                    0 <= pb,
            ;
            lemma_div_bounds(a0 * pb, pa);
        } else if pb != 0 {
            lemma_branch_other_side(a0, b0, pa, pb);
        }
    }
}

/// The first deposit of an empty pool takes the capped amounts as they
/// are, and mints the square root of their product less the locked
/// minimum.
pub proof fn lemma_first_deposit(
    req_a: u64,
    req_b: u64,
    balance_a: u64,
    balance_b: u64,
    supply: u64,
)
    requires
        deposit_result(req_a, req_b, balance_a, balance_b, 0, 0, supply) is Ok,
    ensures
        ({
            let plan = deposit_result(req_a, req_b, balance_a, balance_b, 0, 0, supply)->Ok_0;
            &&& plan.amount_a == min_of(req_a as int, balance_a as int)
            &&& plan.amount_b == min_of(req_b as int, balance_b as int)
            &&& plan.liquidity + MINIMUM_LIQUIDITY == floor_sqrt(plan.amount_a * plan.amount_b)
        }),
{
    let a0 = min_of(req_a as int, balance_a as int);
    let b0 = min_of(req_b as int, balance_b as int);
    assert(0 <= a0 * b0 < u128_limit()) by (nonlinear_arith)
        requires
            0 <= a0 < u64_limit(),
            0 <= b0 < u64_limit(),
    ;
    lemma_floor_sqrt_exists(a0 * b0);
}

/// A deposit into a pool with reserves does not dilute the holders of LP
/// tokens: for each token, the minted share of the total liquidity is at
/// most the deposited share of the reserve.
pub proof fn lemma_deposit_no_dilution(
    req_a: u64,
    req_b: u64,
    balance_a: u64,
    balance_b: u64,
    pool_a: u64,
    pool_b: u64,
    supply: u64,
)
    requires
        !(pool_a == 0 && pool_b == 0),
        deposit_result(req_a, req_b, balance_a, balance_b, pool_a, pool_b, supply) is Ok,
    ensures
        ({
            let plan = deposit_result(req_a, req_b, balance_a, balance_b, pool_a, pool_b, supply)->Ok_0;
            let total = supply + MINIMUM_LIQUIDITY;
            &&& plan.liquidity * pool_a <= plan.amount_a * total
            &&& plan.liquidity * pool_b <= plan.amount_b * total
        }),
{
    let pa = pool_a as int;
    let pb = pool_b as int;
    let a0 = min_of(req_a as int, balance_a as int);
    let b0 = min_of(req_b as int, balance_b as int);
    let (a, b) = deposit_amounts(a0, b0, pa, pb)->Ok_0;
    lemma_deposit_within_request(req_a, req_b, balance_a, balance_b, pool_a, pool_b, supply);
    if a0 * pb / pa <= b0 {
        assert(0 <= a0 * pb) by (nonlinear_arith)
            requires
                0 <= a0,
                0 <= pb,
        ;
        lemma_div_bounds(a0 * pb, pa);
    } else {
        lemma_branch_other_side(a0, b0, pa, pb);
    }
    let total = supply + MINIMUM_LIQUIDITY;
    // A pool with an empty B reserve mints nothing: only the other case needs a proof.
    if pb != 0 {
        assert(0 <= a * total && 0 <= b * total) by (nonlinear_arith)
            requires
                0 <= a,
                0 <= b,
                0 <= total,
        ;
        lemma_div_bounds(a * total, pa);
        lemma_div_bounds(b * total, pb);
        let l = min_of(a * total / pa, b * total / pb);
        assert(l * pa <= a * total) by (nonlinear_arith)
            requires
                l <= a * total / pa,
                (a * total / pa) * pa <= a * total,
                0 <= l,
                0 < pa,
        ;
        assert(l * pb <= b * total) by (nonlinear_arith)
            requires
                l <= b * total / pb,
                (b * total / pb) * pb <= b * total,
                0 <= l,
                0 < pb,
        ;
    }
}

/// Burning at most the total liquidity pays out at most the reserve, and
/// does not dilute the remaining LP tokens: the paid share of the reserve
/// is at most the burnt share of the total liquidity.
pub proof fn lemma_withdraw_within_reserve(amount: u64, reserve: u64, supply: u64)
    requires
        amount <= supply + MINIMUM_LIQUIDITY,
    ensures
        withdraw_share(amount as int, reserve as int, supply as int) <= reserve,
        withdraw_share(amount as int, reserve as int, supply as int) * (supply + MINIMUM_LIQUIDITY)
            <= amount * reserve,
{
    let total = supply + MINIMUM_LIQUIDITY;
    lemma_mul_div_le(reserve as int, amount as int, total);
    assert(reserve * amount == amount * reserve) by (nonlinear_arith);
    let q = amount * reserve / total;
    assert(0 <= q < u64_limit());
    vstd::arithmetic::div_mod::lemma_small_mod(q as nat, u64_limit() as nat);
    assert(0 <= amount * reserve) by (nonlinear_arith)
        requires
            0 <= amount,
            0 <= reserve,
    ;
    lemma_div_bounds(amount * reserve, total);
}


/// A deposit into a pool whose two reserves are nonzero succeeds whenever
/// its capped amounts times the total liquidity stay below 2^128 and the
/// share it would mint at those amounts fits in 64 bits. It then takes the
/// capped amount of one token and the amount of the other that matches it
/// at the pool ratio, and mints the smaller of its shares of the total
/// liquidity (the LP supply plus the locked minimum) in the two reserves:
/// the most LP tokens that dilute neither reserve.
pub proof fn lemma_later_deposit_mints_share(
    req_a: u64,
    req_b: u64,
    balance_a: u64,
    balance_b: u64,
    pool_a: u64,
    pool_b: u64,
    supply: u64,
)
    requires
        pool_a > 0,
        pool_b > 0,
        min_of(req_a as int, balance_a as int) * (supply + MINIMUM_LIQUIDITY) < u128_limit(),
        min_of(req_b as int, balance_b as int) * (supply + MINIMUM_LIQUIDITY) < u128_limit(),
        min_of(
            min_of(req_a as int, balance_a as int) * (supply + MINIMUM_LIQUIDITY) / (pool_a as int),
            min_of(req_b as int, balance_b as int) * (supply + MINIMUM_LIQUIDITY) / (pool_b as int),
        ) < u64_limit(),
    ensures
        deposit_result(req_a, req_b, balance_a, balance_b, pool_a, pool_b, supply) matches Ok(plan) && {
            let a0 = min_of(req_a as int, balance_a as int);
            let b0 = min_of(req_b as int, balance_b as int);
            let total = supply + MINIMUM_LIQUIDITY;
            &&& plan.amount_a <= a0 && plan.amount_b <= b0
            &&& (plan.amount_a == a0 && plan.amount_b == a0 * pool_b / (pool_a as int))
                || (plan.amount_b == b0 && plan.amount_a == b0 * pool_a / (pool_b as int))
            &&& plan.liquidity == min_of(plan.amount_a * total / (pool_a as int), plan.amount_b * total / (pool_b as int))
            &&& plan.liquidity * pool_a <= plan.amount_a * total
            &&& plan.liquidity * pool_b <= plan.amount_b * total
            &&& (plan.amount_a * total < (plan.liquidity + 1) * pool_a
                || plan.amount_b * total < (plan.liquidity + 1) * pool_b)
        },
{
    let pa = pool_a as int;
    let pb = pool_b as int;
    let a0 = min_of(req_a as int, balance_a as int);
    let b0 = min_of(req_b as int, balance_b as int);
    let total = supply + MINIMUM_LIQUIDITY;
    assert(0 <= a0 * pb && 0 <= b0 * pa) by (nonlinear_arith)
        requires
            0 <= a0,
            0 <= b0,
            0 < pa,
            0 < pb,
    ;
    if a0 * pb / pa <= b0 {
        lemma_div_bounds(a0 * pb, pa);
    } else {
        lemma_branch_other_side(a0, b0, pa, pb);
    }
    let (a, b) = deposit_amounts(a0, b0, pa, pb)->Ok_0;
    assert(0 <= a <= a0 && 0 <= b <= b0);
    assert(0 <= a * total <= a0 * total && 0 <= b * total <= b0 * total) by (nonlinear_arith)
        requires
            0 <= a <= a0,
            0 <= b <= b0,
            0 < total,
    ;
    lemma_div_is_ordered(a * total, a0 * total, pa);
    lemma_div_is_ordered(b * total, b0 * total, pb);
    lemma_div_bounds(a * total, pa);
    lemma_div_bounds(b * total, pb);
    let qa = a * total / pa;
    let qb = b * total / pb;
    let l = min_of(qa, qb);
    assert(l < u64_limit());
    assert(deposit_liquidity(a, b, pa, pb, supply as int) == Ok::<int, ProgramError>(l));
    assert(l * pa <= a * total) by (nonlinear_arith)
        requires
            l <= qa,
            qa * pa <= a * total,
            0 <= l,
            0 < pa,
    ;
    assert(l * pb <= b * total) by (nonlinear_arith)
        requires
            l <= qb,
            qb * pb <= b * total,
            0 <= l,
            0 < pb,
    ;
}

/// Burning `amount` LP tokens, at most the total liquidity, pays out
/// exactly the burnt share of the reserve rounded down: the payout times
/// the total liquidity is at most `amount * reserve`, and one more token
/// would be more than it.
pub proof fn lemma_withdraw_pays_burnt_share(amount: u64, reserve: u64, supply: u64)
    requires
        amount <= supply + MINIMUM_LIQUIDITY,
    ensures
        withdraw_share(amount as int, reserve as int, supply as int) * (supply + MINIMUM_LIQUIDITY)
            <= amount * reserve,
        amount * reserve < (withdraw_share(amount as int, reserve as int, supply as int) + 1) * (supply
            + MINIMUM_LIQUIDITY),
{
    let total = supply + MINIMUM_LIQUIDITY;
    lemma_mul_div_le(reserve as int, amount as int, total);
    assert(reserve * amount == amount * reserve) by (nonlinear_arith);
    let q = amount * reserve / total;
    vstd::arithmetic::div_mod::lemma_small_mod(q as nat, u64_limit() as nat);
    assert(withdraw_share(amount as int, reserve as int, supply as int) == q);
    assert(0 <= amount * reserve) by (nonlinear_arith)
        requires
            0 <= amount,
            0 <= reserve,
    ;
    lemma_div_bounds(amount * reserve, total);
}

/// A swap takes the requested input capped by the trader's balance of the
/// token paid in, keeps the fee (the input times the fee in basis points,
/// rounded down) in the pool, and pays out the largest amount that keeps
/// the product of the reserves once the rest of the input is priced in:
/// one token more would bring that product below the product before.
pub proof fn lemma_swap_pays_largest_output(
    swap_a: bool,
    input_amount: u64,
    min_output_amount: u64,
    trader_a: u64,
    trader_b: u64,
    pool_a: u64,
    pool_b: u64,
    fee: u16,
)
    requires
        fee <= 10_000,
        swap_result(swap_a, input_amount, min_output_amount, trader_a, trader_b, pool_a, pool_b, fee) is Ok,
    ensures
        ({
            let plan = swap_result(swap_a, input_amount, min_output_amount, trader_a, trader_b, pool_a, pool_b, fee)->Ok_0;
            let balance = if swap_a { trader_a } else { trader_b };
            let reserve_in = if swap_a { pool_a as int } else { pool_b as int };
            let reserve_out = if swap_a { pool_b as int } else { pool_a as int };
            let kept = fee_amount(plan.input as int, fee as int);
            let priced = plan.input - kept;
            &&& plan.input <= input_amount && plan.input <= balance
            &&& (plan.input == input_amount || plan.input == balance)
            &&& kept * 10_000 <= plan.input * fee < (kept + 1) * 10_000
            &&& plan.output >= min_output_amount
            &&& (reserve_in + priced) * (reserve_out - plan.output) >= reserve_in * reserve_out
            &&& (reserve_in + priced) * (reserve_out - plan.output - 1) < reserve_in * reserve_out
        }),
{
    let input = if swap_a {
        min_of(input_amount as int, trader_a as int)
    } else {
        min_of(input_amount as int, trader_b as int)
    };
    assert(0 <= input * fee) by (nonlinear_arith)
        requires
            0 <= input,
            0 <= fee,
    ;
    lemma_div_bounds(input * fee, 10_000);
    lemma_mul_div_le(input, fee as int, 10_000);
    let kept = fee_amount(input, fee as int);
    let taxed = input - kept;
    let rin = if swap_a { pool_a as int } else { pool_b as int };
    let rout = if swap_a { pool_b as int } else { pool_a as int };
    let d = rin + taxed;
    assert(0 <= taxed * rout) by (nonlinear_arith)
        requires
            0 <= taxed,
            0 <= rout,
    ;
    lemma_div_bounds(taxed * rout, d);
    lemma_mul_div_le(rout, taxed, d);
    assert(rout * taxed == taxed * rout) by (nonlinear_arith);
    let out = swap_output(taxed, rin, rout);
    assert(out < u64_limit());
    assert(d * (rout - out) >= rin * rout) by (nonlinear_arith)
        requires
            out * d <= taxed * rout,
            d == rin + taxed,
    ;
    assert(d * (rout - out - 1) < rin * rout) by (nonlinear_arith)
        requires
            taxed * rout < (out + 1) * d,
            d == rin + taxed,
    ;
}

/// The minimum output only decides whether a swap is refused: a swap with
/// a minimum gives what the same swap without one gives, unless that pays
/// out less than the minimum, which is refused as an invalid argument. A
/// swap into a pool whose reserve of the token paid in is not empty is
/// never refused without a minimum.
pub proof fn lemma_swap_refused_only_below_minimum(
    swap_a: bool,
    input_amount: u64,
    min_output_amount: u64,
    trader_a: u64,
    trader_b: u64,
    pool_a: u64,
    pool_b: u64,
    fee: u16,
)
    requires
        fee <= 10_000,
    ensures
        swap_result(swap_a, input_amount, min_output_amount, trader_a, trader_b, pool_a, pool_b, fee) == match swap_result(
            swap_a,
            input_amount,
            0,
            trader_a,
            trader_b,
            pool_a,
            pool_b,
            fee,
        ) {
            Err(e) => Err(e),
            Ok(plan) => if plan.output >= min_output_amount {
                Ok(plan)
            } else {
                Err(ProgramError::InvalidArgument)
            },
        },
        (if swap_a { pool_a } else { pool_b }) > 0 ==> swap_result(
            swap_a,
            input_amount,
            0,
            trader_a,
            trader_b,
            pool_a,
            pool_b,
            fee,
        ) is Ok,
{
    let input = if swap_a {
        min_of(input_amount as int, trader_a as int)
    } else {
        min_of(input_amount as int, trader_b as int)
    };
    lemma_mul_div_le(input, fee as int, 10_000);
    let taxed = input - fee_amount(input, fee as int);
    let rin = if swap_a { pool_a as int } else { pool_b as int };
    let rout = if swap_a { pool_b as int } else { pool_a as int };
    let d = rin + taxed;
    if d != 0 {
        lemma_mul_div_le(rout, taxed, d);
        assert(rout * taxed == taxed * rout) by (nonlinear_arith);
        assert(0 <= swap_output(taxed, rin, rout) < u64_limit());
    }
}

/// The first deposit into an empty pool succeeds exactly when the product
/// of the capped amounts reaches the square of the locked minimum. It then
/// takes the capped amounts as they are and mints the square root of their
/// product, rounded down, less the locked minimum.
pub proof fn lemma_first_deposit_succeeds(req_a: u64, req_b: u64, balance_a: u64, balance_b: u64, supply: u64)
    ensures
        ({
            let a0 = min_of(req_a as int, balance_a as int);
            let b0 = min_of(req_b as int, balance_b as int);
            &&& deposit_result(req_a, req_b, balance_a, balance_b, 0, 0, supply) is Ok <==> a0 * b0
                >= MINIMUM_LIQUIDITY * MINIMUM_LIQUIDITY
            &&& deposit_result(req_a, req_b, balance_a, balance_b, 0, 0, supply) matches Ok(plan) ==> {
                let root = plan.liquidity + MINIMUM_LIQUIDITY;
                &&& plan.amount_a == a0 && plan.amount_b == b0
                &&& root * root <= a0 * b0 < (root + 1) * (root + 1)
            }
        }),
{
    let a0 = min_of(req_a as int, balance_a as int);
    let b0 = min_of(req_b as int, balance_b as int);
    assert(0 <= a0 * b0 < u128_limit()) by (nonlinear_arith)
        requires
            0 <= a0 < u64_limit(),
            0 <= b0 < u64_limit(),
    ;
    lemma_floor_sqrt_exists(a0 * b0);
    let r = floor_sqrt(a0 * b0);
    if r >= MINIMUM_LIQUIDITY {
        assert(r * r >= MINIMUM_LIQUIDITY * MINIMUM_LIQUIDITY) by (nonlinear_arith)
            requires
                r >= MINIMUM_LIQUIDITY,
        ;
    } else {
        assert((r + 1) * (r + 1) <= MINIMUM_LIQUIDITY * MINIMUM_LIQUIDITY) by (nonlinear_arith)
            requires
                0 <= r < MINIMUM_LIQUIDITY,
        ;
    }
}

} // verus!
