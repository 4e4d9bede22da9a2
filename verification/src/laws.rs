//! Properties that span several instructions.
use vstd::prelude::*;
use crate::account::AccountState;
use crate::error::ProgramError;
use crate::instructions::deposit::deposit_accounts_result;
use crate::address::program_id_bytes;
use crate::instructions::initialize_amm::{
    InitializeAmm, InitializeAmmInstructionData, InitializeAmmPlan, initialize_amm_data_result, initialize_amm_process_result, new_amm_config,
};
use crate::instructions::set_paused::{SetPausedInstructionData, set_paused_data_result};
use crate::pda::{amm_address, amm_seed, associated_token_address, canonical_address, liquidity_seed, lp_mint_address};
use crate::instructions::initialize_pool::{
    InitializePool, InitializePoolPlan, initialize_pool_accounts_result, initialize_pool_process_result,
};
use crate::instructions::swap::swap_accounts_result;
use crate::instructions::withdraw::withdraw_accounts_result;
use crate::instructions::transfer_admin::{TransferAdminAccounts, transfer_admin_accounts_result};
use crate::instructions::update_fee::{UpdateFeeInstructionData, admin_accounts_check, update_fee_data_result};
use crate::math::{
    MINIMUM_LIQUIDITY, deposit_result, lemma_deposit_no_dilution, lemma_div_bounds, u64_limit, withdraw_share,
};
use crate::bytes::{le_bytes, lemma_le_bytes_len, lemma_le_value_of_bytes, lemma_pow256_values};
use crate::state::{
    AMM_CONFIG_LEN, AmmConfigView, PoolView, amm_config_bytes, amm_config_of, lemma_amm_bytes_roundtrip, load_amm_result,
    load_pool_result,
};

verus! {

/// A paused AMM accepts no deposit and no swap: validating the accounts
/// of either fails when the AMM account holds a paused configuration.
pub proof fn lemma_paused_amm_refuses_trading(accounts: Seq<AccountState>)
    requires
        load_amm_result(accounts[0]) matches Ok(config) && config.paused != 0,
    ensures
        deposit_accounts_result(accounts) is Err,
        swap_accounts_result(accounts) is Err,
{
}

/// A paused AMM accepts no new pool, whatever reading the mints reported.
pub proof fn lemma_paused_amm_refuses_pools(
    accounts: Seq<AccountState>,
    mint_a_initialized: Result<bool, ProgramError>,
    mint_b_initialized: Result<bool, ProgramError>,
)
    requires
        load_amm_result(accounts[1]) matches Ok(config) && config.paused != 0,
    ensures
        initialize_pool_accounts_result(accounts, mint_a_initialized, mint_b_initialized) is Err,
{
}

/// The two accounts are the pool's token accounts: the associated token
/// accounts of the pool configuration for the pool's two mints.
pub open spec fn pool_token_accounts(pool_config: Seq<u8>, pool: PoolView, ata_a: Seq<u8>, ata_b: Seq<u8>) -> bool {
    associated_token_address(pool_config, pool.mint_a) == Some(ata_a)
        && associated_token_address(pool_config, pool.mint_b) == Some(ata_b)
}

/// A running AMM accepts deposits into its pools: the accounts of
/// `DepositLiquidity` are accepted exactly when there are thirteen, the
/// second holds a pool of this program whose AMM is the first, that AMM
/// holds a configuration that is not paused, the fourth is the pool's LP
/// mint and the fifth and sixth are the pool's token accounts.
pub proof fn lemma_running_pool_accepts_deposits(accounts: Seq<AccountState>)
    ensures
        deposit_accounts_result(accounts) is Ok <==> {
            &&& accounts.len() == 13
            &&& load_pool_result(accounts[1]) matches Ok(pool) && {
                &&& accounts[0].address@ == pool.amm
                &&& load_amm_result(accounts[0]) matches Ok(config) && config.paused == 0
                &&& accounts[3].address@ == lp_mint_address(pool.amm, pool.mint_a, pool.mint_b, pool.mint_lp_bump)
                &&& pool_token_accounts(accounts[1].address@, pool, accounts[4].address@, accounts[5].address@)
            }
        },
{
}

/// A running AMM accepts swaps in its pools: the accounts of a swap are
/// accepted exactly when there are thirteen, the second holds a pool of
/// this program whose AMM is the first, that AMM holds a configuration
/// that is not paused, and the sixth and seventh are the pool's token
/// accounts.
pub proof fn lemma_running_pool_accepts_swaps(accounts: Seq<AccountState>)
    ensures
        swap_accounts_result(accounts) is Ok <==> {
            &&& accounts.len() == 13
            &&& load_pool_result(accounts[1]) matches Ok(pool) && {
                &&& accounts[0].address@ == pool.amm
                &&& load_amm_result(accounts[0]) matches Ok(config) && config.paused == 0
                &&& pool_token_accounts(accounts[1].address@, pool, accounts[5].address@, accounts[6].address@)
            }
        },
{
}

/// Withdrawals stay open whatever the state of the AMM, paused or not: the
/// accounts of `WithdrawLiquidity` are accepted exactly when there are
/// fourteen, the first holds a pool of this program, the third is its LP
/// mint and the sixth and seventh are its token accounts.
pub proof fn lemma_withdrawals_stay_open(accounts: Seq<AccountState>)
    ensures
        withdraw_accounts_result(accounts) is Ok <==> {
            &&& accounts.len() == 14
            &&& load_pool_result(accounts[0]) matches Ok(pool) && {
                &&& accounts[2].address@ == lp_mint_address(pool.amm, pool.mint_a, pool.mint_b, pool.mint_lp_bump)
                &&& pool_token_accounts(accounts[0].address@, pool, accounts[5].address@, accounts[6].address@)
            }
        },
{
}

/// Only the admin changes the fee or the pause state: the accounts of
/// `UpdateFee` and `SetPaused` are accepted only when the first account
/// signed and is the admin of the AMM configuration in the second.
pub proof fn lemma_only_admin_configures(accounts: Seq<AccountState>)
    requires
        admin_accounts_check(accounts) is Ok,
    ensures
        accounts.len() == 2,
        accounts[0].is_signer,
        accounts[1].is_writable,
        load_amm_result(accounts[1]) matches Ok(config) && accounts[0].address@ == config.admin,
{
}

/// Only the admin hands administration over, and only to a signer.
pub proof fn lemma_only_admin_transfers(accounts: Seq<AccountState>)
    requires
        transfer_admin_accounts_result(accounts) is Ok,
    ensures
        accounts.len() == 3,
        accounts[0].is_signer,
        accounts[1].is_signer,
        load_amm_result(accounts[2]) matches Ok(config) && accounts[0].address@ == config.admin,
{
}

/// The admin can always change the fee or the pause state: the accounts of
/// `UpdateFee` and `SetPaused` are accepted exactly when there are two,
/// the first signed, and the second is writable and holds an AMM
/// configuration whose admin is the first, whoever created the AMM.
pub proof fn lemma_admin_configures(accounts: Seq<AccountState>)
    ensures
        admin_accounts_check(accounts) is Ok <==> {
            &&& accounts.len() == 2
            &&& accounts[0].is_signer
            &&& accounts[1].is_writable
            &&& load_amm_result(accounts[1]) matches Ok(config) && accounts[0].address@ == config.admin
        },
{
}

/// The admin can always hand administration over to a signer: the
/// accounts of `TransferAdmin` are accepted exactly when there are three,
/// the first two signed, and the third is writable and holds an AMM
/// configuration whose admin is the first, whoever created the AMM. They
/// are then taken as the admin, the new admin and the AMM, in that order.
pub proof fn lemma_admin_transfers(accounts: Seq<AccountState>)
    ensures
        transfer_admin_accounts_result(accounts) is Ok <==> {
            &&& accounts.len() == 3
            &&& accounts[0].is_signer
            &&& accounts[1].is_signer
            &&& accounts[2].is_writable
            &&& load_amm_result(accounts[2]) matches Ok(config) && accounts[0].address@ == config.admin
        },
        transfer_admin_accounts_result(accounts) is Ok ==> transfer_admin_accounts_result(accounts)
            == Ok::<TransferAdminAccounts, ProgramError>(
            TransferAdminAccounts {
                admin: accounts[0].address,
                new_admin: accounts[1].address,
                amm: accounts[2].address,
            },
        ),
{
}

/// A new AMM is created at the canonical address of ("amm", admin,
/// identifier), with the canonical bump, whatever that bump is: the
/// decision of `InitializeAmm` is Ok with a bump exactly when the canonical
/// search finds the AMM account's address with that bump.
pub proof fn lemma_amm_created_at_canonical_address(ix: InitializeAmm, bump: u8)
    ensures
        initialize_amm_process_result(ix) == Ok::<InitializeAmmPlan, ProgramError>(InitializeAmmPlan { bump })
            <==> canonical_address(
            seq![amm_seed(), ix.accounts.admin@, le_bytes(ix.instruction_data.id as nat, 4)],
            program_id_bytes(),
        ) == Some((ix.accounts.amm@, bump)),
{
}

/// A new pool is created with its configuration and its LP mint at their
/// canonical addresses, with their canonical bumps, whatever they are: the
/// decision of `InitializePool` is Ok with two bumps exactly when the
/// canonical searches find the two accounts' addresses with those bumps.
pub proof fn lemma_pool_created_at_canonical_addresses(ix: InitializePool, pool_bump: u8, mint_lp_bump: u8)
    ensures
        ({
            let a = ix.accounts;
            initialize_pool_process_result(ix) == Ok::<InitializePoolPlan, ProgramError>(
                InitializePoolPlan { pool_bump, mint_lp_bump },
            ) <==> {
                &&& canonical_address(seq![a.amm@, a.mint_a@, a.mint_b@], program_id_bytes())
                    == Some((a.pool_config@, pool_bump))
                &&& canonical_address(seq![a.amm@, a.mint_a@, a.mint_b@, liquidity_seed()], program_id_bytes())
                    == Some((a.mint_lp@, mint_lp_bump))
            }
        }),
{
}

/// Every fee the program accepts to store is below 10 000 basis points,
/// so a swap never takes a fee larger than its input.
pub proof fn lemma_accepted_fees_in_range(data: Seq<u8>)
    ensures
        initialize_amm_data_result(data) matches Ok(d) ==> d.fee < 10_000,
        update_fee_data_result(data) matches Ok(d) ==> d.fee < 10_000,
{
}

/// Every fee below 10 000 basis points and every pause state 0 or 1 can be
/// set: their little-endian encodings decode, with any identifier, to
/// exactly those values.
pub proof fn lemma_accepted_settings_decode(id: u32, fee: u16, paused: u8)
    ensures
        fee < 10_000 ==> initialize_amm_data_result(le_bytes(id as nat, 4) + le_bytes(fee as nat, 2))
            == Ok::<InitializeAmmInstructionData, ProgramError>(InitializeAmmInstructionData { id, fee }),
        fee < 10_000 ==> update_fee_data_result(le_bytes(fee as nat, 2)) == Ok::<UpdateFeeInstructionData, ProgramError>(
            UpdateFeeInstructionData { fee },
        ),
        paused <= 1 ==> set_paused_data_result(seq![paused]) == Ok::<SetPausedInstructionData, ProgramError>(
            SetPausedInstructionData { paused },
        ),
{
    lemma_pow256_values();
    lemma_le_bytes_len(id as nat, 4);
    lemma_le_bytes_len(fee as nat, 2);
    lemma_le_value_of_bytes(id as nat, 4);
    lemma_le_value_of_bytes(fee as nat, 2);
    let data = le_bytes(id as nat, 4) + le_bytes(fee as nat, 2);
    assert(data.subrange(0, 4) =~= le_bytes(id as nat, 4));
    assert(data.subrange(4, 6) =~= le_bytes(fee as nat, 2));
}

/// Depositing into a pool with reserves and at once withdrawing the LP
/// tokens the deposit minted pays back at most what was deposited, of
/// either token.
pub proof fn lemma_deposit_then_withdraw_no_profit(
    req_a: u64,
    req_b: u64,
    balance_a: u64,
    balance_b: u64,
    pool_a: u64,
    pool_b: u64,
    supply: u64,
)
    requires
        !(pool_a == 0 && pool_b == 0),
        deposit_result(req_a, req_b, balance_a, balance_b, pool_a, pool_b, supply) is Ok,
    ensures
        ({
            let plan = deposit_result(req_a, req_b, balance_a, balance_b, pool_a, pool_b, supply)->Ok_0;
            &&& withdraw_share(plan.liquidity as int, pool_a + plan.amount_a, supply + plan.liquidity) <= plan.amount_a
            &&& withdraw_share(plan.liquidity as int, pool_b + plan.amount_b, supply + plan.liquidity) <= plan.amount_b
        }),
{
    let plan = deposit_result(req_a, req_b, balance_a, balance_b, pool_a, pool_b, supply)->Ok_0;
    lemma_deposit_no_dilution(req_a, req_b, balance_a, balance_b, pool_a, pool_b, supply);
    let l = plan.liquidity as int;
    let total = supply + MINIMUM_LIQUIDITY;
    lemma_round_trip_one_side(l, pool_a as int, plan.amount_a as int, total);
    lemma_round_trip_one_side(l, pool_b as int, plan.amount_b as int, total);
}

proof fn lemma_round_trip_one_side(l: int, reserve: int, amount: int, total: int)
    requires
        0 <= l,
        0 <= reserve,
        0 <= amount < u64_limit(),
        MINIMUM_LIQUIDITY <= total,
        l * reserve <= amount * total,
    ensures
        withdraw_share(l, reserve + amount, total - MINIMUM_LIQUIDITY + l) <= amount,
{
    let d = total + l;
    let x = l * (reserve + amount);
    assert(0 <= x) by (nonlinear_arith)
        requires
            x == l * (reserve + amount),
            0 <= l,
            0 <= reserve + amount,
    ;
    lemma_div_bounds(x, d);
    let q = x / d;
    assert(x == l * reserve + l * amount) by (nonlinear_arith)
        requires
            x == l * (reserve + amount),
    ;
    assert(amount * d == amount * total + l * amount) by (nonlinear_arith)
        requires
            d == total + l,
    ;
    assert(q * d <= amount * d);
    assert(q <= amount) by (nonlinear_arith)
        requires
            q * d <= amount * d,
            0 < d,
    ;
    vstd::arithmetic::div_mod::lemma_small_mod(q as nat, u64_limit() as nat);
}

/// Updating the fee rewrites only the two fee bytes of the AMM account.
pub proof fn lemma_fee_update_is_local(s: Seq<u8>, fee: u16)
    requires
        s.len() == AMM_CONFIG_LEN,
    ensures
        amm_config_bytes(AmmConfigView { fee, ..amm_config_of(s) }) == s.subrange(0, 68) + le_bytes(fee as nat, 2)
            + s.subrange(70, 72),
{
    lemma_amm_bytes_roundtrip(s);
    lemma_le_bytes_len(fee as nat, 2);
    lemma_le_bytes_len(amm_config_of(s).id as nat, 4);
    lemma_le_bytes_len(amm_config_of(s).fee as nat, 2);
    let v = amm_config_of(s);
    assert(s.subrange(0, 68) =~= v.creator + v.admin + le_bytes(v.id as nat, 4));
    assert(s.subrange(70, 72) =~= seq![v.paused, v.bump]);
    assert(amm_config_bytes(AmmConfigView { fee, ..v }) =~= s.subrange(0, 68) + le_bytes(fee as nat, 2)
        + s.subrange(70, 72));
}

/// Pausing or resuming rewrites only the pause byte of the AMM account.
pub proof fn lemma_pause_update_is_local(s: Seq<u8>, paused: u8)
    requires
        s.len() == AMM_CONFIG_LEN,
    ensures
        amm_config_bytes(AmmConfigView { paused, ..amm_config_of(s) }) == s.update(70, paused),
{
    lemma_amm_bytes_roundtrip(s);
    let v = amm_config_of(s);
    lemma_le_bytes_len(v.id as nat, 4);
    lemma_le_bytes_len(v.fee as nat, 2);
    assert(amm_config_bytes(AmmConfigView { paused, ..v }) =~= amm_config_bytes(v).update(70, paused));
}

/// Handing administration over rewrites only the admin bytes of the AMM
/// account.
pub proof fn lemma_admin_update_is_local(s: Seq<u8>, admin: Seq<u8>)
    requires
        s.len() == AMM_CONFIG_LEN,
        admin.len() == 32,
    ensures
        amm_config_bytes(AmmConfigView { admin, ..amm_config_of(s) }) == s.subrange(0, 32) + admin + s.subrange(64, 72),
{
    lemma_amm_bytes_roundtrip(s);
    let v = amm_config_of(s);
    lemma_le_bytes_len(v.id as nat, 4);
    lemma_le_bytes_len(v.fee as nat, 2);
    assert(s.subrange(64, 72) =~= le_bytes(v.id as nat, 4) + le_bytes(v.fee as nat, 2) + seq![v.paused, v.bump]);
    assert(amm_config_bytes(AmmConfigView { admin, ..v }) =~= s.subrange(0, 32) + admin + s.subrange(64, 72));
}

/// What every AMM configuration this program writes satisfies: the fee is
/// below 10 000 basis points and the pause state is 0 or 1.
pub open spec fn amm_config_valid(c: AmmConfigView) -> bool {
    c.fee < 10_000 && c.paused <= 1
}

/// A new AMM starts with a valid configuration, created by its admin.
pub proof fn lemma_new_amm_config_valid(ix: InitializeAmm, data: Seq<u8>, bump: u8)
    requires
        initialize_amm_data_result(data) == Ok::<_, ProgramError>(ix.instruction_data),
    ensures
        amm_config_valid(new_amm_config(ix, bump)),
        new_amm_config(ix, bump).creator == ix.accounts.admin@,
{
}

/// Each admin instruction keeps an AMM configuration valid, and leaves its
/// creator, identifier and bump alone: `UpdateFee` sets only an accepted
/// fee, `SetPaused` only an accepted pause state, `TransferAdmin` only the
/// admin. (The pool instructions never write an AMM configuration.)
pub proof fn lemma_admin_updates_keep_config_valid(c: AmmConfigView, data: Seq<u8>, new_admin: Seq<u8>)
    requires
        amm_config_valid(c),
    ensures
        update_fee_data_result(data) matches Ok(d) ==> {
            let n = AmmConfigView { fee: d.fee, ..c };
            amm_config_valid(n) && n.creator == c.creator && n.id == c.id && n.bump == c.bump
        },
        set_paused_data_result(data) matches Ok(d) ==> {
            let n = AmmConfigView { paused: d.paused, ..c };
            amm_config_valid(n) && n.creator == c.creator && n.id == c.id && n.bump == c.bump
        },
        ({
            let n = AmmConfigView { admin: new_admin, ..c };
            amm_config_valid(n) && n.creator == c.creator && n.id == c.id && n.bump == c.bump
        }),
{
}

/// The AMM that `InitializeAmm` creates stays at the address that pool
/// creation derives from its stored creator, identifier and bump, whatever
/// admin later holds it.
pub proof fn lemma_created_amm_address_survives_admin_transfer(ix: InitializeAmm, bump: u8, new_admin: Seq<u8>)
    requires
        ix.accounts.amm@ == amm_address(ix.accounts.admin@, ix.instruction_data.id, bump),
    ensures
        ({
            let c = AmmConfigView { admin: new_admin, ..new_amm_config(ix, bump) };
            ix.accounts.amm@ == amm_address(c.creator, c.id, c.bump)
        }),
{
}

} // verus!
