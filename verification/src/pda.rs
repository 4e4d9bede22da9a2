//! Program-derived addresses, computed by the runtime's address library.
use vstd::prelude::*;
use crate::address::{Address, associated_token_program_bytes, associated_token_program_id, program_id, program_id_bytes, token_program_bytes, token_program_id};
use crate::bytes::{le_bytes, lemma_le_bytes_len, write_le};

verus! {

/// The address that `solana_address::Address::derive_address` computes
/// from seeds, an optional bump byte and a program address: a hash of
/// all of them, with no check that the result lies off the curve.
pub uninterp spec fn derived_address(seeds: Seq<Seq<u8>>, bump: Option<u8>, program_id: Seq<u8>) -> Seq<u8>;

/// What `solana_address::Address::derive_program_address` returns for
/// seeds and a program address: the canonical program-derived address
/// and its bump, or nothing.
pub uninterp spec fn canonical_address(seeds: Seq<Seq<u8>>, program_id: Seq<u8>) -> Option<(Seq<u8>, u8)>;

/// The byte strings of a list of seeds.
pub open spec fn seed_bytes<const N: usize>(seeds: [&[u8]; N]) -> Seq<Seq<u8>> {
    seeds@.map_values(|s: &[u8]| s@)
}

/// Calls `solana_address::Address::derive_address`. The contract names
/// its result: the hash of the seeds, the bump and the program address.
/// That function panics on a seed longer than 32 bytes, so such seeds
/// are excluded; the count of seeds is checked when it compiles.
#[verifier::external_body]
pub(crate) fn derive_address<const N: usize>(seeds: &[&[u8]; N], bump: Option<u8>, program_id: &Address) -> (r: Address)
    requires
        forall|i: int| 0 <= i < N ==> (#[trigger] seeds@[i])@.len() <= 32,
    ensures
        r@ == derived_address(seed_bytes(*seeds), bump, program_id@),
{
    let program = solana_address::Address::new_from_array(program_id.bytes);
    Address { bytes: solana_address::Address::derive_address(seeds, bump, &program).to_bytes() }
}

/// Calls `solana_address::Address::derive_program_address`. The contract
/// names its result, and states what its source shows: a returned address
/// is the one `derive_address` computes from the same seeds with the
/// returned bump.
#[verifier::external_body]
pub(crate) fn derive_program_address<const N: usize>(seeds: &[&[u8]; N], program_id: &Address) -> (r: Option<(Address, u8)>)
    ensures
        match r {
            Some((a, b)) => canonical_address(seed_bytes(*seeds), program_id@) == Some((a@, b))
                && a@ == derived_address(seed_bytes(*seeds), Some(b), program_id@),
            None => canonical_address(seed_bytes(*seeds), program_id@) is None,
        },
{
    let program = solana_address::Address::new_from_array(program_id.bytes);
    match solana_address::Address::derive_program_address(seeds, &program) {
        Some((a, b)) => Some((Address { bytes: a.to_bytes() }, b)),
        None => None,
    }
}

/// The seed "amm".
pub open spec fn amm_seed() -> Seq<u8> {
    seq![97u8, 109, 109]
}

/// The seed "liquidity".
pub open spec fn liquidity_seed() -> Seq<u8> {
    seq![108u8, 105, 113, 117, 105, 100, 105, 116, 121]
}

/// The associated token account of `wallet` for `mint`, if one can be
/// derived.
pub open spec fn associated_token_address(wallet: Seq<u8>, mint: Seq<u8>) -> Option<Seq<u8>> {
    match canonical_address(seq![wallet, token_program_bytes(), mint], associated_token_program_bytes()) {
        Some((a, _)) => Some(a),
        None => None,
    }
}

/// The AMM address for its creator, an identifier and a bump.
pub open spec fn amm_address(creator: Seq<u8>, id: u32, bump: u8) -> Seq<u8> {
    derived_address(seq![amm_seed(), creator, le_bytes(id as nat, 4)], Some(bump), program_id_bytes())
}

/// The pool configuration address of a pool, for a bump.
pub open spec fn pool_address(amm: Seq<u8>, mint_a: Seq<u8>, mint_b: Seq<u8>, bump: u8) -> Seq<u8> {
    derived_address(seq![amm, mint_a, mint_b], Some(bump), program_id_bytes())
}

/// The LP mint address of a pool, for a bump.
pub open spec fn lp_mint_address(amm: Seq<u8>, mint_a: Seq<u8>, mint_b: Seq<u8>, bump: u8) -> Seq<u8> {
    derived_address(seq![amm, mint_a, mint_b, liquidity_seed()], Some(bump), program_id_bytes())
}

/// The four little-endian bytes of an identifier.
pub fn id_bytes(id: u32) -> (r: [u8; 4])
    ensures
        r@ == le_bytes(id as nat, 4),
{
    let mut out: Vec<u8> = Vec::new();
    write_le(&mut out, id as u64, 4);
    proof {
        lemma_le_bytes_len(id as nat, 4);
    }
    let r = [out[0], out[1], out[2], out[3]];
    assert(r@ =~= le_bytes(id as nat, 4));
    r
}

/// Derives the associated token account of `wallet` for `mint`.
pub fn derive_associated_token_address(wallet: &Address, mint: &Address) -> (r: Option<Address>)
    ensures
        match associated_token_address(wallet@, mint@) {
            Some(a) => r matches Some(x) && x@ == a,
            None => r is None,
        },
{
    let token_program = token_program_id();
    let ata_program = associated_token_program_id();
    let seeds: [&[u8]; 3] = [wallet.as_slice(), token_program.as_slice(), mint.as_slice()];
    assert(seed_bytes(seeds) =~= seq![wallet@, token_program_bytes(), mint@]);
    match derive_program_address(&seeds, &ata_program) {
        Some((a, _)) => Some(a),
        None => None,
    }
}

/// Derives the AMM address for its creator, an identifier and a bump.
pub fn derive_amm_address(creator: &Address, id: u32, bump: u8) -> (r: Address)
    ensures
        r@ == amm_address(creator@, id, bump),
{
    let seed: [u8; 3] = [97u8, 109, 109];
    let id_le = id_bytes(id);
    let program = program_id();
    let seeds: [&[u8]; 3] = [seed.as_slice(), creator.as_slice(), id_le.as_slice()];
    assert(seed_bytes(seeds) =~= seq![amm_seed(), creator@, le_bytes(id as nat, 4)]);
    derive_address(&seeds, Some(bump), &program)
}

/// Derives the LP mint address of a pool for a bump.
pub fn derive_lp_mint_address(amm: &Address, mint_a: &Address, mint_b: &Address, bump: u8) -> (r: Address)
    ensures
        r@ == lp_mint_address(amm@, mint_a@, mint_b@, bump),
{
    let seed: [u8; 9] = [108u8, 105, 113, 117, 105, 100, 105, 116, 121];
    let program = program_id();
    let seeds: [&[u8]; 4] = [amm.as_slice(), mint_a.as_slice(), mint_b.as_slice(), seed.as_slice()];
    assert(seed_bytes(seeds) =~= seq![amm@, mint_a@, mint_b@, liquidity_seed()]);
    derive_address(&seeds, Some(bump), &program)
}

/// Finds the canonical AMM address and bump for an admin and an identifier.
pub fn find_amm_address(admin: &Address, id: u32) -> (r: Option<(Address, u8)>)
    ensures
        match canonical_address(seq![amm_seed(), admin@, le_bytes(id as nat, 4)], program_id_bytes()) {
            Some((a, b)) => r matches Some((x, y)) && x@ == a && y == b && a == amm_address(admin@, id, b),
            None => r is None,
        },
{
    let seed: [u8; 3] = [97u8, 109, 109];
    let id_le = id_bytes(id);
    let program = program_id();
    let seeds: [&[u8]; 3] = [seed.as_slice(), admin.as_slice(), id_le.as_slice()];
    assert(seed_bytes(seeds) =~= seq![amm_seed(), admin@, le_bytes(id as nat, 4)]);
    derive_program_address(&seeds, &program)
}

/// Finds the canonical pool configuration address and bump of a pool.
pub fn find_pool_address(amm: &Address, mint_a: &Address, mint_b: &Address) -> (r: Option<(Address, u8)>)
    ensures
        match canonical_address(seq![amm@, mint_a@, mint_b@], program_id_bytes()) {
            Some((a, b)) => r matches Some((x, y)) && x@ == a && y == b && a == pool_address(amm@, mint_a@, mint_b@, b),
            None => r is None,
        },
{
    let program = program_id();
    let seeds: [&[u8]; 3] = [amm.as_slice(), mint_a.as_slice(), mint_b.as_slice()];
    assert(seed_bytes(seeds) =~= seq![amm@, mint_a@, mint_b@]);
    derive_program_address(&seeds, &program)
}

/// Finds the canonical LP mint address and bump of a pool.
pub fn find_lp_mint_address(amm: &Address, mint_a: &Address, mint_b: &Address) -> (r: Option<(Address, u8)>)
    ensures
        match canonical_address(seq![amm@, mint_a@, mint_b@, liquidity_seed()], program_id_bytes()) {
            Some((a, b)) => r matches Some((x, y)) && x@ == a && y == b && a == lp_mint_address(amm@, mint_a@, mint_b@, b),
            None => r is None,
        },
{
    let seed: [u8; 9] = [108u8, 105, 113, 117, 105, 100, 105, 116, 121];
    let program = program_id();
    let seeds: [&[u8]; 4] = [amm.as_slice(), mint_a.as_slice(), mint_b.as_slice(), seed.as_slice()];
    assert(seed_bytes(seeds) =~= seq![amm@, mint_a@, mint_b@, liquidity_seed()]);
    derive_program_address(&seeds, &program)
}

} // verus!
