//! The program's own accounts: the AMM configuration and the pool
//! configuration, their byte layout, and how they are loaded and stored.
use vstd::prelude::*;
use crate::account::{AccountState, read_address, write_address};
use crate::address::{Address, program_id, program_id_bytes};
use crate::bytes::{le_bytes, le_value, lemma_le_bytes_len, lemma_le_bytes_of_value, lemma_le_value_bound, lemma_le_value_of_bytes, lemma_pow256_values, read_le, write_le};
use crate::error::ProgramError;

verus! {

/// Length of the AMM configuration account data: creator (32), admin (32),
/// id (4), fee (2), paused (1), bump (1), packed without padding.
pub const AMM_CONFIG_LEN: usize = 72;

/// Length of the pool configuration account data: amm (32), mint A (32),
/// mint B (32), bump (1), LP mint bump (1), packed without padding.
pub const POOL_LEN: usize = 98;

/// Configuration of one AMM.
pub struct AmmConfig {
    /// Creator, used when deriving the AMM's address.
    creator: Address,
    /// Admin authority.
    admin: Address,
    /// Identifier chosen at creation.
    id: u32,
    /// Swap fee in basis points.
    fee: u16,
    /// Pause state: 0 runs, anything else is paused.
    paused: u8,
    /// Bump of the AMM's program-derived address.
    bump: [u8; 1],
}

/// The abstract value of an AMM configuration.
pub struct AmmConfigView {
    pub creator: Seq<u8>,
    pub admin: Seq<u8>,
    pub id: u32,
    pub fee: u16,
    pub paused: u8,
    pub bump: u8,
}

impl View for AmmConfig {
    type V = AmmConfigView;

    closed spec fn view(&self) -> AmmConfigView {
        AmmConfigView {
            creator: self.creator@,
            admin: self.admin@,
            id: self.id,
            fee: self.fee,
            paused: self.paused,
            bump: self.bump@[0],
        }
    }
}

/// The bytes of an AMM configuration as stored in its account.
pub open spec fn amm_config_bytes(v: AmmConfigView) -> Seq<u8> {
    v.creator + v.admin + le_bytes(v.id as nat, 4) + le_bytes(v.fee as nat, 2) + seq![v.paused, v.bump]
}

/// The AMM configuration that account bytes hold.
pub open spec fn amm_config_of(s: Seq<u8>) -> AmmConfigView {
    AmmConfigView {
        creator: s.subrange(0, 32),
        admin: s.subrange(32, 64),
        id: le_value(s.subrange(64, 68)) as u32,
        fee: le_value(s.subrange(68, 70)) as u16,
        paused: s[70],
        bump: s[71],
    }
}

/// What loading an AMM configuration from an account gives: the data
/// must have the configuration's length and the account must belong to
/// this program.
pub open spec fn load_amm_result(account: AccountState) -> Result<AmmConfigView, ProgramError> {
    if account.data@.len() != AMM_CONFIG_LEN {
        Err(ProgramError::InvalidInstructionData)
    } else if account.owner@ != program_id_bytes() {
        Err(ProgramError::InvalidAccountData)
    } else {
        Ok(amm_config_of(account.data@))
    }
}

/// Configuration of one pool.
pub struct Pool {
    /// The AMM the pool belongs to.
    amm: Address,
    /// Mint of token A.
    mint_a: Address,
    /// Mint of token B.
    mint_b: Address,
    /// Bump of the pool configuration's program-derived address.
    bump: [u8; 1],
    /// Bump of the LP mint's program-derived address.
    mint_lp_bump: [u8; 1],
}

/// The abstract value of a pool configuration.
pub struct PoolView {
    pub amm: Seq<u8>,
    pub mint_a: Seq<u8>,
    pub mint_b: Seq<u8>,
    pub bump: u8,
    pub mint_lp_bump: u8,
}

impl View for Pool {
    type V = PoolView;

    closed spec fn view(&self) -> PoolView {
        PoolView {
            amm: self.amm@,
            mint_a: self.mint_a@,
            mint_b: self.mint_b@,
            bump: self.bump@[0],
            mint_lp_bump: self.mint_lp_bump@[0],
        }
    }
}

/// The bytes of a pool configuration as stored in its account.
pub open spec fn pool_bytes(v: PoolView) -> Seq<u8> {
    v.amm + v.mint_a + v.mint_b + seq![v.bump, v.mint_lp_bump]
}

/// The pool configuration that account bytes hold.
pub open spec fn pool_of(s: Seq<u8>) -> PoolView {
    PoolView {
        amm: s.subrange(0, 32),
        mint_a: s.subrange(32, 64),
        mint_b: s.subrange(64, 96),
        bump: s[96],
        mint_lp_bump: s[97],
    }
}

/// What loading a pool configuration from an account gives.
pub open spec fn load_pool_result(account: AccountState) -> Result<PoolView, ProgramError> {
    if account.data@.len() != POOL_LEN {
        Err(ProgramError::InvalidInstructionData)
    } else if account.owner@ != program_id_bytes() {
        Err(ProgramError::InvalidAccountData)
    } else {
        Ok(pool_of(account.data@))
    }
}

impl AmmConfig {
    /// Length of the configuration's account data.
    pub const LEN: usize = 72;

    /// Reads a configuration from its account bytes.
    pub fn from_bytes(data: &[u8]) -> (r: AmmConfig)
        requires
            data@.len() == AMM_CONFIG_LEN,
        ensures
            r@ == amm_config_of(data@),
    {
        let creator = read_address(data, 0);
        let admin = read_address(data, 32);
        let id = read_le(data, 64, 4);
        let fee = read_le(data, 68, 2);
        proof {
            lemma_pow256_values();
        }
        let r = AmmConfig {
            creator,
            admin,
            id: id as u32,
            fee: fee as u16,
            paused: data[70],
            bump: [data[71]],
        };
        r
    }

    /// The configuration's account bytes.
    pub fn to_bytes(&self) -> (r: Vec<u8>)
        ensures
            r@ == amm_config_bytes(self@),
            r@.len() == AMM_CONFIG_LEN,
    {
        let mut out: Vec<u8> = Vec::new();
        write_address(&mut out, &self.creator);
        write_address(&mut out, &self.admin);
        write_le(&mut out, self.id as u64, 4);
        write_le(&mut out, self.fee as u64, 2);
        out.push(self.paused);
        out.push(self.bump[0]);
        proof {
            lemma_le_bytes_len(self.id as nat, 4);
            lemma_le_bytes_len(self.fee as nat, 2);
            assert(out@ =~= amm_config_bytes(self@));
        }
        out
    }

    /// Loads the configuration held by an account of this program.
    pub fn load_amm(account: &AccountState) -> (r: Result<AmmConfig, ProgramError>)
        ensures
            match load_amm_result(*account) {
                Ok(v) => r matches Ok(c) && c@ == v,
                Err(e) => r == Err::<AmmConfig, ProgramError>(e),
            },
    {
        if account.data.len() != AMM_CONFIG_LEN {
            return Err(ProgramError::InvalidInstructionData);
        }
        let id = program_id();
        if !account.owner.equals(&id) {
            return Err(ProgramError::InvalidAccountData);
        }
        Ok(AmmConfig::from_bytes(account.data.as_slice()))
    }

    /// Loads the configuration of an account that is about to be
    /// rewritten; the same checks as `load_amm`.
    pub fn load_amm_mut(account: &AccountState) -> (r: Result<AmmConfig, ProgramError>)
        ensures
            match load_amm_result(*account) {
                Ok(v) => r matches Ok(c) && c@ == v,
                Err(e) => r == Err::<AmmConfig, ProgramError>(e),
            },
    {
        AmmConfig::load_amm(account)
    }

    /// Writes the configuration into an account's data.
    pub fn store(&self, account: &mut AccountState)
        ensures
            final(account).data@ == amm_config_bytes(self@),
            *final(account) == (AccountState { data: final(account).data, ..*old(account) }),
    {
        account.data = self.to_bytes();
    }

    pub fn get_creator(&self) -> (r: &Address)
        ensures
            r@ == self@.creator,
    {
        &self.creator
    }

    pub fn get_admin(&self) -> (r: &Address)
        ensures
            r@ == self@.admin,
    {
        &self.admin
    }

    pub fn get_id(&self) -> (r: u32)
        ensures
            r == self@.id,
    {
        self.id
    }

    pub fn get_fee(&self) -> (r: u16)
        ensures
            r == self@.fee,
    {
        self.fee
    }

    pub fn get_paused(&self) -> (r: u8)
        ensures
            r == self@.paused,
    {
        self.paused
    }

    pub fn get_bump(&self) -> (r: [u8; 1])
        ensures
            r@[0] == self@.bump,
    {
        self.bump
    }

    pub fn set_admin(&mut self, admin: Address)
        ensures
            final(self)@ == (AmmConfigView { admin: admin@, ..old(self)@ }),
    {
        self.admin = admin;
    }

    pub fn set_id(&mut self, id: u32)
        ensures
            final(self)@ == (AmmConfigView { id, ..old(self)@ }),
    {
        self.id = id;
    }

    pub fn set_fee(&mut self, fee: u16)
        ensures
            final(self)@ == (AmmConfigView { fee, ..old(self)@ }),
    {
        self.fee = fee;
    }

    pub fn set_paused(&mut self, paused: u8)
        ensures
            final(self)@ == (AmmConfigView { paused, ..old(self)@ }),
    {
        self.paused = paused;
    }

    pub fn set_bump(&mut self, bump: [u8; 1])
        ensures
            final(self)@ == (AmmConfigView { bump: bump@[0], ..old(self)@ }),
    {
        self.bump = bump;
    }

    pub fn set_all(&mut self, creator: Address, admin: Address, id: u32, fee: u16, paused: u8, bump: [u8; 1])
        ensures
            final(self)@ == (AmmConfigView { creator: creator@, admin: admin@, id, fee, paused, bump: bump@[0] }),
    {
        self.creator = creator;
        self.admin = admin;
        self.id = id;
        self.fee = fee;
        self.paused = paused;
        self.bump = bump;
    }
}

impl Pool {
    /// Length of the pool configuration's account data.
    pub const LEN: usize = 98;

    /// Reads a pool configuration from its account bytes.
    pub fn from_bytes(data: &[u8]) -> (r: Pool)
        requires
            data@.len() == POOL_LEN,
        ensures
            r@ == pool_of(data@),
    {
        let amm = read_address(data, 0);
        let mint_a = read_address(data, 32);
        let mint_b = read_address(data, 64);
        Pool { amm, mint_a, mint_b, bump: [data[96]], mint_lp_bump: [data[97]] }
    }

    /// The pool configuration's account bytes.
    pub fn to_bytes(&self) -> (r: Vec<u8>)
        ensures
            r@ == pool_bytes(self@),
            r@.len() == POOL_LEN,
    {
        let mut out: Vec<u8> = Vec::new();
        write_address(&mut out, &self.amm);
        write_address(&mut out, &self.mint_a);
        write_address(&mut out, &self.mint_b);
        out.push(self.bump[0]);
        out.push(self.mint_lp_bump[0]);
        assert(out@ =~= pool_bytes(self@));
        out
    }

    /// Loads the pool configuration held by an account of this program.
    pub fn load_pool(account: &AccountState) -> (r: Result<Pool, ProgramError>)
        ensures
            match load_pool_result(*account) {
                Ok(v) => r matches Ok(p) && p@ == v,
                Err(e) => r == Err::<Pool, ProgramError>(e),
            },
    {
        if account.data.len() != POOL_LEN {
            return Err(ProgramError::InvalidInstructionData);
        }
        let id = program_id();
        if !account.owner.equals(&id) {
            return Err(ProgramError::InvalidAccountData);
        }
        Ok(Pool::from_bytes(account.data.as_slice()))
    }

    /// Loads the pool configuration of an account that is about to be
    /// rewritten; the same checks as `load_pool`.
    pub fn load_pool_mut(account: &AccountState) -> (r: Result<Pool, ProgramError>)
        ensures
            match load_pool_result(*account) {
                Ok(v) => r matches Ok(p) && p@ == v,
                Err(e) => r == Err::<Pool, ProgramError>(e),
            },
    {
        Pool::load_pool(account)
    }

    /// Writes the pool configuration into an account's data.
    pub fn store(&self, account: &mut AccountState)
        ensures
            final(account).data@ == pool_bytes(self@),
            *final(account) == (AccountState { data: final(account).data, ..*old(account) }),
    {
        account.data = self.to_bytes();
    }

    pub fn get_amm(&self) -> (r: &Address)
        ensures
            r@ == self@.amm,
    {
        &self.amm
    }

    pub fn get_mint_a(&self) -> (r: &Address)
        ensures
            r@ == self@.mint_a,
    {
        &self.mint_a
    }

    pub fn get_mint_b(&self) -> (r: &Address)
        ensures
            r@ == self@.mint_b,
    {
        &self.mint_b
    }

    pub fn get_bump(&self) -> (r: [u8; 1])
        ensures
            r@[0] == self@.bump,
    {
        self.bump
    }

    pub fn get_mint_lp_bump(&self) -> (r: [u8; 1])
        ensures
            r@[0] == self@.mint_lp_bump,
    {
        self.mint_lp_bump
    }

    pub fn set_amm(&mut self, amm: Address)
        ensures
            final(self)@ == (PoolView { amm: amm@, ..old(self)@ }),
    {
        self.amm = amm;
    }

    pub fn set_mint_a(&mut self, mint_a: Address)
        ensures
            final(self)@ == (PoolView { mint_a: mint_a@, ..old(self)@ }),
    {
        self.mint_a = mint_a;
    }

    pub fn set_mint_b(&mut self, mint_b: Address)
        ensures
            final(self)@ == (PoolView { mint_b: mint_b@, ..old(self)@ }),
    {
        self.mint_b = mint_b;
    }

    pub fn set_bump(&mut self, bump: [u8; 1])
        ensures
            final(self)@ == (PoolView { bump: bump@[0], ..old(self)@ }),
    {
        self.bump = bump;
    }

    pub fn set_mint_lp_bump(&mut self, mint_lp_bump: [u8; 1])
        ensures
            final(self)@ == (PoolView { mint_lp_bump: mint_lp_bump@[0], ..old(self)@ }),
    {
        self.mint_lp_bump = mint_lp_bump;
    }

    pub fn set_all(&mut self, amm: Address, mint_a: Address, mint_b: Address, bump: [u8; 1], mint_lp_bump: [u8; 1])
        ensures
            final(self)@ == (PoolView {
                amm: amm@,
                mint_a: mint_a@,
                mint_b: mint_b@,
                bump: bump@[0],
                mint_lp_bump: mint_lp_bump@[0],
            }),
    {
        self.amm = amm;
        self.mint_a = mint_a;
        self.mint_b = mint_b;
        self.bump = bump;
        self.mint_lp_bump = mint_lp_bump;
    }
}

/// Reading back the bytes of a stored AMM configuration gives the same
/// configuration.
pub proof fn lemma_amm_config_roundtrip(v: AmmConfigView)
    requires
        v.creator.len() == 32,
        v.admin.len() == 32,
    ensures
        amm_config_bytes(v).len() == AMM_CONFIG_LEN,
        amm_config_of(amm_config_bytes(v)) == v,
{
    let s = amm_config_bytes(v);
    lemma_le_bytes_len(v.id as nat, 4);
    lemma_le_bytes_len(v.fee as nat, 2);
    lemma_pow256_values();
    lemma_le_value_of_bytes(v.id as nat, 4);
    lemma_le_value_of_bytes(v.fee as nat, 2);
    assert(s.subrange(0, 32) =~= v.creator);
    assert(s.subrange(32, 64) =~= v.admin);
    assert(s.subrange(64, 68) =~= le_bytes(v.id as nat, 4));
    assert(s.subrange(68, 70) =~= le_bytes(v.fee as nat, 2));
}

/// Storing the configuration read from account bytes of the right length
/// gives those bytes back.
pub proof fn lemma_amm_bytes_roundtrip(s: Seq<u8>)
    requires
        s.len() == AMM_CONFIG_LEN,
    ensures
        amm_config_bytes(amm_config_of(s)) == s,
{
    let v = amm_config_of(s);
    lemma_le_value_bound(s.subrange(64, 68));
    lemma_le_value_bound(s.subrange(68, 70));
    lemma_pow256_values();
    lemma_le_bytes_of_value(s.subrange(64, 68));
    lemma_le_bytes_of_value(s.subrange(68, 70));
    assert(amm_config_bytes(v) =~= s);
}

/// Reading back the bytes of a stored pool configuration gives the same
/// configuration.
pub proof fn lemma_pool_roundtrip(v: PoolView)
    requires
        v.amm.len() == 32,
        v.mint_a.len() == 32,
        v.mint_b.len() == 32,
    ensures
        pool_bytes(v).len() == POOL_LEN,
        pool_of(pool_bytes(v)) == v,
{
    let s = pool_bytes(v);
    assert(s.subrange(0, 32) =~= v.amm);
    assert(s.subrange(32, 64) =~= v.mint_a);
    assert(s.subrange(64, 96) =~= v.mint_b);
}

/// Storing the pool configuration read from account bytes of the right
/// length gives those bytes back.
pub proof fn lemma_pool_bytes_roundtrip(s: Seq<u8>)
    requires
        s.len() == POOL_LEN,
    ensures
        pool_bytes(pool_of(s)) == s,
{
    assert(pool_bytes(pool_of(s)) =~= s);
}

} // verus!
