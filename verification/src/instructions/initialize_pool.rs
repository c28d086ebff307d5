use vstd::prelude::*;
use crate::errors::{AmmError, ProgramError};
use crate::key::Key;
use crate::pda::{
    authority_tag, authority_tag_bytes, check_seeds, lp_mint_tag, lp_mint_tag_bytes,
    pool_child_seed_vec, pool_child_seeds, pool_seeds, pool_seeds_of, program_address, reserve_a_tag,
    reserve_a_tag_bytes, reserve_b_tag, reserve_b_tag_bytes, seeds_check,
};
use crate::state::Pool;

verus! {

/// The accounts that creating a pool names: the two mints, the pool, the
/// liquidity mint, the two reserves, the authority that will sign for the
/// reserves, and the payer.
#[derive(Clone, Copy, Debug, PartialEq, Eq)]
pub struct Initialize {
    pub mint_a: Key,
    pub mint_b: Key,
    pub pool: Key,
    pub lp_mint: Key,
    pub token_reserve_a: Key,
    pub token_reserve_b: Key,
    pub pool_authority: Key,
    pub signer: Key,
}

/// The bump seeds of the program addresses that creating a pool checks.
#[derive(Clone, Copy, Debug, PartialEq, Eq)]
pub struct InitializeBumps {
    pub pool: u8,
    pub lp_mint: u8,
    pub token_reserve_a: u8,
    pub token_reserve_b: u8,
    pub pool_authority: u8,
}

impl Initialize {
    /// The outcome of the account checks, in the order of the accounts: the
    /// pool, the liquidity mint, the two reserves and the authority must each
    /// be the program address of its seeds.
    pub open spec fn accounts_check(self, program_id: Seq<u8>) -> Result<InitializeBumps, ProgramError> {
        match seeds_check(self.pool@, pool_seeds_of(self.mint_a@, self.mint_b@), program_id) {
            Err(e) => Err(e),
            Ok(pool) => match seeds_check(self.lp_mint@, pool_child_seeds(lp_mint_tag(), self.pool@), program_id) {
                Err(e) => Err(e),
                Ok(lp_mint) => match seeds_check(self.token_reserve_a@, pool_child_seeds(reserve_a_tag(), self.pool@), program_id) {
                    Err(e) => Err(e),
                    Ok(token_reserve_a) => match seeds_check(self.token_reserve_b@, pool_child_seeds(reserve_b_tag(), self.pool@), program_id) {
                        Err(e) => Err(e),
                        Ok(token_reserve_b) => match seeds_check(self.pool_authority@, pool_child_seeds(authority_tag(), self.pool@), program_id) {
                            Err(e) => Err(e),
                            Ok(pool_authority) => Ok(InitializeBumps { pool, lp_mint, token_reserve_a, token_reserve_b, pool_authority }),
                        },
                    },
                },
            },
        }
    }

    /// The pool that creating it with `fee` records, where the fee is allowed.
    pub open spec fn new_pool(self, bumps: InitializeBumps, fee: u16) -> Pool {
        Pool {
            fee_bps: fee,
            mint_a: self.mint_a,
            mint_b: self.mint_b,
            token_reserve_a: self.token_reserve_a,
            token_reserve_b: self.token_reserve_b,
            lp_mint: self.lp_mint,
            sign_authority_bump: bumps.pool_authority,
        }
    }

    /// Checks the accounts against the seeds they must derive from, and gives
    /// the bump seeds.
    pub fn try_accounts(&self, program_id: &Key) -> (r: Result<InitializeBumps, ProgramError>)
        ensures
            r == self.accounts_check(program_id@),
            r matches Ok(b) ==> {
                &&& program_address(pool_seeds_of(self.mint_a@, self.mint_b@), program_id@) == Some((self.pool@, b.pool))
                &&& program_address(pool_child_seeds(lp_mint_tag(), self.pool@), program_id@) == Some((self.lp_mint@, b.lp_mint))
                &&& program_address(pool_child_seeds(reserve_a_tag(), self.pool@), program_id@) == Some((self.token_reserve_a@, b.token_reserve_a))
                &&& program_address(pool_child_seeds(reserve_b_tag(), self.pool@), program_id@) == Some((self.token_reserve_b@, b.token_reserve_b))
                &&& program_address(pool_child_seeds(authority_tag(), self.pool@), program_id@) == Some((self.pool_authority@, b.pool_authority))
            },
    {
        let pool = match check_seeds(&self.pool, &pool_seeds(&self.mint_a, &self.mint_b), program_id) {
            Err(e) => return Err(e),
            Ok(b) => b,
        };
        let lp_mint = match check_seeds(&self.lp_mint, &pool_child_seed_vec(lp_mint_tag_bytes(), &self.pool), program_id) {
            Err(e) => return Err(e),
            Ok(b) => b,
        };
        let token_reserve_a = match check_seeds(&self.token_reserve_a, &pool_child_seed_vec(reserve_a_tag_bytes(), &self.pool), program_id) {
            Err(e) => return Err(e),
            Ok(b) => b,
        };
        let token_reserve_b = match check_seeds(&self.token_reserve_b, &pool_child_seed_vec(reserve_b_tag_bytes(), &self.pool), program_id) {
            Err(e) => return Err(e),
            Ok(b) => b,
        };
        let pool_authority = match check_seeds(&self.pool_authority, &pool_child_seed_vec(authority_tag_bytes(), &self.pool), program_id) {
            Err(e) => return Err(e),
            Ok(b) => b,
        };
        Ok(InitializeBumps { pool, lp_mint, token_reserve_a, token_reserve_b, pool_authority })
    }
}

/// Creates the pool's record: refuses a fee above 10000 basis points, and
/// otherwise records the fee, the accounts and the authority's bump seed.
pub fn handler(ctx: &Initialize, bumps: &InitializeBumps, fee: u16) -> (r: Result<Pool, AmmError>)
    ensures
        fee > 10000 ==> r == Err::<Pool, AmmError>(AmmError::InvalidFee),
        fee <= 10000 ==> r == Ok::<Pool, AmmError>(ctx.new_pool(*bumps, fee)),
        r matches Ok(pool) ==> {
            &&& pool.fee_bps == fee
            &&& pool.mint_a == ctx.mint_a
            &&& pool.mint_b == ctx.mint_b
            &&& pool.token_reserve_a == ctx.token_reserve_a
            &&& pool.token_reserve_b == ctx.token_reserve_b
            &&& pool.lp_mint == ctx.lp_mint
            &&& pool.sign_authority_bump == bumps.pool_authority
        },
{
    if !(fee <= 10000) {
        return Err(AmmError::InvalidFee);
    }
    Ok(Pool {
        fee_bps: fee,
        mint_a: ctx.mint_a,
        mint_b: ctx.mint_b,
        token_reserve_a: ctx.token_reserve_a,
        token_reserve_b: ctx.token_reserve_b,
        lp_mint: ctx.lp_mint,
        sign_authority_bump: bumps.pool_authority,
    })
}

} // verus!
