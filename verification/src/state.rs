use vstd::prelude::*;
use crate::key::Key;

verus! {

/// The bytes that a pool account takes: the 8-byte account discriminator,
/// the fee, five addresses and the authority's bump seed.
pub const POOL_ACCOUNT_SPACE: usize = 8 + 2 + 32 + 32 + 32 + 32 + 32 + 1;

/// The highest fee a pool may charge, in basis points (all of the input).
pub const MAX_FEE_BPS: u16 = 10000;

/// What a pool records: its fee in basis points, the two token mints, the
/// two reserve accounts, the liquidity token's mint and the bump seed of the
/// authority that signs for the reserves.
#[derive(Clone, Copy, Debug, PartialEq, Eq)]
pub struct Pool {
    pub fee_bps: u16,
    pub mint_a: Key,
    pub mint_b: Key,
    pub token_reserve_a: Key,
    pub token_reserve_b: Key,
    pub lp_mint: Key,
    pub sign_authority_bump: u8,
}

} // verus!
