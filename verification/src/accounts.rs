use vstd::prelude::*;
use crate::key::Key;

verus! {

/// What the pool's rules read of a token account: its address, its mint,
/// its owner and its balance.
#[derive(Clone, Copy, Debug, PartialEq, Eq)]
pub struct TokenAccountData {
    pub key: Key,
    pub mint: Key,
    pub owner: Key,
    pub amount: u64,
}

/// What the pool's rules read of a mint: its address and its supply.
#[derive(Clone, Copy, Debug, PartialEq, Eq)]
pub struct MintData {
    pub key: Key,
    pub supply: u64,
}

/// A token transfer for the token program to make: `amount` tokens from
/// the account `from` to the account `to`, under the signature of
/// `authority`.
#[derive(Clone, Copy, Debug, PartialEq, Eq)]
pub struct Transfer {
    pub from: Key,
    pub to: Key,
    pub authority: Key,
    pub amount: u64,
}

/// A burn for the token program to make: `amount` tokens of `mint` taken
/// out of the account `from`, under the signature of `authority`.
#[derive(Clone, Copy, Debug, PartialEq, Eq)]
pub struct Burn {
    pub mint: Key,
    pub from: Key,
    pub authority: Key,
    pub amount: u64,
}

} // verus!
