//! A constant-product automated market maker for two SPL tokens: the pool
//! rules, the swap and withdrawal arithmetic, the account checks and the
//! program-address derivations, each with its contract.
pub mod errors;
pub mod key;
pub mod state;
pub mod math;
pub mod laws;
pub mod pda;
pub mod accounts;
pub mod instructions;
pub mod enswap_amm;
