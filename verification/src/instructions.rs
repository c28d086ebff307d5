pub mod initialize_pool;
pub mod swap;
pub mod withdraw_liquidity;
