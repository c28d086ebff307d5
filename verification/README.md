# enswap_amm

A constant-product automated market maker for two SPL tokens, written in
Verus. The library decides; the on-chain program in `app/` reads the
accounts, asks the library, and has the token program carry out the
transfers and burns it returns.

- `src/key.rs`: account addresses as 32 plain bytes.
- `src/errors.rs`: the pool's errors, their numbers and messages, and the
  refusals of the account checks.
- `src/state.rs`: the pool's record.
- `src/math.rs`: the fee, constant-product and pro-rata arithmetic.
- `src/pda.rs`: the seeds of the pool's accounts, the program-address
  derivation through `Pubkey::try_find_program_address`, and and the
  associated-token-account addresses derived the same way.
- `src/accounts.rs`: what the rules read of token accounts and mints, and
  the token operations they ask for.
- `src/instructions/`: each instruction's account checks and handler.
- `src/enswap_amm.rs`: the instructions as the program runs them: the
  account checks, then the handler.
- `src/laws.rs`: the properties that hold across the instructions: swaps
  keep the product of the reserves, a round trip never returns more than
  was put in, payouts stay within the reserves, withdrawals keep the value
  of the remaining liquidity tokens and grow with the tokens burnt, and
  checked accounts are the pool's own and the signer's.
