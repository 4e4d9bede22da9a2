# Constant-product AMM, verified

A constant-product automated market maker for two tokens, written as a
Solana program. `src/` is the library verified with Verus: instruction
decoding, account validation, the byte layout of the program's accounts,
program-derived addresses, and the pool arithmetic (deposits, withdrawals,
swaps), each with a contract, plus proofs of the properties that span
them (`src/laws.rs`, and the lemmas of `src/math.rs` and `src/state.rs`).
`app/` is the program around it: the entrypoint, reading the runtime's
accounts and token balances, the cross-program invocations, and writing
account data back.

Pausing an AMM stops deposits, pool creation and swaps. The first deposit
of a pool mints the square root of the product of the two amounts, less a
locked minimum; a later deposit mints its share of the total liquidity (LP
supply plus the locked minimum). The swap fee stays in the pool.
