# stablecoin

A collateral-backed stablecoin program, verified with Verus.

- `src/` is the verified library: the arithmetic (`utils`), the accounts
  (`state`), the five instructions (`instructions`) and the properties that
  hold across them (`laws`). The deposit, redemption and liquidation are step
  machines: each step takes a decision and names the next piece of on-chain
  work, or refuses the instruction with an `ErrorCode`.
- `app/` is the Anchor program around it: account validation, the entry
  points, and the on-chain work (lamport transfers, mints, burns, the oracle
  and the clock) that the library's steps ask for.
- `tests/` runs the library on concrete values.
