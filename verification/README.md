# slam

The SLAM token's presale, staking and governance programs, with every
instruction's decision verified in Verus.

- `src/` is the verified library. Each instruction takes the accounts it reads
  and writes as plain values (addresses as `Address`), checks them, and either
  refuses with the program's error, changing nothing, or updates them and
  reports the token movement to perform. Contracts state the outcome exactly
  through spec functions named `*_result` and `*_applied`; the `laws` modules
  prove properties that span instructions (the token allocation and the USD
  hard cap are never exceeded, fair fill, a per-wallet maximum over SOL and
  stable-coin purchases together, claims only after a finalized raise,
  vesting, claims adding up to what vested, single refund, one open stake per
  wallet, unstake once, one vote per voter, penalty conservation, APY and
  split-claim rewards, vote weighting).
  - `presale`: flat-price round, SOL purchases priced by a Pyth quote
    (`pyth-sdk`'s staleness check is the one trusted call), stable-coin
    purchases into escrow, soft-cap finalize or refund, vesting and claims.
  - `staking`: three fixed-APY lock tiers with an early-unstake penalty; one
    open stake per wallet, closed by its unstake.
  - `governance`: stake-weighted proposals with a stake-age snapshot; one
    vote per voter and proposal, and no say for a closed stake.
- `app/` is the Anchor shell: account constraints and storage, clock and
  price-account reads, token transfers and events around the library.
- `tests/` run the library on concrete scenarios.
