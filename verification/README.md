# bonding_curve

The logic of a Solana token launchpad whose tokens trade on a bonding curve,
verified with Verus.

- `src/` is the verified library: the curve's state (`state.rs`), the checks
  and settlement of buys and sells (`trade.rs`), setting a new curve up
  (`launch.rs`, `program.rs`), migrating a completed curve to a pool
  (`migrate.rs`, with the pool program's tick math behind `tick.rs`), and the
  program's errors (`error.rs`).
- `app/` is the Anchor program around it: account validation, transfers,
  token metadata, events, the clock, the pool creation, and the curve's
  floating-point pricing.
- `tests/` runs the library on concrete values.
