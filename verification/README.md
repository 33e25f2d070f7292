# pump

A bonding-curve token launchpad whose pricing and checks are verified with Verus.

- `src/` — the verified library: the curve state and its constant-product
  buy/sell pricing (`state/bonding_curve.rs`), the properties every trade
  keeps (`state/curve_laws.rs`), the global configuration and the raw
  readers of its account bytes (`state/global_config.rs`), the decisions of
  the launch and sell instructions (`instructions/`), and the input checks
  for token metadata and minting (`utils/`).
- `app/` — the on-chain program: account definitions, instruction handlers,
  and the cross-program calls that move SOL and tokens and create metadata.
- `tests/` — unit tests of the library.
