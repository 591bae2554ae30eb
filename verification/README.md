# amm

A constant-product liquidity pool, split in two:

- `src/` is the verified library. Each request (deposit, withdraw, swap,
  lock, initialize) is decided by a function whose contract states its
  outcome exactly: the error it is refused with, or the ordered list of
  token-program actions (`TokenAction`) that carry it out. The amounts the
  pool's curve computes are taken as arguments (`XYAmounts`, `SwapQuote`),
  so each decision is verified for every quote. `src/laws.rs` holds the
  properties that span requests: a locked pool refuses everything, limits
  set by the user are never crossed, every token movement is signed by the
  owner of the account it takes from.
- `app/` is the Anchor program: account validation, the curve's
  arithmetic from `constant_product_curve`, and the token-program calls
  that perform the actions the library returns.
- `tests/` runs the library on the pool's scenarios.
