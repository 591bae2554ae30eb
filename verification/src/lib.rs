//! Decision logic of a constant-product liquidity pool: the checks that
//! guard deposits, withdrawals, swaps and pool locking, and the exact
//! sequence of token-program actions each accepted request performs.
//!
//! The pool's curve arithmetic is not computed here: the amounts it yields
//! are handed to the request handlers as quotes, and every handler is
//! verified for every quote.

pub mod actions;
pub mod error;
pub mod instructions;
pub mod laws;
pub mod state;

pub use actions::{Role, SwapQuote, TokenAction, XYAmounts};
pub use error::ErrorCode;
pub use instructions::deposit::Deposit;
pub use instructions::initialize::initialize;
pub use instructions::lock::Lock;
pub use instructions::swap::Swap;
pub use instructions::withdraw::Withdraw;
pub use state::{Address, Config};
