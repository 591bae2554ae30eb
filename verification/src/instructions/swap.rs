use vstd::prelude::*;

use crate::actions::{SwapQuote, TokenAction, outcome_view, pay_in, pay_out, transfer_in, transfer_out};
use crate::error::ErrorCode;
use crate::state::Config;

verus! {

/// What a swap reads of the pool: its configuration (with the fee), the
/// supply of liquidity tokens and the balances of the two vaults.
#[derive(Clone, Copy, Debug)]
pub struct Swap {
    pub config: Config,
    pub lp_supply: u64,
    pub vault_x: u64,
    pub vault_y: u64,
}

/// The actions of an accepted swap: the user pays `paid` of the token on
/// side `is_x` into its vault and receives `received` of the other token.
pub open spec fn swap_actions(is_x: bool, paid: u64, received: u64) -> Seq<TokenAction> {
    seq![pay_in(is_x, paid), pay_out(!is_x, received)]
}

impl Swap {
    /// The swap passes the checks that come before any amount is computed:
    /// only then is the trade taken from the curve.
    pub open spec fn quote_needed(self, amount_in: u64) -> bool {
        !self.config.locked && amount_in != 0
    }

    /// The outcome of paying `amount_in` of the token on side `is_x` for at
    /// least `min_amount_out` of the other, where `quote` is the trade the
    /// curve makes of it at the pool's current balances.
    pub open spec fn swap_outcome(
        self,
        is_x: bool,
        amount_in: u64,
        min_amount_out: u64,
        quote: Option<SwapQuote>,
    ) -> Result<Seq<TokenAction>, ErrorCode> {
        if self.config.locked {
            Err(ErrorCode::PoolLocked)
        } else if amount_in == 0 {
            Err(ErrorCode::InvalidAmount)
        } else if quote.unwrap().withdraw >= min_amount_out {
            Ok(swap_actions(is_x, quote.unwrap().deposit, quote.unwrap().withdraw))
        } else {
            Err(ErrorCode::SlippageExceeded)
        }
    }

    pub fn quote_needed_for(&self, amount_in: u64) -> (r: bool)
        ensures
            r == self.quote_needed(amount_in),
    {
        !self.config.locked && amount_in != 0
    }

    /// Decides a swap and returns the token-program calls that carry it
    /// out, in order.
    pub fn swap(
        &self,
        is_x: bool,
        amount_in: u64,
        min_amount_out: u64,
        quote: Option<SwapQuote>,
    ) -> (r: Result<Vec<TokenAction>, ErrorCode>)
        requires
            self.quote_needed(amount_in) ==> quote is Some,
        ensures
            outcome_view(r) == self.swap_outcome(is_x, amount_in, min_amount_out, quote),
    {
        if self.config.locked {
            return Err(ErrorCode::PoolLocked);
        }
        if amount_in == 0 {
            return Err(ErrorCode::InvalidAmount);
        }
        let trade = quote.unwrap();
        if trade.withdraw < min_amount_out {
            return Err(ErrorCode::SlippageExceeded);
        }
        let mut actions: Vec<TokenAction> = Vec::new();
        actions.push(self.deposit_tokens(is_x, trade.deposit));
        actions.push(self.withdraw_tokens(!is_x, trade.withdraw));
        assert(actions@ =~= swap_actions(is_x, trade.deposit, trade.withdraw));
        Ok(actions)
    }

    /// The payment of `amount` of one token from the user into its vault.
    pub fn deposit_tokens(&self, is_x: bool, amount: u64) -> (a: TokenAction)
        ensures
            a == pay_in(is_x, amount),
    {
        transfer_in(is_x, amount)
    }

    /// The payment of `amount` of one token from its vault to the user.
    pub fn withdraw_tokens(&self, is_x: bool, amount: u64) -> (a: TokenAction)
        ensures
            a == pay_out(is_x, amount),
    {
        transfer_out(is_x, amount)
    }
}

} // verus!
