use vstd::prelude::*;

use crate::actions::{
    Role, TokenAction, XYAmounts, mint_lp, outcome_view, pay_in, transfer_in,
};
use crate::error::ErrorCode;
use crate::state::Config;

verus! {

/// What a deposit reads of the pool: its configuration, the supply of
/// liquidity tokens and the balances of the two vaults.
#[derive(Clone, Copy, Debug)]
pub struct Deposit {
    pub config: Config,
    pub lp_supply: u64,
    pub vault_x: u64,
    pub vault_y: u64,
}

/// The actions of an accepted deposit: the user pays `x` and `y` into the
/// vaults and receives `lp` liquidity tokens.
pub open spec fn deposit_actions(x: u64, y: u64, lp: u64) -> Seq<TokenAction> {
    seq![pay_in(true, x), pay_in(false, y), mint_lp(lp)]
}

impl Deposit {
    /// No liquidity has been provided yet.
    pub open spec fn pool_is_empty(self) -> bool {
        self.lp_supply == 0 && self.vault_x == 0 && self.vault_y == 0
    }

    /// The deposit passes the checks that come before any amount is
    /// computed, and the pool already holds liquidity: only then are the
    /// amounts to pay taken from the curve.
    pub open spec fn quote_needed(self, amount: u64) -> bool {
        !self.config.locked && amount != 0 && !self.pool_is_empty()
    }

    /// The outcome of a request for `amount` liquidity tokens, paying at
    /// most `max_x` and `max_y`, where `quote` is what the curve asks for
    /// `amount` at the pool's current balances.
    pub open spec fn deposit_outcome(
        self,
        amount: u64,
        max_x: u64,
        max_y: u64,
        quote: Option<XYAmounts>,
    ) -> Result<Seq<TokenAction>, ErrorCode> {
        if self.config.locked {
            Err(ErrorCode::PoolLocked)
        } else if amount == 0 {
            Err(ErrorCode::InvalidAmount)
        } else if self.pool_is_empty() {
            Ok(deposit_actions(max_x, max_y, amount))
        } else if quote.unwrap().x <= max_x && quote.unwrap().y <= max_y {
            Ok(deposit_actions(quote.unwrap().x, quote.unwrap().y, amount))
        } else {
            Err(ErrorCode::SlippageExceeded)
        }
    }

    pub fn quote_needed_for(&self, amount: u64) -> (r: bool)
        ensures
            r == self.quote_needed(amount),
    {
        !self.config.locked && amount != 0 && !(self.lp_supply == 0 && self.vault_x == 0
            && self.vault_y == 0)
    }

    /// Decides a deposit of `amount` liquidity tokens and returns the
    /// token-program calls that carry it out, in order.
    pub fn deposit(&self, amount: u64, max_x: u64, max_y: u64, quote: Option<XYAmounts>) -> (r:
        Result<Vec<TokenAction>, ErrorCode>)
        requires
            self.quote_needed(amount) ==> quote is Some,
        ensures
            outcome_view(r) == self.deposit_outcome(amount, max_x, max_y, quote),
    {
        if self.config.locked {
            return Err(ErrorCode::PoolLocked);
        }
        if amount == 0 {
            return Err(ErrorCode::InvalidAmount);
        }
        let (x, y) = if self.lp_supply == 0 && self.vault_x == 0 && self.vault_y == 0 {
            (max_x, max_y)
        } else {
            let amounts = quote.unwrap();
            if !(amounts.x <= max_x && amounts.y <= max_y) {
                return Err(ErrorCode::SlippageExceeded);
            }
            (amounts.x, amounts.y)
        };
        let mut actions: Vec<TokenAction> = Vec::new();
        actions.push(self.deposit_tokens(true, x));
        actions.push(self.deposit_tokens(false, y));
        actions.push(self.mint_lp_tokens(amount));
        assert(actions@ =~= deposit_actions(x, y, amount));
        Ok(actions)
    }

    /// The payment of `amount` of one token from the user into its vault.
    pub fn deposit_tokens(&self, is_x: bool, amount: u64) -> (a: TokenAction)
        ensures
            a == pay_in(is_x, amount),
    {
        transfer_in(is_x, amount)
    }

    /// The minting of `amount` liquidity tokens to the user.
    pub fn mint_lp_tokens(&self, amount: u64) -> (a: TokenAction)
        ensures
            a == mint_lp(amount),
    {
        TokenAction::MintTo { mint: Role::MintLp, to: Role::UserLp, authority: Role::Config, amount }
    }
}

} // verus!
