use vstd::prelude::*;

use crate::actions::{
    Role, TokenAction, XYAmounts, burn_lp, outcome_view, pay_out, transfer_out,
};
use crate::error::ErrorCode;
use crate::state::Config;

verus! {

/// What a withdrawal reads of the pool: its configuration, the supply of
/// liquidity tokens and the balances of the two vaults.
#[derive(Clone, Copy, Debug)]
pub struct Withdraw {
    pub config: Config,
    pub lp_supply: u64,
    pub vault_x: u64,
    pub vault_y: u64,
}

/// The actions of an accepted withdrawal: the user's `lp` liquidity tokens
/// are burnt and the vaults pay out `x` and `y`.
pub open spec fn withdraw_actions(lp: u64, x: u64, y: u64) -> Seq<TokenAction> {
    seq![burn_lp(lp), pay_out(true, x), pay_out(false, y)]
}

impl Withdraw {
    /// The withdrawal passes the checks that come before any amount is
    /// computed: only then are the amounts to pay out taken from the curve.
    pub open spec fn quote_needed(self, amount: u64) -> bool {
        !self.config.locked && amount != 0
    }

    /// The outcome of burning `amount` liquidity tokens for at least
    /// `min_x` and `min_y`, where `quote` is what the curve pays for
    /// `amount` at the pool's current balances.
    pub open spec fn withdraw_outcome(
        self,
        amount: u64,
        min_x: u64,
        min_y: u64,
        quote: Option<XYAmounts>,
    ) -> Result<Seq<TokenAction>, ErrorCode> {
        if self.config.locked {
            Err(ErrorCode::PoolLocked)
        } else if amount == 0 {
            Err(ErrorCode::InvalidAmount)
        } else if quote.unwrap().x >= min_x && quote.unwrap().y >= min_y {
            Ok(withdraw_actions(amount, quote.unwrap().x, quote.unwrap().y))
        } else {
            Err(ErrorCode::SlippageExceeded)
        }
    }

    pub fn quote_needed_for(&self, amount: u64) -> (r: bool)
        ensures
            r == self.quote_needed(amount),
    {
        !self.config.locked && amount != 0
    }

    /// Decides a withdrawal of `amount` liquidity tokens and returns the
    /// token-program calls that carry it out, in order.
    pub fn withdraw(&self, amount: u64, min_x: u64, min_y: u64, quote: Option<XYAmounts>) -> (r:
        Result<Vec<TokenAction>, ErrorCode>)
        requires
            self.quote_needed(amount) ==> quote is Some,
        ensures
            outcome_view(r) == self.withdraw_outcome(amount, min_x, min_y, quote),
    {
        if self.config.locked {
            return Err(ErrorCode::PoolLocked);
        }
        if amount == 0 {
            return Err(ErrorCode::InvalidAmount);
        }
        let amounts = quote.unwrap();
        if !(amounts.x >= min_x && amounts.y >= min_y) {
            return Err(ErrorCode::SlippageExceeded);
        }
        let (x, y) = (amounts.x, amounts.y);
        let mut actions: Vec<TokenAction> = Vec::new();
        actions.push(self.burn_lp_tokens(amount));
        actions.push(self.withdraw_tokens(true, x));
        actions.push(self.withdraw_tokens(false, y));
        assert(actions@ =~= withdraw_actions(amount, x, y));
        Ok(actions)
    }

    /// The payment of `amount` of one token from its vault to the user.
    pub fn withdraw_tokens(&self, is_x: bool, amount: u64) -> (a: TokenAction)
        ensures
            a == pay_out(is_x, amount),
    {
        transfer_out(is_x, amount)
    }

    /// The burning of `amount` of the user's liquidity tokens.
    pub fn burn_lp_tokens(&self, amount: u64) -> (a: TokenAction)
        ensures
            a == burn_lp(amount),
    {
        TokenAction::Burn { mint: Role::MintLp, from: Role::UserLp, authority: Role::Signer, amount }
    }
}

} // verus!
