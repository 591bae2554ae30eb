use vstd::prelude::*;

verus! {

/// The accounts that take part in a pool request.
#[derive(Clone, Copy, Debug, PartialEq, Eq, Structural)]
pub enum Role {
    /// The user who sends the request.
    Signer,
    /// The user's token account for the pool's first token.
    UserX,
    /// The user's token account for the pool's second token.
    UserY,
    /// The user's token account for the pool's liquidity token.
    UserLp,
    /// The pool's vault of the first token.
    VaultX,
    /// The pool's vault of the second token.
    VaultY,
    /// The mint of the pool's liquidity token.
    MintLp,
    /// The pool's configuration account, which owns the vaults and the
    /// liquidity mint and signs with its seeds.
    Config,
}

/// One call into the token program.
#[derive(Clone, Copy, Debug, PartialEq, Eq, Structural)]
pub enum TokenAction {
    Transfer { from: Role, to: Role, authority: Role, amount: u64 },
    MintTo { mint: Role, to: Role, authority: Role, amount: u64 },
    Burn { mint: Role, from: Role, authority: Role, amount: u64 },
}

/// Token amounts of the pool's two sides, as the pool's curve quotes them.
#[derive(Clone, Copy, Debug, PartialEq, Eq, Structural)]
pub struct XYAmounts {
    pub x: u64,
    pub y: u64,
}

/// The outcome of a swap on the pool's curve: what the user pays in and
/// what the pool pays out.
#[derive(Clone, Copy, Debug, PartialEq, Eq, Structural)]
pub struct SwapQuote {
    pub deposit: u64,
    pub withdraw: u64,
}

/// The user's token account on the given side of the pool.
pub open spec fn user_account(is_x: bool) -> Role {
    if is_x { Role::UserX } else { Role::UserY }
}

/// The pool's vault on the given side of the pool.
pub open spec fn vault_account(is_x: bool) -> Role {
    if is_x { Role::VaultX } else { Role::VaultY }
}

/// A payment of `amount` from the user into the vault of one side, which
/// the user signs.
pub open spec fn pay_in(is_x: bool, amount: u64) -> TokenAction {
    TokenAction::Transfer {
        from: user_account(is_x),
        to: vault_account(is_x),
        authority: Role::Signer,
        amount,
    }
}

/// A payment of `amount` from the vault of one side to the user, which the
/// configuration account signs.
pub open spec fn pay_out(is_x: bool, amount: u64) -> TokenAction {
    TokenAction::Transfer {
        from: vault_account(is_x),
        to: user_account(is_x),
        authority: Role::Config,
        amount,
    }
}

/// Minting `amount` liquidity tokens to the user, signed by the
/// configuration account.
pub open spec fn mint_lp(amount: u64) -> TokenAction {
    TokenAction::MintTo { mint: Role::MintLp, to: Role::UserLp, authority: Role::Config, amount }
}

/// Burning `amount` of the user's liquidity tokens, signed by the user.
pub open spec fn burn_lp(amount: u64) -> TokenAction {
    TokenAction::Burn { mint: Role::MintLp, from: Role::UserLp, authority: Role::Signer, amount }
}

/// A user account: tokens leave it only with the user's signature.
pub open spec fn is_user_side(r: Role) -> bool {
    r == Role::UserX || r == Role::UserY || r == Role::UserLp
}

/// A pool account: tokens leave it only with the configuration's signature.
pub open spec fn is_pool_side(r: Role) -> bool {
    r == Role::VaultX || r == Role::VaultY || r == Role::MintLp
}

/// Each action is signed by the owner of the account it takes from: the
/// user for user accounts, the configuration account for the vaults and
/// the liquidity mint.
pub open spec fn signed_by_owner(a: TokenAction) -> bool {
    match a {
        TokenAction::Transfer { from, to, authority, amount } =>
            (is_user_side(from) && authority == Role::Signer && is_pool_side(to))
            || (is_pool_side(from) && authority == Role::Config && is_user_side(to)),
        TokenAction::MintTo { mint, to, authority, amount } =>
            mint == Role::MintLp && authority == Role::Config && is_user_side(to),
        TokenAction::Burn { mint, from, authority, amount } =>
            mint == Role::MintLp && authority == Role::Signer && is_user_side(from),
    }
}

/// The view of a request's outcome: the actions as a sequence, or the error.
pub open spec fn outcome_view(r: Result<Vec<TokenAction>, crate::error::ErrorCode>) -> Result<
    Seq<TokenAction>,
    crate::error::ErrorCode,
> {
    match r {
        Ok(v) => Ok(v@),
        Err(e) => Err(e),
    }
}

pub(crate) fn transfer_in(is_x: bool, amount: u64) -> (a: TokenAction)
    ensures
        a == pay_in(is_x, amount),
{
    if is_x {
        TokenAction::Transfer { from: Role::UserX, to: Role::VaultX, authority: Role::Signer, amount }
    } else {
        TokenAction::Transfer { from: Role::UserY, to: Role::VaultY, authority: Role::Signer, amount }
    }
}

pub(crate) fn transfer_out(is_x: bool, amount: u64) -> (a: TokenAction)
    ensures
        a == pay_out(is_x, amount),
{
    if is_x {
        TokenAction::Transfer { from: Role::VaultX, to: Role::UserX, authority: Role::Config, amount }
    } else {
        TokenAction::Transfer { from: Role::VaultY, to: Role::UserY, authority: Role::Config, amount }
    }
}

} // verus!
