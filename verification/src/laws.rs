use vstd::prelude::*;
use vstd::bytes::{spec_u64_from_le_bytes, spec_u64_to_le_bytes};

use crate::actions::{
    Role, SwapQuote, TokenAction, XYAmounts, burn_lp, mint_lp, pay_in, pay_out, signed_by_owner,
};
use crate::error::ErrorCode;
use crate::instructions::deposit::{Deposit, deposit_actions};
use crate::instructions::lock::Lock;
use crate::instructions::swap::Swap;
use crate::instructions::withdraw::Withdraw;
use crate::state::Config;

verus! {

/// How many tokens an action moves.
pub open spec fn moved(a: TokenAction) -> u64 {
    match a {
        TokenAction::Transfer { amount, .. } => amount,
        TokenAction::MintTo { amount, .. } => amount,
        TokenAction::Burn { amount, .. } => amount,
    }
}

/// Once a pool is locked, every deposit, withdrawal and swap against it is
/// refused with `PoolLocked`, whatever its amounts and whatever the curve
/// quotes.
pub proof fn lemma_locked_pool_refuses(
    c: Config,
    lp_supply: u64,
    vault_x: u64,
    vault_y: u64,
    amount: u64,
    limit_x: u64,
    limit_y: u64,
    quote: Option<XYAmounts>,
    is_x: bool,
    min_amount_out: u64,
    trade: Option<SwapQuote>,
)
    ensures
        (Deposit { config: c.with_lock(true), lp_supply, vault_x, vault_y }).deposit_outcome(
            amount,
            limit_x,
            limit_y,
            quote,
        ) == Err::<Seq<TokenAction>, ErrorCode>(ErrorCode::PoolLocked),
        (Withdraw { config: c.with_lock(true), lp_supply, vault_x, vault_y }).withdraw_outcome(
            amount,
            limit_x,
            limit_y,
            quote,
        ) == Err::<Seq<TokenAction>, ErrorCode>(ErrorCode::PoolLocked),
        (Swap { config: c.with_lock(true), lp_supply, vault_x, vault_y }).swap_outcome(
            is_x,
            amount,
            min_amount_out,
            trade,
        ) == Err::<Seq<TokenAction>, ErrorCode>(ErrorCode::PoolLocked),
{
}

/// Locking an unlocked pool and unlocking it again gives back the same
/// configuration, so requests are decided as before.
pub proof fn lemma_unlock_restores(c: Config)
    requires
        !c.locked,
    ensures
        c.with_lock(true).with_lock(false) == c,
{
}

/// A request for a zero amount against an unlocked pool is refused with
/// `InvalidAmount`.
pub proof fn lemma_zero_amount_refused(
    c: Config,
    lp_supply: u64,
    vault_x: u64,
    vault_y: u64,
    limit_x: u64,
    limit_y: u64,
    quote: Option<XYAmounts>,
    is_x: bool,
    min_amount_out: u64,
    trade: Option<SwapQuote>,
)
    requires
        !c.locked,
    ensures
        (Deposit { config: c, lp_supply, vault_x, vault_y }).deposit_outcome(
            0,
            limit_x,
            limit_y,
            quote,
        ) == Err::<Seq<TokenAction>, ErrorCode>(ErrorCode::InvalidAmount),
        (Withdraw { config: c, lp_supply, vault_x, vault_y }).withdraw_outcome(
            0,
            limit_x,
            limit_y,
            quote,
        ) == Err::<Seq<TokenAction>, ErrorCode>(ErrorCode::InvalidAmount),
        (Swap { config: c, lp_supply, vault_x, vault_y }).swap_outcome(
            is_x,
            0,
            min_amount_out,
            trade,
        ) == Err::<Seq<TokenAction>, ErrorCode>(ErrorCode::InvalidAmount),
{
}

/// An accepted deposit takes no more than the user's limits of either
/// token and mints exactly the liquidity tokens asked for.
pub proof fn lemma_deposit_within_limits(
    d: Deposit,
    amount: u64,
    max_x: u64,
    max_y: u64,
    quote: Option<XYAmounts>,
)
    ensures
        d.deposit_outcome(amount, max_x, max_y, quote) matches Ok(s) ==> {
            &&& s.len() == 3
            &&& s[0] == pay_in(true, moved(s[0]))
            &&& s[1] == pay_in(false, moved(s[1]))
            &&& moved(s[0]) <= max_x
            &&& moved(s[1]) <= max_y
            &&& s[2] == mint_lp(amount)
        },
{
}

/// The first deposit into an empty pool takes exactly the user's limits
/// of both tokens, whatever the curve would quote, and mints the liquidity
/// tokens asked for.
pub proof fn lemma_first_deposit_takes_limits(
    d: Deposit,
    amount: u64,
    max_x: u64,
    max_y: u64,
    quote: Option<XYAmounts>,
)
    requires
        !d.config.locked,
        amount != 0,
        d.pool_is_empty(),
    ensures
        d.deposit_outcome(amount, max_x, max_y, quote) == Ok::<Seq<TokenAction>, ErrorCode>(
            deposit_actions(max_x, max_y, amount),
        ),
{
}

/// An accepted withdrawal burns exactly the liquidity tokens offered and
/// pays out no less than the user's minimum of either token.
pub proof fn lemma_withdraw_within_limits(
    w: Withdraw,
    amount: u64,
    min_x: u64,
    min_y: u64,
    quote: Option<XYAmounts>,
)
    ensures
        w.withdraw_outcome(amount, min_x, min_y, quote) matches Ok(s) ==> {
            &&& s.len() == 3
            &&& s[0] == burn_lp(amount)
            &&& s[1] == pay_out(true, moved(s[1]))
            &&& s[2] == pay_out(false, moved(s[2]))
            &&& moved(s[1]) >= min_x
            &&& moved(s[2]) >= min_y
        },
{
}

/// An accepted swap takes payment only in the token the user chose to pay
/// with and pays out no less than the user's minimum of the other token.
pub proof fn lemma_swap_within_limit(
    s: Swap,
    is_x: bool,
    amount_in: u64,
    min_amount_out: u64,
    trade: Option<SwapQuote>,
)
    ensures
        s.swap_outcome(is_x, amount_in, min_amount_out, trade) matches Ok(acts) ==> {
            &&& acts.len() == 2
            &&& acts[0] == pay_in(is_x, moved(acts[0]))
            &&& acts[1] == pay_out(!is_x, moved(acts[1]))
            &&& moved(acts[1]) >= min_amount_out
        },
{
}

/// Every token movement an accepted request performs is signed by the
/// owner of the account it takes from: the user for the user's accounts,
/// the pool's configuration account for the vaults and the liquidity mint.
pub proof fn lemma_moves_signed_by_owner(
    c: Config,
    lp_supply: u64,
    vault_x: u64,
    vault_y: u64,
    amount: u64,
    limit_x: u64,
    limit_y: u64,
    quote: Option<XYAmounts>,
    is_x: bool,
    min_amount_out: u64,
    trade: Option<SwapQuote>,
)
    ensures
        (Deposit { config: c, lp_supply, vault_x, vault_y }).deposit_outcome(
            amount,
            limit_x,
            limit_y,
            quote,
        ) matches Ok(s) ==> forall|i: int| 0 <= i < s.len() ==> signed_by_owner(#[trigger] s[i]),
        (Withdraw { config: c, lp_supply, vault_x, vault_y }).withdraw_outcome(
            amount,
            limit_x,
            limit_y,
            quote,
        ) matches Ok(s) ==> forall|i: int| 0 <= i < s.len() ==> signed_by_owner(#[trigger] s[i]),
        (Swap { config: c, lp_supply, vault_x, vault_y }).swap_outcome(
            is_x,
            amount,
            min_amount_out,
            trade,
        ) matches Ok(s) ==> forall|i: int| 0 <= i < s.len() ==> signed_by_owner(#[trigger] s[i]),
{
}

/// The configuration signs with the pool seed written in eight
/// little-endian bytes, which read back as the seed.
pub proof fn lemma_signer_seed_roundtrip(c: Config)
    ensures
        c.spec_signer_seeds()[1].len() == 8,
        spec_u64_from_le_bytes(c.spec_signer_seeds()[1]) == c.seed,
{
    vstd::bytes::lemma_auto_spec_u64_to_from_le_bytes();
    assert(spec_u64_to_le_bytes(c.seed).len() == 8);
}

/// A deposit into a pool that already holds liquidity pays exactly what
/// the curve quotes, each side checked against its own limit: it is
/// accepted, paying `quote.x` of the first token and `quote.y` of the
/// second and minting `amount`, exactly when `quote.x <= max_x` and
/// `quote.y <= max_y`, and refused with `SlippageExceeded` otherwise.
pub proof fn lemma_deposit_pays_the_quote(
    d: Deposit,
    amount: u64,
    max_x: u64,
    max_y: u64,
    q: XYAmounts,
)
    requires
        !d.config.locked,
        amount != 0,
        !(d.lp_supply == 0 && d.vault_x == 0 && d.vault_y == 0),
    ensures
        q.x <= max_x && q.y <= max_y ==> d.deposit_outcome(amount, max_x, max_y, Some(q)) == Ok::<
            Seq<TokenAction>,
            ErrorCode,
        >(
            seq![
                TokenAction::Transfer { from: Role::UserX, to: Role::VaultX, authority: Role::Signer, amount: q.x },
                TokenAction::Transfer { from: Role::UserY, to: Role::VaultY, authority: Role::Signer, amount: q.y },
                TokenAction::MintTo { mint: Role::MintLp, to: Role::UserLp, authority: Role::Config, amount },
            ],
        ),
        (q.x > max_x || q.y > max_y) ==> d.deposit_outcome(amount, max_x, max_y, Some(q)) == Err::<
            Seq<TokenAction>,
            ErrorCode,
        >(ErrorCode::SlippageExceeded),
{
}

/// The first deposit into an empty pool pays exactly the user's limits and
/// mints `amount`, whatever the quote.
pub proof fn lemma_first_deposit_pays_the_limits(
    d: Deposit,
    amount: u64,
    max_x: u64,
    max_y: u64,
    quote: Option<XYAmounts>,
)
    requires
        !d.config.locked,
        amount != 0,
        d.lp_supply == 0 && d.vault_x == 0 && d.vault_y == 0,
    ensures
        d.deposit_outcome(amount, max_x, max_y, quote) == Ok::<Seq<TokenAction>, ErrorCode>(
            seq![
                TokenAction::Transfer { from: Role::UserX, to: Role::VaultX, authority: Role::Signer, amount: max_x },
                TokenAction::Transfer { from: Role::UserY, to: Role::VaultY, authority: Role::Signer, amount: max_y },
                TokenAction::MintTo { mint: Role::MintLp, to: Role::UserLp, authority: Role::Config, amount },
            ],
        ),
{
}

/// A withdrawal pays out exactly what the curve quotes, each side checked
/// against its own minimum: it is accepted, burning `amount` and paying
/// `quote.x` and `quote.y`, exactly when `quote.x >= min_x` and
/// `quote.y >= min_y`, and refused with `SlippageExceeded` otherwise.
pub proof fn lemma_withdraw_pays_the_quote(
    w: Withdraw,
    amount: u64,
    min_x: u64,
    min_y: u64,
    q: XYAmounts,
)
    requires
        !w.config.locked,
        amount != 0,
    ensures
        q.x >= min_x && q.y >= min_y ==> w.withdraw_outcome(amount, min_x, min_y, Some(q)) == Ok::<
            Seq<TokenAction>,
            ErrorCode,
        >(
            seq![
                TokenAction::Burn { mint: Role::MintLp, from: Role::UserLp, authority: Role::Signer, amount },
                TokenAction::Transfer { from: Role::VaultX, to: Role::UserX, authority: Role::Config, amount: q.x },
                TokenAction::Transfer { from: Role::VaultY, to: Role::UserY, authority: Role::Config, amount: q.y },
            ],
        ),
        (q.x < min_x || q.y < min_y) ==> w.withdraw_outcome(amount, min_x, min_y, Some(q)) == Err::<
            Seq<TokenAction>,
            ErrorCode,
        >(ErrorCode::SlippageExceeded),
{
}

/// A swap takes exactly the curve's `deposit` of the token the user pays
/// with and pays out exactly the curve's `withdraw` of the other token; it
/// is accepted exactly when that output reaches `min_amount_out`, and
/// refused with `SlippageExceeded` otherwise.
pub proof fn lemma_swap_pays_the_quote(
    s: Swap,
    is_x: bool,
    amount_in: u64,
    min_amount_out: u64,
    q: SwapQuote,
)
    requires
        !s.config.locked,
        amount_in != 0,
    ensures
        q.withdraw >= min_amount_out ==> s.swap_outcome(is_x, amount_in, min_amount_out, Some(q))
            == Ok::<Seq<TokenAction>, ErrorCode>(
            if is_x {
                seq![
                    TokenAction::Transfer { from: Role::UserX, to: Role::VaultX, authority: Role::Signer, amount: q.deposit },
                    TokenAction::Transfer { from: Role::VaultY, to: Role::UserY, authority: Role::Config, amount: q.withdraw },
                ]
            } else {
                seq![
                    TokenAction::Transfer { from: Role::UserY, to: Role::VaultY, authority: Role::Signer, amount: q.deposit },
                    TokenAction::Transfer { from: Role::VaultX, to: Role::UserX, authority: Role::Config, amount: q.withdraw },
                ]
            },
        ),
        q.withdraw < min_amount_out ==> s.swap_outcome(is_x, amount_in, min_amount_out, Some(q))
            == Err::<Seq<TokenAction>, ErrorCode>(ErrorCode::SlippageExceeded),
{
}

/// Whether a signer may lock or unlock the pool depends only on the pool's
/// authority, never on the lock flag: the authority can always unlock a
/// locked pool, and nobody else can ever change the flag.
pub proof fn lemma_authority_check_ignores_lock(l: Lock, flag: bool)
    ensures
        (Lock { signer: l.signer, config: l.config.with_lock(flag) }).signed_by_authority() <==> (
        l.config.authority == Some(l.signer)),
{
}

/// The curve is consulted exactly for requests that pass the pool's own
/// checks: an unlocked pool, a non-zero amount and, for a deposit, a pool
/// that already holds liquidity.
pub proof fn lemma_quote_needed_exactly_after_checks(
    c: Config,
    lp_supply: u64,
    vault_x: u64,
    vault_y: u64,
    amount: u64,
)
    ensures
        (Deposit { config: c, lp_supply, vault_x, vault_y }).quote_needed(amount) <==> (!c.locked
            && amount != 0 && !(lp_supply == 0 && vault_x == 0 && vault_y == 0)),
        (Withdraw { config: c, lp_supply, vault_x, vault_y }).quote_needed(amount) <==> (!c.locked
            && amount != 0),
        (Swap { config: c, lp_supply, vault_x, vault_y }).quote_needed(amount) <==> (!c.locked
            && amount != 0),
{
}

} // verus!
