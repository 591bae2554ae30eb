use vstd::prelude::*;

use crate::state::{Address, Config};

verus! {

/// The configuration of a new pool: unlocked, with the given seed, fee,
/// authority, token mints and address bumps.
pub fn initialize(
    seed: u64,
    fee: u16,
    authority: Option<Address>,
    mint_x: Address,
    mint_y: Address,
    config_bump: u8,
    lp_bump: u8,
) -> (c: Config)
    ensures
        c == (Config { seed, authority, mint_x, mint_y, fee, locked: false, config_bump, lp_bump }),
{
    Config { seed, authority, mint_x, mint_y, fee, locked: false, config_bump, lp_bump }
}

} // verus!
