use amm::{
    initialize, Address, Config, Deposit, ErrorCode, Lock, Role, Swap, SwapQuote, TokenAction,
    Withdraw, XYAmounts,
};

fn payer() -> Address {
    Address([7u8; 32])
}

fn mint_x() -> Address {
    Address([1u8; 32])
}

fn mint_y() -> Address {
    Address([2u8; 32])
}

fn new_config() -> Config {
    initialize(0, 30, Some(payer()), mint_x(), mint_y(), 254, 253)
}

/// Balances of the accounts of one user and one pool.
#[derive(Debug, Clone, Copy, PartialEq)]
struct Ledger {
    user_x: u64,
    user_y: u64,
    user_lp: u64,
    vault_x: u64,
    vault_y: u64,
    lp_supply: u64,
}

impl Ledger {
    fn start() -> Ledger {
        Ledger { user_x: 1000, user_y: 1000, user_lp: 0, vault_x: 0, vault_y: 0, lp_supply: 0 }
    }

    fn slot(&mut self, r: Role) -> &mut u64 {
        match r {
            Role::UserX => &mut self.user_x,
            Role::UserY => &mut self.user_y,
            Role::UserLp => &mut self.user_lp,
            Role::VaultX => &mut self.vault_x,
            Role::VaultY => &mut self.vault_y,
            Role::MintLp => &mut self.lp_supply,
            other => panic!("no balance for {:?}", other),
        }
    }

    fn apply(&mut self, actions: &[TokenAction]) {
        for a in actions {
            match *a {
                TokenAction::Transfer { from, to, amount, .. } => {
                    *self.slot(from) -= amount;
                    *self.slot(to) += amount;
                }
                TokenAction::MintTo { mint, to, amount, .. } => {
                    *self.slot(mint) += amount;
                    *self.slot(to) += amount;
                }
                TokenAction::Burn { mint, from, amount, .. } => {
                    *self.slot(mint) -= amount;
                    *self.slot(from) -= amount;
                }
            }
        }
    }

    fn deposit(&self, config: Config) -> Deposit {
        Deposit { config, lp_supply: self.lp_supply, vault_x: self.vault_x, vault_y: self.vault_y }
    }

    fn withdraw(&self, config: Config) -> Withdraw {
        Withdraw { config, lp_supply: self.lp_supply, vault_x: self.vault_x, vault_y: self.vault_y }
    }

    fn swap(&self, config: Config) -> Swap {
        Swap { config, lp_supply: self.lp_supply, vault_x: self.vault_x, vault_y: self.vault_y }
    }
}

fn first_deposit(config: Config) -> Ledger {
    let mut ledger = Ledger::start();
    let actions = ledger.deposit(config).deposit(10, 30, 30, None).unwrap();
    ledger.apply(&actions);
    ledger
}

#[test]
fn test_initialize() {
    let config_state = new_config();
    assert_eq!(config_state.fee, 30);
    assert_eq!(config_state.seed, 0);
    assert_eq!(config_state.mint_x.0, mint_x().0);
    assert_eq!(config_state.mint_y.0, mint_y().0);
    assert_eq!(config_state.locked, false);
    assert_eq!(config_state.authority.map(|a| a.0), Some(payer().0));
}

#[test]
fn test_deposit() {
    let config = new_config();
    let ledger = first_deposit(config);
    assert_eq!(ledger.vault_x, 30);
    assert_eq!(ledger.vault_y, 30);
    assert_eq!(ledger.user_lp, 10);
    assert_eq!(ledger.user_x, 970);
    assert_eq!(ledger.user_y, 970);
}

#[test]
fn test_withdraw() {
    let config = new_config();
    let mut ledger = first_deposit(config);
    let quote = XYAmounts { x: 30, y: 30 };
    let actions = ledger.withdraw(config).withdraw(10, 30, 30, Some(quote)).unwrap();
    ledger.apply(&actions);
    assert_eq!(ledger.vault_x, 0);
    assert_eq!(ledger.vault_y, 0);
    assert_eq!(ledger.user_lp, 0);
    assert_eq!(ledger.user_x, 1000);
    assert_eq!(ledger.user_y, 1000);
}

#[test]
fn test_swap() {
    let config = new_config();
    let mut ledger = first_deposit(config);
    assert_eq!(ledger.vault_x, 30);
    assert_eq!(ledger.vault_y, 30);
    assert_eq!(ledger.user_lp, 10);
    assert_eq!(ledger.user_x, 970);
    assert_eq!(ledger.user_y, 970);
    let trade = SwapQuote { deposit: 2, withdraw: 1 };
    let actions = ledger.swap(config).swap(true, 2, 1, Some(trade)).unwrap();
    ledger.apply(&actions);
    assert_eq!(ledger.vault_x, 32);
    assert_eq!(ledger.vault_y, 29);
    assert_eq!(ledger.user_x, 968);
    assert_eq!(ledger.user_y, 971);
}

#[test]
fn test_lock() {
    let mut lock = Lock { signer: payer(), config: new_config() };
    assert!(lock.validate().is_ok());
    let res = lock.lock(true);
    assert!(res.is_ok());
    assert_eq!(lock.config.locked, true);
}

#[test]
fn first_deposit_plan_is_exact() {
    let config = new_config();
    let actions = Ledger::start().deposit(config).deposit(10, 30, 30, None).unwrap();
    assert_eq!(
        actions,
        vec![
            TokenAction::Transfer { from: Role::UserX, to: Role::VaultX, authority: Role::Signer, amount: 30 },
            TokenAction::Transfer { from: Role::UserY, to: Role::VaultY, authority: Role::Signer, amount: 30 },
            TokenAction::MintTo { mint: Role::MintLp, to: Role::UserLp, authority: Role::Config, amount: 10 },
        ]
    );
}

#[test]
fn first_deposit_ignores_quote() {
    let config = new_config();
    let with_quote = Ledger::start()
        .deposit(config)
        .deposit(10, 30, 40, Some(XYAmounts { x: 1, y: 1 }))
        .unwrap();
    assert_eq!(with_quote[1], TokenAction::Transfer { from: Role::UserY, to: Role::VaultY, authority: Role::Signer, amount: 40 });
}

#[test]
fn later_deposit_pays_the_quote() {
    let config = new_config();
    let ledger = first_deposit(config);
    let actions = ledger.deposit(config).deposit(5, 20, 20, Some(XYAmounts { x: 15, y: 14 })).unwrap();
    assert_eq!(actions[0], TokenAction::Transfer { from: Role::UserX, to: Role::VaultX, authority: Role::Signer, amount: 15 });
    assert_eq!(actions[1], TokenAction::Transfer { from: Role::UserY, to: Role::VaultY, authority: Role::Signer, amount: 14 });
    assert_eq!(actions[2], TokenAction::MintTo { mint: Role::MintLp, to: Role::UserLp, authority: Role::Config, amount: 5 });
}

#[test]
fn deposit_slippage_refused() {
    let config = new_config();
    let ledger = first_deposit(config);
    let d = ledger.deposit(config);
    assert_eq!(d.deposit(10, 29, 30, Some(XYAmounts { x: 30, y: 30 })), Err(ErrorCode::SlippageExceeded));
    assert_eq!(d.deposit(10, 30, 29, Some(XYAmounts { x: 30, y: 30 })), Err(ErrorCode::SlippageExceeded));
}

#[test]
fn withdraw_slippage_refused() {
    let config = new_config();
    let ledger = first_deposit(config);
    let w = ledger.withdraw(config);
    assert_eq!(w.withdraw(10, 31, 30, Some(XYAmounts { x: 30, y: 30 })), Err(ErrorCode::SlippageExceeded));
    assert_eq!(w.withdraw(10, 30, 31, Some(XYAmounts { x: 30, y: 30 })), Err(ErrorCode::SlippageExceeded));
}

#[test]
fn swap_slippage_refused() {
    let config = new_config();
    let ledger = first_deposit(config);
    let s = ledger.swap(config);
    assert_eq!(s.swap(true, 2, 2, Some(SwapQuote { deposit: 2, withdraw: 1 })), Err(ErrorCode::SlippageExceeded));
}

#[test]
fn swap_other_direction() {
    let config = new_config();
    let ledger = first_deposit(config);
    let actions = ledger.swap(config).swap(false, 2, 1, Some(SwapQuote { deposit: 2, withdraw: 1 })).unwrap();
    assert_eq!(
        actions,
        vec![
            TokenAction::Transfer { from: Role::UserY, to: Role::VaultY, authority: Role::Signer, amount: 2 },
            TokenAction::Transfer { from: Role::VaultX, to: Role::UserX, authority: Role::Config, amount: 1 },
        ]
    );
}

#[test]
fn locked_pool_refuses_everything() {
    let mut lock = Lock { signer: payer(), config: new_config() };
    lock.lock(true).unwrap();
    let ledger = first_deposit(new_config());
    assert_eq!(ledger.deposit(lock.config).deposit(10, 30, 30, None), Err(ErrorCode::PoolLocked));
    assert_eq!(ledger.withdraw(lock.config).withdraw(10, 0, 0, None), Err(ErrorCode::PoolLocked));
    assert_eq!(ledger.swap(lock.config).swap(true, 2, 1, None), Err(ErrorCode::PoolLocked));
    lock.lock(false).unwrap();
    assert!(ledger.deposit(lock.config).deposit(10, 30, 30, Some(XYAmounts { x: 30, y: 30 })).is_ok());
}

#[test]
fn zero_amounts_refused() {
    let config = new_config();
    let ledger = first_deposit(config);
    assert_eq!(ledger.deposit(config).deposit(0, 30, 30, None), Err(ErrorCode::InvalidAmount));
    assert_eq!(ledger.withdraw(config).withdraw(0, 0, 0, None), Err(ErrorCode::InvalidAmount));
    assert_eq!(ledger.swap(config).swap(false, 0, 0, None), Err(ErrorCode::InvalidAmount));
}

#[test]
fn quote_needed_only_after_checks() {
    let config = new_config();
    assert!(!Ledger::start().deposit(config).quote_needed_for(10));
    let ledger = first_deposit(config);
    assert!(ledger.deposit(config).quote_needed_for(10));
    assert!(!ledger.deposit(config).quote_needed_for(0));
    assert!(ledger.withdraw(config).quote_needed_for(10));
    assert!(!ledger.withdraw(config).quote_needed_for(0));
    assert!(ledger.swap(config).quote_needed_for(3));
    let mut locked = config;
    locked.locked = true;
    assert!(!ledger.deposit(locked).quote_needed_for(10));
    assert!(!ledger.withdraw(locked).quote_needed_for(10));
    assert!(!ledger.swap(locked).quote_needed_for(3));
}

#[test]
fn only_authority_may_lock() {
    let stranger = Lock { signer: Address([9u8; 32]), config: new_config() };
    assert_eq!(stranger.validate(), Err(ErrorCode::Unauthorized));
    let mut no_authority = new_config();
    no_authority.authority = None;
    let nobody = Lock { signer: payer(), config: no_authority };
    assert_eq!(nobody.validate(), Err(ErrorCode::Unauthorized));
    let mut almost = payer();
    almost.0[31] = 8;
    let near = Lock { signer: almost, config: new_config() };
    assert_eq!(near.validate(), Err(ErrorCode::Unauthorized));
}

#[test]
fn lock_changes_only_the_flag() {
    let before = new_config();
    let mut lock = Lock { signer: payer(), config: before };
    lock.lock(true).unwrap();
    assert!(lock.config.locked);
    assert_eq!(lock.config.seed, before.seed);
    assert_eq!(lock.config.fee, before.fee);
    assert_eq!(lock.config.config_bump, before.config_bump);
    lock.lock(false).unwrap();
    assert!(!lock.config.locked);
}

#[test]
fn withdraw_plan_is_exact() {
    let config = new_config();
    let ledger = first_deposit(config);
    let actions = ledger.withdraw(config).withdraw(4, 10, 10, Some(XYAmounts { x: 12, y: 11 })).unwrap();
    assert_eq!(
        actions,
        vec![
            TokenAction::Burn { mint: Role::MintLp, from: Role::UserLp, authority: Role::Signer, amount: 4 },
            TokenAction::Transfer { from: Role::VaultX, to: Role::UserX, authority: Role::Config, amount: 12 },
            TokenAction::Transfer { from: Role::VaultY, to: Role::UserY, authority: Role::Config, amount: 11 },
        ]
    );
}

#[test]
fn signer_seeds_encode_seed_little_endian() {
    let config = initialize(0x0102030405060708, 30, None, mint_x(), mint_y(), 251, 250);
    let seeds = config.signer_seeds();
    assert_eq!(seeds.len(), 3);
    assert_eq!(seeds[0], b"config".to_vec());
    assert_eq!(seeds[1], 0x0102030405060708u64.to_le_bytes().to_vec());
    assert_eq!(seeds[1], vec![8, 7, 6, 5, 4, 3, 2, 1]);
    assert_eq!(seeds[2], vec![251]);
}

#[test]
fn addresses_compare_bytewise() {
    assert!(payer().same_as(&payer()));
    assert!(!payer().same_as(&mint_x()));
}

#[test]
fn error_messages() {
    assert_eq!(ErrorCode::PoolLocked.message(), "The pool is currently locked");
    assert_eq!(ErrorCode::InvalidAmount.message(), "Invalid amount, must be greater than 0");
    assert_eq!(ErrorCode::SlippageExceeded.message(), "Slippage exceeded");
    assert_eq!(ErrorCode::Unauthorized.message(), "Unauthorized");
    assert_eq!(ErrorCode::NoAuthority.message(), "No authority set for this pool");
}

#[test]
fn single_token_actions() {
    let d = Ledger::start().deposit(new_config());
    assert_eq!(d.deposit_tokens(false, 5), TokenAction::Transfer { from: Role::UserY, to: Role::VaultY, authority: Role::Signer, amount: 5 });
    assert_eq!(d.mint_lp_tokens(3), TokenAction::MintTo { mint: Role::MintLp, to: Role::UserLp, authority: Role::Config, amount: 3 });
    let w = Ledger::start().withdraw(new_config());
    assert_eq!(w.withdraw_tokens(true, 6), TokenAction::Transfer { from: Role::VaultX, to: Role::UserX, authority: Role::Config, amount: 6 });
    assert_eq!(w.burn_lp_tokens(2), TokenAction::Burn { mint: Role::MintLp, from: Role::UserLp, authority: Role::Signer, amount: 2 });
}
