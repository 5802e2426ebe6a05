use wusd_token::{
    burn, freeze_account, initialize_access_registry, mint, transfer, transfer_from, add_operator,
    AccessRegistryState, Address, AuthorityState, Burn, FreezeAccount, FreezeState,
    InitializeAccessRegistry, LedgerAccount, ManageOperator, MintAccounts, PauseState,
    PermitState, Transfer, TransferFrom, WusdError,
};

const ADMIN: u8 = 1;
const ALICE: u8 = 2;
const BOB: u8 = 3;
const ASSET: u8 = 50;

fn addr(n: u8) -> Address {
    Address::new([n; 32])
}

fn registry() -> AccessRegistryState {
    let mut ctx = InitializeAccessRegistry {
        authority: addr(ADMIN),
        access_registry: AccessRegistryState::new(addr(ADMIN)),
    };
    initialize_access_registry(&mut ctx).unwrap();
    ctx.access_registry.add_operator(addr(ALICE)).unwrap();
    ctx.access_registry
}

fn token(key: u8, owner: u8, amount: u64) -> LedgerAccount {
    LedgerAccount { key: addr(key), owner: addr(owner), mint: addr(ASSET), amount, is_frozen: false }
}

fn direct() -> Transfer {
    Transfer {
        from: addr(ALICE),
        to: addr(BOB),
        from_token: token(20, ALICE, 500),
        to_token: token(30, BOB, 0),
        pause_state: PauseState { paused: false },
        access_registry: registry(),
        from_freeze_state: FreezeState { is_frozen: false },
        to_freeze_state: FreezeState { is_frozen: false },
    }
}

fn delegated() -> TransferFrom {
    TransferFrom {
        spender: addr(ALICE),
        owner: addr(BOB),
        from_token: token(30, BOB, 500),
        to_token: token(40, ALICE, 0),
        permit: PermitState::initialize(addr(BOB), addr(ALICE), 100, 1_000, 255),
        pause_state: PauseState { paused: false },
        access_registry: registry(),
        from_freeze_state: FreezeState { is_frozen: false },
        to_freeze_state: FreezeState { is_frozen: false },
    }
}

fn minting() -> MintAccounts {
    MintAccounts {
        authority: addr(ADMIN),
        token_account: token(30, BOB, 0),
        authority_state: AuthorityState::initialize(addr(ADMIN)),
        pause_state: PauseState { paused: false },
        access_registry: registry(),
        freeze_state: FreezeState { is_frozen: false },
    }
}

fn burning() -> Burn {
    Burn {
        authority: addr(ALICE),
        token_account: token(20, ALICE, 300),
        pause_state: PauseState { paused: false },
        access_registry: registry(),
        freeze_state: FreezeState { is_frozen: false },
    }
}

#[test]
fn transfer_allowed_when_every_check_passes() {
    assert_eq!(transfer(&direct(), 500), Ok(()));
    assert_eq!(transfer(&direct(), 1), Ok(()));
}

#[test]
fn transfer_refused_when_paused() {
    let mut ctx = direct();
    ctx.pause_state.paused = true;
    assert_eq!(transfer(&ctx, 10), Err(WusdError::ContractPaused));
}

#[test]
fn transfer_refuses_zero_amount() {
    assert_eq!(transfer(&direct(), 0), Err(WusdError::InvalidAmount));
}

#[test]
fn transfer_refused_when_either_side_frozen() {
    let mut ctx = direct();
    ctx.from_freeze_state.is_frozen = true;
    assert_eq!(transfer(&ctx, 10), Err(WusdError::AccountFrozen));
    let mut ctx = direct();
    ctx.to_freeze_state.is_frozen = true;
    assert_eq!(transfer(&ctx, 10), Err(WusdError::AccountFrozen));
    let mut ctx = direct();
    ctx.to_token.is_frozen = true;
    assert_eq!(transfer(&ctx, 10), Err(WusdError::AccountFrozen));
}

#[test]
fn transfer_needs_debit_capability() {
    let mut ctx = direct();
    ctx.from = addr(9);
    ctx.from_token.owner = addr(9);
    assert_eq!(transfer(&ctx, 10), Err(WusdError::AccessDenied));
    let mut ctx = direct();
    ctx.from = addr(ADMIN);
    ctx.from_token.owner = addr(ADMIN);
    assert_eq!(transfer(&ctx, 10), Ok(()));
}

#[test]
fn transfer_needs_initialized_registry() {
    let mut ctx = direct();
    ctx.access_registry.initialized = false;
    assert_eq!(transfer(&ctx, 10), Err(WusdError::AccessRegistryNotInitialized));
}

#[test]
fn transfer_checks_owners_and_asset() {
    let mut ctx = direct();
    ctx.from_token.owner = addr(BOB);
    assert_eq!(transfer(&ctx, 10), Err(WusdError::InvalidOwner));
    let mut ctx = direct();
    ctx.to_token.owner = addr(ALICE);
    assert_eq!(transfer(&ctx, 10), Err(WusdError::InvalidOwner));
    let mut ctx = direct();
    ctx.to_token.mint = addr(51);
    assert_eq!(transfer(&ctx, 10), Err(WusdError::InvalidMint));
}

#[test]
fn transfer_needs_balance() {
    assert_eq!(transfer(&direct(), 501), Err(WusdError::InsufficientBalance));
    assert_eq!(transfer(&direct(), u64::MAX), Err(WusdError::InsufficientBalance));
}

#[test]
fn transfer_checks_pause_before_freeze() {
    let mut ctx = direct();
    ctx.pause_state.paused = true;
    ctx.from_freeze_state.is_frozen = true;
    assert_eq!(transfer(&ctx, 0), Err(WusdError::ContractPaused));
    ctx.pause_state.paused = false;
    assert_eq!(transfer(&ctx, 0), Err(WusdError::InvalidAmount));
    assert_eq!(transfer(&ctx, 1), Err(WusdError::AccountFrozen));
}

#[test]
fn delegated_transfer_spends_permit() {
    let mut ctx = delegated();
    assert_eq!(transfer_from(&mut ctx, 40, 10), Ok(()));
    assert_eq!(ctx.permit.amount, 60);
    assert_eq!(ctx.permit.nonce, 0);
    assert_eq!(transfer_from(&mut ctx, 60, 10), Ok(()));
    assert_eq!(ctx.permit.amount, 0);
    assert_eq!(transfer_from(&mut ctx, 1, 10), Err(WusdError::InsufficientAllowance));
    assert_eq!(ctx.permit.amount, 0);
}

#[test]
fn delegated_transfer_refuses_expired_permit() {
    let mut ctx = delegated();
    assert_eq!(transfer_from(&mut ctx, 10, 1_000), Err(WusdError::PermitExpired));
    assert_eq!(transfer_from(&mut ctx, 10, 2_000), Err(WusdError::PermitExpired));
    assert_eq!(ctx.permit.amount, 100);
    assert_eq!(transfer_from(&mut ctx, 10, 999), Ok(()));
}

#[test]
fn delegated_transfer_over_allowance_changes_nothing() {
    let mut ctx = delegated();
    assert_eq!(transfer_from(&mut ctx, 101, 10), Err(WusdError::InsufficientAllowance));
    assert_eq!(ctx.permit.amount, 100);
}

#[test]
fn delegated_transfer_checks_ownership_and_asset() {
    let mut ctx = delegated();
    ctx.from_token.owner = addr(ALICE);
    assert_eq!(transfer_from(&mut ctx, 10, 10), Err(WusdError::InvalidOwner));
    let mut ctx = delegated();
    ctx.permit.spender = addr(9);
    assert_eq!(transfer_from(&mut ctx, 10, 10), Err(WusdError::InvalidOwner));
    let mut ctx = delegated();
    ctx.to_token.mint = addr(51);
    assert_eq!(transfer_from(&mut ctx, 10, 10), Err(WusdError::InvalidMint));
    assert_eq!(ctx.permit.amount, 100);
}

#[test]
fn delegated_transfer_needs_balance_and_capability() {
    let mut ctx = delegated();
    ctx.from_token.amount = 5;
    assert_eq!(transfer_from(&mut ctx, 10, 10), Err(WusdError::InsufficientBalance));
    assert_eq!(ctx.permit.amount, 100);
    let mut ctx = delegated();
    ctx.spender = addr(9);
    ctx.permit.spender = addr(9);
    assert_eq!(transfer_from(&mut ctx, 10, 10), Err(WusdError::AccessDenied));
}

#[test]
fn delegated_transfer_refuses_frozen_side() {
    let mut ctx = delegated();
    ctx.from_token.is_frozen = true;
    assert_eq!(transfer_from(&mut ctx, 10, 10), Err(WusdError::AccountFrozen));
    assert_eq!(ctx.permit.amount, 100);
}

#[test]
fn mint_by_minter_allowed() {
    assert_eq!(mint(&minting(), 1_000), Ok(()));
}

#[test]
fn mint_refusals() {
    let mut ctx = minting();
    ctx.authority = addr(ALICE);
    assert_eq!(mint(&ctx, 10), Err(WusdError::NotMinter));
    assert_eq!(mint(&ctx, 0), Err(WusdError::NotMinter));
    assert_eq!(mint(&minting(), 0), Err(WusdError::InvalidAmount));
    let mut ctx = minting();
    ctx.freeze_state.is_frozen = true;
    assert_eq!(mint(&ctx, 10), Err(WusdError::AccountFrozen));
}

#[test]
fn mint_not_blocked_by_uninitialized_registry() {
    let mut ctx = minting();
    ctx.access_registry = AccessRegistryState::new(addr(ADMIN));
    assert_eq!(mint(&ctx, 10), Ok(()));
}

#[test]
fn burn_by_operator_allowed() {
    assert_eq!(burn(&burning(), 300), Ok(()));
}

#[test]
fn burn_refusals() {
    assert_eq!(burn(&burning(), 0), Err(WusdError::InvalidAmount));
    assert_eq!(burn(&burning(), 301), Err(WusdError::InsufficientBalance));
    let mut ctx = burning();
    ctx.token_account.owner = addr(BOB);
    assert_eq!(burn(&ctx, 10), Err(WusdError::InvalidOwner));
    let mut ctx = burning();
    ctx.authority = addr(BOB);
    ctx.token_account.owner = addr(BOB);
    assert_eq!(burn(&ctx, 10), Err(WusdError::AccessDenied));
    let mut ctx = burning();
    ctx.freeze_state.is_frozen = true;
    assert_eq!(burn(&ctx, 10), Err(WusdError::AccountFrozen));
}

#[test]
fn pause_halts_value_moves_but_not_administration() {
    let mut t = direct();
    t.pause_state.paused = true;
    let mut d = delegated();
    d.pause_state.paused = true;
    let mut m = minting();
    m.pause_state.paused = true;
    let mut b = burning();
    b.pause_state.paused = true;
    assert_eq!(transfer(&t, 10), Err(WusdError::ContractPaused));
    assert_eq!(transfer_from(&mut d, 10, 10), Err(WusdError::ContractPaused));
    assert_eq!(mint(&m, 10), Err(WusdError::ContractPaused));
    assert_eq!(burn(&b, 10), Err(WusdError::ContractPaused));

    let mut freeze = FreezeAccount {
        authority: addr(ADMIN),
        freeze_state: FreezeState { is_frozen: false },
        account: addr(20),
        authority_state: AuthorityState::initialize(addr(ADMIN)),
    };
    assert_eq!(freeze_account(&mut freeze), Ok(()));
    assert!(freeze.freeze_state.is_frozen);
    let mut manage = ManageOperator {
        authority: addr(ADMIN),
        authority_state: AuthorityState::initialize(addr(ADMIN)),
        access_registry: registry(),
    };
    assert_eq!(add_operator(&mut manage, addr(BOB)), Ok(()));
    assert_eq!(manage.access_registry.operator_count, 2);
}
