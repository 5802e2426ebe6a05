use wusd_token::guard::{
    ensure_balance, ensure_debit, ensure_owner, ensure_permit_usable, ensure_positive,
    ensure_same_mint, ensure_side_active,
};
use wusd_token::utils::require_has_access;
use wusd_token::{AccessRegistryState, Address, FreezeState, LedgerAccount, PauseState, PermitState, WusdError};

fn addr(n: u8) -> Address {
    Address::new([n; 32])
}

fn live_registry() -> AccessRegistryState {
    let mut registry = AccessRegistryState::new(addr(1));
    registry.initialized = true;
    registry.add_operator(addr(2)).unwrap();
    registry
}

fn account(owner: u8, mint: u8, amount: u64) -> LedgerAccount {
    LedgerAccount { key: addr(40), owner: addr(owner), mint: addr(mint), amount, is_frozen: false }
}

#[test]
fn access_check_pause_first() {
    let paused = PauseState { paused: true };
    let registry = live_registry();
    assert_eq!(
        require_has_access(addr(9), true, Some(0), &paused, Some(&registry)),
        Err(WusdError::ContractPaused)
    );
}

#[test]
fn access_check_amount() {
    let active = PauseState { paused: false };
    assert_eq!(require_has_access(addr(2), true, Some(0), &active, None), Err(WusdError::InvalidAmount));
    assert_eq!(require_has_access(addr(2), true, None, &active, None), Ok(()));
    assert_eq!(require_has_access(addr(2), true, Some(5), &active, None), Ok(()));
}

#[test]
fn access_check_debit_and_credit() {
    let active = PauseState { paused: false };
    let registry = live_registry();
    assert_eq!(require_has_access(addr(2), true, Some(5), &active, Some(&registry)), Ok(()));
    assert_eq!(require_has_access(addr(1), true, Some(5), &active, Some(&registry)), Ok(()));
    assert_eq!(
        require_has_access(addr(9), true, Some(5), &active, Some(&registry)),
        Err(WusdError::AccessDenied)
    );
    assert_eq!(require_has_access(addr(9), false, Some(5), &active, Some(&registry)), Ok(()));
    let fresh = AccessRegistryState::new(addr(1));
    assert_eq!(
        require_has_access(addr(1), true, Some(5), &active, Some(&fresh)),
        Err(WusdError::AccessRegistryNotInitialized)
    );
    assert_eq!(require_has_access(addr(9), false, Some(5), &active, Some(&fresh)), Ok(()));
}

#[test]
fn guard_steps() {
    assert_eq!(ensure_positive(0), Err(WusdError::InvalidAmount));
    assert_eq!(ensure_positive(1), Ok(()));

    let open = FreezeState { is_frozen: false };
    let shut = FreezeState { is_frozen: true };
    let mut acct = account(2, 50, 10);
    assert_eq!(ensure_side_active(&open, &acct), Ok(()));
    assert_eq!(ensure_side_active(&shut, &acct), Err(WusdError::AccountFrozen));
    acct.is_frozen = true;
    assert_eq!(ensure_side_active(&open, &acct), Err(WusdError::AccountFrozen));

    let registry = live_registry();
    assert_eq!(ensure_debit(&registry, addr(2)), Ok(()));
    assert_eq!(ensure_debit(&registry, addr(3)), Err(WusdError::AccessDenied));

    let a = account(2, 50, 10);
    let b = account(3, 51, 0);
    assert_eq!(ensure_owner(&a, addr(2)), Ok(()));
    assert_eq!(ensure_owner(&a, addr(3)), Err(WusdError::InvalidOwner));
    assert_eq!(ensure_same_mint(&a, &a), Ok(()));
    assert_eq!(ensure_same_mint(&a, &b), Err(WusdError::InvalidMint));
    assert_eq!(ensure_balance(&a, 10), Ok(()));
    assert_eq!(ensure_balance(&a, 11), Err(WusdError::InsufficientBalance));

    let permit = PermitState::initialize(addr(3), addr(2), 20, 100, 0);
    assert_eq!(ensure_permit_usable(&permit, 20, 99), Ok(()));
    assert_eq!(ensure_permit_usable(&permit, 21, 99), Err(WusdError::InsufficientAllowance));
    assert_eq!(ensure_permit_usable(&permit, 1, 100), Err(WusdError::PermitExpired));
    assert_eq!(permit.amount, 20);
}
