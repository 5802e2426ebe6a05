use vstd::prelude::*;

use crate::access::AccessLevel;
use crate::address::Address;
use crate::error::WusdError;
use crate::ledger::LedgerAccount;
use crate::state::{consume_outcome, AccessRegistryState, FreezeState, PauseState, PermitState};

verus! {

// The steps of the guard sequence. Every value-moving operation runs the steps
// that apply to it in the order they stand here, and stops at the first refusal:
// the system-wide pause, the amount, the freeze of each account side, the debit
// capability, the delegation (delegated transfers only), the ownership and asset
// of the accounts, and last the balance.

/// An account side is halted when its freeze flag is set or the ledger froze it.
pub open spec fn side_halted(flag: FreezeState, account: LedgerAccount) -> bool {
    flag.is_frozen || account.is_frozen
}

/// The capability step for a paying `user`: the registry must be initialized
/// and must grant debit.
pub open spec fn debit_outcome(registry: AccessRegistryState, user: Address) -> Result<(), WusdError> {
    if !registry.initialized {
        Err(WusdError::AccessRegistryNotInitialized)
    } else if !registry.grants(user, AccessLevel::Debit) {
        Err(WusdError::AccessDenied)
    } else {
        Ok(())
    }
}

/// Refused with `InvalidAmount` for a zero amount.
pub fn ensure_positive(amount: u64) -> (r: Result<(), WusdError>)
    ensures
        r == if amount == 0 {
            Err::<(), WusdError>(WusdError::InvalidAmount)
        } else {
            Ok(())
        },
{
    if amount == 0 {
        Err(WusdError::InvalidAmount)
    } else {
        Ok(())
    }
}

/// Refused with `AccountFrozen` when the account side is halted.
pub fn ensure_side_active(flag: &FreezeState, account: &LedgerAccount) -> (r: Result<(), WusdError>)
    ensures
        r == if side_halted(*flag, *account) {
            Err::<(), WusdError>(WusdError::AccountFrozen)
        } else {
            Ok(())
        },
{
    if account.is_frozen {
        return Err(WusdError::AccountFrozen);
    }
    flag.check_frozen()
}

/// The capability step for a paying `user`.
pub fn ensure_debit(registry: &AccessRegistryState, user: Address) -> (r: Result<(), WusdError>)
    requires
        registry.wf(),
    ensures
        r == debit_outcome(*registry, user),
{
    if !registry.initialized {
        return Err(WusdError::AccessRegistryNotInitialized);
    }
    if !registry.has_access(user, AccessLevel::Debit) {
        return Err(WusdError::AccessDenied);
    }
    Ok(())
}

/// The delegation step: refused with `PermitExpired` once `now` has reached the
/// permit's expiration, and with `InsufficientAllowance` when less than `amount`
/// is left. Nothing is spent here.
pub fn ensure_permit_usable(permit: &PermitState, amount: u64, now: i64) -> (r: Result<(), WusdError>)
    ensures
        r == consume_outcome(*permit, amount, now),
{
    if permit.expiration <= now {
        return Err(WusdError::PermitExpired);
    }
    if permit.amount < amount {
        return Err(WusdError::InsufficientAllowance);
    }
    Ok(())
}

/// Refused with `InvalidOwner` unless `owner` owns the account.
pub fn ensure_owner(account: &LedgerAccount, owner: Address) -> (r: Result<(), WusdError>)
    ensures
        r == if account.owner != owner {
            Err::<(), WusdError>(WusdError::InvalidOwner)
        } else {
            Ok(())
        },
{
    if account.owner != owner {
        Err(WusdError::InvalidOwner)
    } else {
        Ok(())
    }
}

/// Refused with `InvalidMint` unless both accounts hold the same asset.
pub fn ensure_same_mint(source: &LedgerAccount, destination: &LedgerAccount) -> (r: Result<(), WusdError>)
    ensures
        r == if source.mint != destination.mint {
            Err::<(), WusdError>(WusdError::InvalidMint)
        } else {
            Ok(())
        },
{
    if source.mint != destination.mint {
        Err(WusdError::InvalidMint)
    } else {
        Ok(())
    }
}

/// Refused with `InsufficientBalance` when the account holds less than `amount`.
pub fn ensure_balance(account: &LedgerAccount, amount: u64) -> (r: Result<(), WusdError>)
    ensures
        r == if account.amount < amount {
            Err::<(), WusdError>(WusdError::InsufficientBalance)
        } else {
            Ok(())
        },
{
    if account.amount < amount {
        Err(WusdError::InsufficientBalance)
    } else {
        Ok(())
    }
}

} // verus!
