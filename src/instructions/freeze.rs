use vstd::prelude::*;

use crate::address::Address;
use crate::error::WusdError;
use crate::state::{AuthorityState, FreezeState};

verus! {

/// The records that create the freeze flag of `token_account`.
#[derive(Clone, Copy, Debug)]
pub struct InitializeFreezeState {
    pub freeze_state: FreezeState,
    pub token_account: Address,
}

/// Starts the freeze flag of an account in the active state.
pub fn initialize_freeze_state(ctx: &mut InitializeFreezeState) -> (r: Result<(), WusdError>)
    ensures
        r is Ok,
        *final(ctx) == (InitializeFreezeState {
            freeze_state: FreezeState { is_frozen: false },
            ..*old(ctx)
        }),
{
    ctx.freeze_state.is_frozen = false;
    Ok(())
}

/// The records a freeze or unfreeze of `account` reads and changes: `authority`
/// signs.
#[derive(Clone, Copy, Debug)]
pub struct FreezeAccount {
    pub authority: Address,
    pub freeze_state: FreezeState,
    pub account: Address,
    pub authority_state: AuthorityState,
}

/// The records an unfreeze of `account` reads and changes: `authority` signs.
#[derive(Clone, Copy, Debug)]
pub struct UnfreezeAccount {
    pub authority: Address,
    pub freeze_state: FreezeState,
    pub account: Address,
    pub authority_state: AuthorityState,
}

/// Whether the administrator's freeze of the account succeeds.
pub open spec fn freeze_outcome(ctx: FreezeAccount) -> Result<(), WusdError> {
    if ctx.authority_state.admin != ctx.authority {
        Err(WusdError::Unauthorized)
    } else if ctx.freeze_state.is_frozen {
        Err(WusdError::AccountAlreadyFrozen)
    } else {
        Ok(())
    }
}

/// Whether the administrator's unfreeze of the account succeeds.
pub open spec fn unfreeze_outcome(ctx: UnfreezeAccount) -> Result<(), WusdError> {
    if ctx.authority_state.admin != ctx.authority {
        Err(WusdError::Unauthorized)
    } else if !ctx.freeze_state.is_frozen {
        Err(WusdError::AccountNotFrozen)
    } else {
        Ok(())
    }
}

/// Halts the account; only the administrator may, and only an active account.
/// Available while the system is paused. A refusal changes nothing.
pub fn freeze_account(ctx: &mut FreezeAccount) -> (r: Result<(), WusdError>)
    ensures
        r == freeze_outcome(*old(ctx)),
        r is Ok ==> *final(ctx) == (FreezeAccount {
            freeze_state: FreezeState { is_frozen: true },
            ..*old(ctx)
        }),
        r is Err ==> *final(ctx) == *old(ctx),
{
    if !ctx.authority_state.is_admin(ctx.authority) {
        return Err(WusdError::Unauthorized);
    }
    if ctx.freeze_state.is_frozen {
        return Err(WusdError::AccountAlreadyFrozen);
    }
    ctx.freeze_state.freeze()
}

/// Lifts the halt of the account; only the administrator may, and only on a
/// halted account. Available while the system is paused. A refusal changes
/// nothing.
pub fn unfreeze_account(ctx: &mut UnfreezeAccount) -> (r: Result<(), WusdError>)
    ensures
        r == unfreeze_outcome(*old(ctx)),
        r is Ok ==> *final(ctx) == (UnfreezeAccount {
            freeze_state: FreezeState { is_frozen: false },
            ..*old(ctx)
        }),
        r is Err ==> *final(ctx) == *old(ctx),
{
    if !ctx.authority_state.is_admin(ctx.authority) {
        return Err(WusdError::Unauthorized);
    }
    ctx.freeze_state.unfreeze()
}

} // verus!
