use vstd::prelude::*;

use crate::address::Address;
use crate::error::WusdError;
use crate::guard::{
    debit_outcome, ensure_balance, ensure_debit, ensure_owner, ensure_positive, ensure_side_active,
    side_halted,
};
use crate::ledger::LedgerAccount;
use crate::state::{AccessRegistryState, FreezeState, PauseState};

verus! {

/// The records a burn reads: `authority` signs and owns `token_account`.
#[derive(Clone, Debug)]
pub struct Burn {
    pub authority: Address,
    pub token_account: LedgerAccount,
    pub pause_state: PauseState,
    pub access_registry: AccessRegistryState,
    pub freeze_state: FreezeState,
}

/// The guard sequence of a burn of `amount`, first refusal wins.
pub open spec fn burn_outcome(ctx: Burn, amount: u64) -> Result<(), WusdError> {
    if ctx.pause_state.paused {
        Err(WusdError::ContractPaused)
    } else if amount == 0 {
        Err(WusdError::InvalidAmount)
    } else if side_halted(ctx.freeze_state, ctx.token_account) {
        Err(WusdError::AccountFrozen)
    } else if debit_outcome(ctx.access_registry, ctx.authority) is Err {
        debit_outcome(ctx.access_registry, ctx.authority)
    } else if ctx.token_account.owner != ctx.authority {
        Err(WusdError::InvalidOwner)
    } else if ctx.token_account.amount < amount {
        Err(WusdError::InsufficientBalance)
    } else {
        Ok(())
    }
}

/// Decides whether `authority` may burn `amount` from its `token_account`.
///
/// `Ok` authorizes exactly one ledger burn of `amount` from that account.
pub fn burn(ctx: &Burn, amount: u64) -> (r: Result<(), WusdError>)
    requires
        ctx.access_registry.wf(),
    ensures
        r == burn_outcome(*ctx, amount),
{
    ctx.pause_state.validate_not_paused()?;
    ensure_positive(amount)?;
    ensure_side_active(&ctx.freeze_state, &ctx.token_account)?;
    ensure_debit(&ctx.access_registry, ctx.authority)?;
    ensure_owner(&ctx.token_account, ctx.authority)?;
    ensure_balance(&ctx.token_account, amount)?;
    Ok(())
}

} // verus!
