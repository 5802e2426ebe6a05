use vstd::prelude::*;

use crate::address::Address;
use crate::error::WusdError;
use crate::guard::{ensure_side_active, side_halted};
use crate::ledger::LedgerAccount;
use crate::state::{AccessRegistryState, AuthorityState, FreezeState, PauseState};
use crate::utils::require_has_access;

verus! {

/// The records a mint reads: `authority` signs, `token_account` receives.
#[derive(Clone, Debug)]
pub struct MintAccounts {
    pub authority: Address,
    pub token_account: LedgerAccount,
    pub authority_state: AuthorityState,
    pub pause_state: PauseState,
    pub access_registry: AccessRegistryState,
    pub freeze_state: FreezeState,
}

/// The guard sequence of a mint of `amount`, first refusal wins.
pub open spec fn mint_outcome(ctx: MintAccounts, amount: u64) -> Result<(), WusdError> {
    if ctx.pause_state.paused {
        Err(WusdError::ContractPaused)
    } else if ctx.authority_state.minter != ctx.authority {
        Err(WusdError::NotMinter)
    } else if amount == 0 {
        Err(WusdError::InvalidAmount)
    } else if side_halted(ctx.freeze_state, ctx.token_account) {
        Err(WusdError::AccountFrozen)
    } else {
        Ok(())
    }
}

/// Decides whether `authority` may mint `amount` into `token_account`.
///
/// `Ok` authorizes exactly one ledger mint of `amount` to that account.
pub fn mint(ctx: &MintAccounts, amount: u64) -> (r: Result<(), WusdError>)
    requires
        ctx.access_registry.wf(),
    ensures
        r == mint_outcome(*ctx, amount),
{
    ctx.pause_state.validate_not_paused()?;
    if !ctx.authority_state.is_minter(ctx.authority) {
        return Err(WusdError::NotMinter);
    }
    require_has_access(
        ctx.authority,
        false,
        Some(amount),
        &ctx.pause_state,
        Some(&ctx.access_registry),
    )?;
    ensure_side_active(&ctx.freeze_state, &ctx.token_account)?;
    Ok(())
}

} // verus!
