use vstd::prelude::*;

use crate::address::Address;
use crate::error::WusdError;
use crate::guard::{debit_outcome, ensure_debit};
use crate::state::{AccessRegistryState, PauseState};

verus! {

/// The outcome of the shared access check: the pause, then the amount when one
/// is given, then, for a paying `user` and when a registry is given, the debit
/// capability. Receiving value needs no capability.
pub open spec fn access_outcome(
    user: Address,
    is_debit: bool,
    amount: Option<u64>,
    pause_state: PauseState,
    access_registry: Option<AccessRegistryState>,
) -> Result<(), WusdError> {
    if pause_state.paused {
        Err(WusdError::ContractPaused)
    } else if amount == Some(0u64) {
        Err(WusdError::InvalidAmount)
    } else if is_debit && access_registry is Some {
        debit_outcome(access_registry->0, user)
    } else {
        Ok(())
    }
}

/// Checks that `user` may act now: the system is not halted, a given amount is
/// positive, and a given registry grants the capability the operation needs.
pub fn require_has_access(
    user: Address,
    is_debit: bool,
    amount: Option<u64>,
    pause_state: &PauseState,
    access_registry: Option<&AccessRegistryState>,
) -> (r: Result<(), WusdError>)
    requires
        access_registry matches Some(registry) ==> registry.wf(),
    ensures
        r == access_outcome(
            user,
            is_debit,
            amount,
            *pause_state,
            match access_registry {
                Some(registry) => Some(*registry),
                None => None,
            },
        ),
{
    pause_state.validate_not_paused()?;
    if let Some(amount) = amount {
        if amount == 0 {
            return Err(WusdError::InvalidAmount);
        }
    }
    if is_debit {
        if let Some(registry) = access_registry {
            ensure_debit(registry, user)?;
        }
    }
    Ok(())
}

} // verus!
