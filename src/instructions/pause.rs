use vstd::prelude::*;

use crate::address::Address;
use crate::error::WusdError;
use crate::state::{AuthorityState, PauseState};

verus! {

/// The records a pause reads and changes: `authority` signs.
#[derive(Clone, Copy, Debug)]
pub struct Pause {
    pub pause_state: PauseState,
    pub authority: Address,
    pub authority_state: AuthorityState,
}

/// The records an unpause reads and changes: `authority` signs.
#[derive(Clone, Copy, Debug)]
pub struct Unpause {
    pub pause_state: PauseState,
    pub authority: Address,
    pub authority_state: AuthorityState,
}

/// Whether `authority` may toggle the system-wide halt.
pub open spec fn pauser_outcome(authority_state: AuthorityState, authority: Address) -> Result<(), WusdError> {
    if authority_state.pauser == authority {
        Ok(())
    } else {
        Err(WusdError::NotPauser)
    }
}

/// Halts every value-moving operation; only the pauser may, and a refusal
/// changes nothing. Pausing a paused system is no error.
pub fn pause(ctx: &mut Pause) -> (r: Result<(), WusdError>)
    ensures
        r == pauser_outcome(old(ctx).authority_state, old(ctx).authority),
        r is Ok ==> *final(ctx) == (Pause { pause_state: PauseState { paused: true }, ..*old(ctx) }),
        r is Err ==> *final(ctx) == *old(ctx),
{
    if !ctx.authority_state.is_pauser(ctx.authority) {
        return Err(WusdError::NotPauser);
    }
    ctx.pause_state.set_paused(true);
    Ok(())
}

/// Lifts the system-wide halt; only the pauser may, and a refusal changes
/// nothing. Unpausing an active system is no error.
pub fn unpause(ctx: &mut Unpause) -> (r: Result<(), WusdError>)
    ensures
        r == pauser_outcome(old(ctx).authority_state, old(ctx).authority),
        r is Ok ==> *final(ctx) == (Unpause { pause_state: PauseState { paused: false }, ..*old(ctx) }),
        r is Err ==> *final(ctx) == *old(ctx),
{
    if !ctx.authority_state.is_pauser(ctx.authority) {
        return Err(WusdError::NotPauser);
    }
    ctx.pause_state.set_paused(false);
    Ok(())
}

} // verus!
