use vstd::prelude::*;

use crate::address::Address;
use crate::error::WusdError;
use crate::state::{
    add_operator_outcome, operators_after_add, operators_after_remove, remove_operator_outcome,
    AccessRegistryState, AuthorityState,
};

verus! {

/// The records an operator change reads and changes: `authority` signs.
#[derive(Clone, Debug)]
pub struct ManageOperator {
    pub authority: Address,
    pub authority_state: AuthorityState,
    pub access_registry: AccessRegistryState,
}

/// The checks every operator change passes first: an initialized registry, and
/// the administrator as signer.
pub open spec fn manage_outcome(ctx: ManageOperator) -> Result<(), WusdError> {
    if !ctx.access_registry.initialized {
        Err(WusdError::AccessRegistryNotInitialized)
    } else if ctx.authority_state.admin != ctx.authority {
        Err(WusdError::Unauthorized)
    } else {
        Ok(())
    }
}

/// Whether the administrator's addition of `operator` succeeds.
pub open spec fn add_outcome(ctx: ManageOperator, operator: Address) -> Result<(), WusdError> {
    if manage_outcome(ctx) is Err {
        manage_outcome(ctx)
    } else {
        add_operator_outcome(ctx.access_registry.operator_list(), operator)
    }
}

/// Whether the administrator's removal of `operator` succeeds.
pub open spec fn remove_outcome(ctx: ManageOperator, operator: Address) -> Result<(), WusdError> {
    if manage_outcome(ctx) is Err {
        manage_outcome(ctx)
    } else {
        remove_operator_outcome(ctx.access_registry.operator_list(), operator)
    }
}

/// Grants `operator` the debit capability. Available while the system is paused.
///
/// After the registry and signer checks this behaves as
/// `AccessRegistryState::add_operator`: adding a present operator succeeds
/// and changes nothing. The all-zero address is never an operator.
pub fn add_operator(ctx: &mut ManageOperator, operator: Address) -> (r: Result<(), WusdError>)
    requires
        old(ctx).access_registry.wf(),
        !operator.is_cleared(),
    ensures
        r == add_outcome(*old(ctx), operator),
        final(ctx).access_registry.wf(),
        final(ctx).authority == old(ctx).authority,
        final(ctx).authority_state == old(ctx).authority_state,
        final(ctx).access_registry.authority == old(ctx).access_registry.authority,
        final(ctx).access_registry.initialized == old(ctx).access_registry.initialized,
        final(ctx).access_registry.operator_list() == if manage_outcome(*old(ctx)) is Ok {
            operators_after_add(old(ctx).access_registry.operator_list(), operator)
        } else {
            old(ctx).access_registry.operator_list()
        },
{
    if !ctx.access_registry.initialized {
        return Err(WusdError::AccessRegistryNotInitialized);
    }
    if !ctx.authority_state.is_admin(ctx.authority) {
        return Err(WusdError::Unauthorized);
    }
    ctx.access_registry.add_operator(operator)
}

/// Takes the debit capability from `operator`. Available while the system is
/// paused.
///
/// After the registry and signer checks this behaves as
/// `AccessRegistryState::remove_operator`: an absent operator is refused with
/// `OperatorNotFound`.
pub fn remove_operator(ctx: &mut ManageOperator, operator: Address) -> (r: Result<(), WusdError>)
    requires
        old(ctx).access_registry.wf(),
    ensures
        r == remove_outcome(*old(ctx), operator),
        final(ctx).access_registry.wf(),
        final(ctx).authority == old(ctx).authority,
        final(ctx).authority_state == old(ctx).authority_state,
        final(ctx).access_registry.authority == old(ctx).access_registry.authority,
        final(ctx).access_registry.initialized == old(ctx).access_registry.initialized,
        final(ctx).access_registry.operator_list() == if manage_outcome(*old(ctx)) is Ok {
            operators_after_remove(old(ctx).access_registry.operator_list(), operator)
        } else {
            old(ctx).access_registry.operator_list()
        },
{
    if !ctx.access_registry.initialized {
        return Err(WusdError::AccessRegistryNotInitialized);
    }
    if !ctx.authority_state.is_admin(ctx.authority) {
        return Err(WusdError::Unauthorized);
    }
    ctx.access_registry.remove_operator(operator)
}

} // verus!
