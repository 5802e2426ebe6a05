//! The authorization layer of a token program: roles, the system-wide pause,
//! per-account freezes, the operator registry, delegated permits, and the fixed
//! guard sequence that every mint, burn, transfer and delegated transfer passes
//! before the value ledger is asked to move anything.
use vstd::prelude::*;

pub mod access;
pub mod address;
pub mod error;
pub mod guard;
pub mod instructions;
pub mod laws;
pub mod ledger;
pub mod state;
pub mod utils;

pub use access::AccessLevel;
pub use address::Address;
pub use error::WusdError;
pub use instructions::burn::{burn, Burn};
pub use instructions::freeze::{
    freeze_account, initialize_freeze_state, unfreeze_account, FreezeAccount, InitializeFreezeState,
    UnfreezeAccount,
};
pub use instructions::mint::{mint, MintAccounts};
pub use instructions::operator::{add_operator, remove_operator, ManageOperator};
pub use instructions::pause::{pause, unpause, Pause, Unpause};
pub use instructions::permit::{permit, Permit, PermitMessage, PermitParams, PermitScope};
pub use instructions::transfer::{transfer, transfer_from, Transfer, TransferFrom};
pub use ledger::LedgerAccount;
pub use state::{
    AccessRegistryState, AllowanceState, AuthorityState, FreezeState, MintState, PauseState,
    PermitState,
};

verus! {

/// The records the deployment's setup fills: `authority` founds it and holds
/// every role at first; `token_mint` is the asset.
#[derive(Clone, Copy, Debug)]
pub struct Initialize {
    pub authority: Address,
    pub authority_state: AuthorityState,
    pub token_mint: Address,
    pub mint_state: MintState,
    pub pause_state: PauseState,
}

/// Sets up a deployment: all three roles to the founder, the asset and its
/// precision recorded, the system active.
pub fn initialize(ctx: &mut Initialize, decimals: u8) -> (r: Result<(), WusdError>)
    ensures
        r is Ok,
        final(ctx).authority == old(ctx).authority,
        final(ctx).token_mint == old(ctx).token_mint,
        final(ctx).authority_state == (AuthorityState {
            admin: old(ctx).authority,
            minter: old(ctx).authority,
            pauser: old(ctx).authority,
        }),
        final(ctx).mint_state == (MintState { mint: old(ctx).token_mint, decimals }),
        !final(ctx).pause_state.paused,
{
    ctx.authority_state = AuthorityState::initialize(ctx.authority);
    ctx.mint_state = MintState { mint: ctx.token_mint, decimals };
    ctx.pause_state = PauseState { paused: false };
    Ok(())
}

/// The records the operator registry's setup fills: `authority` administers it.
#[derive(Clone, Debug)]
pub struct InitializeAccessRegistry {
    pub authority: Address,
    pub access_registry: AccessRegistryState,
}

/// Starts the operator registry: initialized, empty, administered by the signer.
pub fn initialize_access_registry(ctx: &mut InitializeAccessRegistry) -> (r: Result<(), WusdError>)
    ensures
        r is Ok,
        final(ctx).authority == old(ctx).authority,
        final(ctx).access_registry.wf(),
        final(ctx).access_registry.authority == old(ctx).authority,
        final(ctx).access_registry.initialized,
        final(ctx).access_registry.operator_list() == Seq::<Address>::empty(),
{
    let mut registry = AccessRegistryState::new(ctx.authority);
    registry.initialized = true;
    ctx.access_registry = registry;
    Ok(())
}

} // verus!
