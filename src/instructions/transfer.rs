use vstd::prelude::*;

use crate::address::Address;
use crate::error::WusdError;
use crate::guard::{
    debit_outcome, ensure_balance, ensure_debit, ensure_owner, ensure_positive, ensure_same_mint,
    ensure_permit_usable, ensure_side_active, side_halted,
};
use crate::ledger::LedgerAccount;
use crate::state::{consume_outcome, AccessRegistryState, FreezeState, PauseState, PermitState};

verus! {

/// The records a direct transfer reads: `from` signs and pays, `to` receives.
#[derive(Clone, Debug)]
pub struct Transfer {
    pub from: Address,
    pub to: Address,
    pub from_token: LedgerAccount,
    pub to_token: LedgerAccount,
    pub pause_state: PauseState,
    pub access_registry: AccessRegistryState,
    pub from_freeze_state: FreezeState,
    pub to_freeze_state: FreezeState,
}

/// The guard sequence of a direct transfer of `amount`, first refusal wins.
pub open spec fn transfer_outcome(ctx: Transfer, amount: u64) -> Result<(), WusdError> {
    if ctx.pause_state.paused {
        Err(WusdError::ContractPaused)
    } else if amount == 0 {
        Err(WusdError::InvalidAmount)
    } else if side_halted(ctx.from_freeze_state, ctx.from_token) {
        Err(WusdError::AccountFrozen)
    } else if side_halted(ctx.to_freeze_state, ctx.to_token) {
        Err(WusdError::AccountFrozen)
    } else if debit_outcome(ctx.access_registry, ctx.from) is Err {
        debit_outcome(ctx.access_registry, ctx.from)
    } else if ctx.from_token.owner != ctx.from || ctx.to_token.owner != ctx.to {
        Err(WusdError::InvalidOwner)
    } else if ctx.from_token.mint != ctx.to_token.mint {
        Err(WusdError::InvalidMint)
    } else if ctx.from_token.amount < amount {
        Err(WusdError::InsufficientBalance)
    } else {
        Ok(())
    }
}

/// Decides whether `from` may move `amount` from `from_token` to `to_token`.
///
/// `Ok` authorizes exactly one ledger transfer of `amount` between the two
/// token accounts; nothing is changed here.
pub fn transfer(ctx: &Transfer, amount: u64) -> (r: Result<(), WusdError>)
    requires
        ctx.access_registry.wf(),
    ensures
        r == transfer_outcome(*ctx, amount),
{
    ctx.pause_state.validate_not_paused()?;
    ensure_positive(amount)?;
    ensure_side_active(&ctx.from_freeze_state, &ctx.from_token)?;
    ensure_side_active(&ctx.to_freeze_state, &ctx.to_token)?;
    ensure_debit(&ctx.access_registry, ctx.from)?;
    ensure_owner(&ctx.from_token, ctx.from)?;
    ensure_owner(&ctx.to_token, ctx.to)?;
    ensure_same_mint(&ctx.from_token, &ctx.to_token)?;
    ensure_balance(&ctx.from_token, amount)?;
    Ok(())
}

/// The records a delegated transfer reads: `spender` signs and moves value out of
/// `owner`'s `from_token` under the `permit` that `owner` granted it.
#[derive(Clone, Debug)]
pub struct TransferFrom {
    pub spender: Address,
    pub owner: Address,
    pub from_token: LedgerAccount,
    pub to_token: LedgerAccount,
    pub permit: PermitState,
    pub pause_state: PauseState,
    pub access_registry: AccessRegistryState,
    pub from_freeze_state: FreezeState,
    pub to_freeze_state: FreezeState,
}

/// The permit, the token account and the signer all belong to one owner and
/// one spender.
pub open spec fn delegation_matches(ctx: TransferFrom) -> bool {
    ctx.permit.owner == ctx.owner && ctx.permit.spender == ctx.spender && ctx.from_token.owner
        == ctx.owner
}

/// The guard sequence of a delegated transfer of `amount` at time `now`, first
/// refusal wins.
pub open spec fn transfer_from_outcome(ctx: TransferFrom, amount: u64, now: i64) -> Result<(), WusdError> {
    if ctx.pause_state.paused {
        Err(WusdError::ContractPaused)
    } else if amount == 0 {
        Err(WusdError::InvalidAmount)
    } else if side_halted(ctx.from_freeze_state, ctx.from_token) {
        Err(WusdError::AccountFrozen)
    } else if side_halted(ctx.to_freeze_state, ctx.to_token) {
        Err(WusdError::AccountFrozen)
    } else if debit_outcome(ctx.access_registry, ctx.spender) is Err {
        debit_outcome(ctx.access_registry, ctx.spender)
    } else if consume_outcome(ctx.permit, amount, now) is Err {
        consume_outcome(ctx.permit, amount, now)
    } else if !delegation_matches(ctx) {
        Err(WusdError::InvalidOwner)
    } else if ctx.from_token.mint != ctx.to_token.mint {
        Err(WusdError::InvalidMint)
    } else if ctx.from_token.amount < amount {
        Err(WusdError::InsufficientBalance)
    } else {
        Ok(())
    }
}

/// Decides whether `spender` may move `amount` out of `owner`'s token account at
/// time `now`, and spends the permit if so.
///
/// `Ok` authorizes exactly one ledger transfer of `amount` from `from_token` to
/// `to_token`, and the permit's allowance has then dropped by `amount`; a
/// refusal changes nothing.
pub fn transfer_from(ctx: &mut TransferFrom, amount: u64, now: i64) -> (r: Result<(), WusdError>)
    requires
        old(ctx).access_registry.wf(),
    ensures
        r == transfer_from_outcome(*old(ctx), amount, now),
        r is Ok ==> *final(ctx) == (TransferFrom {
            permit: PermitState { amount: (old(ctx).permit.amount - amount) as u64, ..old(ctx).permit },
            ..*old(ctx)
        }),
        r is Err ==> *final(ctx) == *old(ctx),
{
    ctx.pause_state.validate_not_paused()?;
    ensure_positive(amount)?;
    ensure_side_active(&ctx.from_freeze_state, &ctx.from_token)?;
    ensure_side_active(&ctx.to_freeze_state, &ctx.to_token)?;
    ensure_debit(&ctx.access_registry, ctx.spender)?;
    ensure_permit_usable(&ctx.permit, amount, now)?;
    if ctx.permit.owner != ctx.owner || ctx.permit.spender != ctx.spender {
        return Err(WusdError::InvalidOwner);
    }
    ensure_owner(&ctx.from_token, ctx.owner)?;
    ensure_same_mint(&ctx.from_token, &ctx.to_token)?;
    ensure_balance(&ctx.from_token, amount)?;
    ctx.permit.consume(amount, now)
}

} // verus!
