use vstd::prelude::*;

use crate::access::AccessLevel;
use crate::address::Address;
use crate::error::WusdError;
use crate::guard::{debit_outcome, side_halted};
use crate::instructions::burn::{burn_outcome, Burn};
use crate::instructions::freeze::{freeze_outcome, unfreeze_outcome, FreezeAccount, UnfreezeAccount};
use crate::instructions::mint::{mint_outcome, MintAccounts};
use crate::instructions::transfer::{transfer_from_outcome, transfer_outcome, Transfer, TransferFrom};
use crate::state::{
    add_operator_outcome, consume_outcome, operators_after_add, operators_after_remove,
    remove_operator_outcome, FreezeState, PermitState,
};

verus! {

/// A direct transfer of a positive amount, between token accounts that belong to
/// the signer and the recipient and hold one asset, is authorized exactly when
/// the system is active, neither side is halted, the capability check grants the
/// sender debit (and the recipient credit, which always holds), and the sender's
/// balance covers the amount.
pub proof fn lemma_transfer_authorized_iff(ctx: Transfer, amount: u64)
    requires
        amount > 0,
        ctx.from_token.owner == ctx.from,
        ctx.to_token.owner == ctx.to,
        ctx.from_token.mint == ctx.to_token.mint,
    ensures
        transfer_outcome(ctx, amount) is Ok <==> {
            &&& !ctx.pause_state.paused
            &&& !side_halted(ctx.from_freeze_state, ctx.from_token)
            &&& !side_halted(ctx.to_freeze_state, ctx.to_token)
            &&& debit_outcome(ctx.access_registry, ctx.from) is Ok
            &&& ctx.access_registry.grants(ctx.to, AccessLevel::Credit)
            &&& ctx.from_token.amount >= amount
        },
{
}

/// Freezing is a strict transition: an account that a freeze has just halted
/// cannot be frozen again, and a halted account is never frozen with success;
/// the administrator is told `AccountAlreadyFrozen`.
pub proof fn lemma_freeze_is_strict(ctx: FreezeAccount)
    ensures
        ctx.freeze_state.is_frozen ==> freeze_outcome(ctx) is Err,
        ctx.freeze_state.is_frozen && ctx.authority_state.admin == ctx.authority ==> freeze_outcome(
            ctx,
        ) == Err::<(), WusdError>(WusdError::AccountAlreadyFrozen),
        freeze_outcome(ctx) is Ok ==> freeze_outcome(
            FreezeAccount { freeze_state: FreezeState { is_frozen: true }, ..ctx },
        ) == Err::<(), WusdError>(WusdError::AccountAlreadyFrozen),
{
}

/// Unfreezing is a strict transition too: an account that is not halted is
/// never unfrozen with success; the administrator is told `AccountNotFrozen`.
pub proof fn lemma_unfreeze_is_strict(ctx: UnfreezeAccount)
    ensures
        !ctx.freeze_state.is_frozen ==> unfreeze_outcome(ctx) is Err,
        !ctx.freeze_state.is_frozen && ctx.authority_state.admin == ctx.authority
            ==> unfreeze_outcome(ctx) == Err::<(), WusdError>(WusdError::AccountNotFrozen),
        unfreeze_outcome(ctx) is Ok ==> unfreeze_outcome(
            UnfreezeAccount { freeze_state: FreezeState { is_frozen: false }, ..ctx },
        ) == Err::<(), WusdError>(WusdError::AccountNotFrozen),
{
}

/// Adding an operator twice is the same as adding it once: the second addition
/// leaves the list, and so the count, as the first left it, and succeeds or
/// fails as the first did.
pub proof fn lemma_add_operator_idempotent(ops: Seq<Address>, op: Address)
    ensures
        operators_after_add(operators_after_add(ops, op), op) == operators_after_add(ops, op),
        add_operator_outcome(operators_after_add(ops, op), op) == add_operator_outcome(ops, op),
{
    if !ops.contains(op) && ops.len() < crate::state::MAX_OPERATORS {
        assert(ops.push(op)[ops.len() as int] == op);
    }
}

/// Removing an absent operator is refused with `OperatorNotFound` and changes
/// nothing; removing a present one succeeds, shortens the list by exactly one,
/// takes out that address and no other, and keeps the rest in order.
pub proof fn lemma_remove_operator(ops: Seq<Address>, op: Address)
    requires
        ops.no_duplicates(),
    ensures
        !ops.contains(op) ==> remove_operator_outcome(ops, op) == Err::<(), WusdError>(
            WusdError::OperatorNotFound,
        ) && operators_after_remove(ops, op) == ops,
        ops.contains(op) ==> {
            &&& remove_operator_outcome(ops, op) is Ok
            &&& operators_after_remove(ops, op).len() == ops.len() - 1
            &&& !operators_after_remove(ops, op).contains(op)
            &&& exists|i: int|
                0 <= i < ops.len() && ops[i] == op && operators_after_remove(ops, op) == ops.subrange(
                    0,
                    i,
                ) + ops.subrange(i + 1, ops.len() as int)
        },
{
    if ops.contains(op) {
        let i = ops.index_of(op);
        let after = operators_after_remove(ops, op);
        assert(after == ops.subrange(0, i) + ops.subrange(i + 1, ops.len() as int));
        assert forall|k: int| 0 <= k < after.len() implies after[k] != op by {
            if k < i {
                assert(after[k] == ops[k]);
            } else {
                assert(after[k] == ops[k + 1]);
            }
        }
    }
}

/// Consuming more than is left of a live permit is refused with
/// `InsufficientAllowance`; consuming exactly what is left succeeds and leaves
/// a permit from which no positive amount can be consumed any more.
pub proof fn lemma_permit_allowance_bounds(permit: PermitState, amount: u64, now: i64, later: i64)
    ensures
        permit.expiration > now && amount > permit.amount ==> consume_outcome(permit, amount, now)
            == Err::<(), WusdError>(WusdError::InsufficientAllowance),
        permit.expiration > now ==> consume_outcome(permit, permit.amount, now) is Ok,
        amount > 0 ==> consume_outcome(PermitState { amount: 0, ..permit }, amount, later) is Err,
{
}

/// A permit whose expiration has been reached is refused with `PermitExpired`,
/// however much allowance is left.
pub proof fn lemma_expired_permit_refused(permit: PermitState, amount: u64, now: i64)
    requires
        permit.expiration <= now,
    ensures
        consume_outcome(permit, amount, now) == Err::<(), WusdError>(WusdError::PermitExpired),
{
}

/// While the system is paused every mint, burn, direct transfer and delegated
/// transfer is refused with `ContractPaused`, whatever else holds.
pub proof fn lemma_pause_halts_value_moves(
    mint_ctx: MintAccounts,
    burn_ctx: Burn,
    transfer_ctx: Transfer,
    transfer_from_ctx: TransferFrom,
    amount: u64,
    now: i64,
)
    requires
        mint_ctx.pause_state.paused,
        burn_ctx.pause_state.paused,
        transfer_ctx.pause_state.paused,
        transfer_from_ctx.pause_state.paused,
    ensures
        mint_outcome(mint_ctx, amount) == Err::<(), WusdError>(WusdError::ContractPaused),
        burn_outcome(burn_ctx, amount) == Err::<(), WusdError>(WusdError::ContractPaused),
        transfer_outcome(transfer_ctx, amount) == Err::<(), WusdError>(WusdError::ContractPaused),
        transfer_from_outcome(transfer_from_ctx, amount, now) == Err::<(), WusdError>(
            WusdError::ContractPaused,
        ),
{
}

} // verus!
