use vstd::prelude::*;

use crate::address::Address;
use crate::error::WusdError;
use crate::state::{AllowanceState, PermitState};

verus! {

/// What a permit allows its spender to do.
#[derive(Clone, Copy, Debug, PartialEq, Eq, Structural)]
pub struct PermitScope {
    /// One use only.
    pub one_time: bool,
    /// No use limit.
    pub permanent: bool,
    /// Transfers.
    pub transfer: bool,
    /// Burns.
    pub burn: bool,
    /// Everything.
    pub all: bool,
}

impl PermitScope {
    /// The scope of an ordinary grant: lasting transfer rights.
    pub fn transfer_only() -> (r: PermitScope)
        ensures
            !r.one_time && r.permanent && r.transfer && !r.burn && !r.all,
    {
        PermitScope { one_time: false, permanent: true, transfer: true, burn: false, all: false }
    }
}

/// The records a grant reads and changes: `owner` signs and delegates to
/// `spender`. `permit_bump` is the seed byte of the permit record's address.
#[derive(Clone, Copy, Debug)]
pub struct Permit {
    pub owner: Address,
    pub spender: Address,
    pub allowance: AllowanceState,
    pub permit_state: PermitState,
    pub permit_bump: u8,
}

/// What the owner asks for in a grant.
#[derive(Clone, Copy, Debug)]
pub struct PermitParams {
    pub amount: u64,
    pub deadline: i64,
    pub nonce: Option<u64>,
    pub scope: PermitScope,
    pub signature: [u8; 64],
    pub public_key: [u8; 32],
}

/// The message an owner signs off-line to authorize a grant.
#[derive(Clone, Copy, Debug)]
pub struct PermitMessage {
    pub contract: Address,
    pub domain_separator: [u8; 32],
    pub owner: Address,
    pub spender: Address,
    pub amount: u64,
    pub nonce: u64,
    pub deadline: i64,
    pub scope: PermitScope,
    pub chain_id: u64,
    pub version: [u8; 32],
}

/// The permit record after a grant: the asked amount and deadline, the pair of
/// `ctx`, and the nonce the record had, which a grant never lowers.
pub open spec fn granted_permit(ctx: Permit, params: PermitParams) -> PermitState {
    PermitState {
        owner: ctx.owner,
        spender: ctx.spender,
        nonce: ctx.permit_state.nonce,
        amount: params.amount,
        expiration: params.deadline,
        bump: ctx.permit_bump,
    }
}

/// Grants `spender` the right to move up to `params.amount` of `owner`'s value
/// until `params.deadline`, replacing any earlier grant of the pair.
///
/// A zero amount is refused with `InvalidAmount` and changes nothing. The nonce
/// is kept as it was: advancing it is the caller's choice.
pub fn permit(ctx: &mut Permit, params: &PermitParams) -> (r: Result<(), WusdError>)
    ensures
        r == if params.amount == 0 {
            Err::<(), WusdError>(WusdError::InvalidAmount)
        } else {
            Ok(())
        },
        r is Ok ==> *final(ctx) == (Permit {
            permit_state: granted_permit(*old(ctx), *params),
            allowance: AllowanceState {
                owner: old(ctx).owner,
                spender: old(ctx).spender,
                amount: params.amount,
            },
            ..*old(ctx)
        }),
        r is Err ==> *final(ctx) == *old(ctx),
{
    if params.amount == 0 {
        return Err(WusdError::InvalidAmount);
    }
    let nonce = ctx.permit_state.nonce;
    let mut granted = PermitState::initialize(
        ctx.owner,
        ctx.spender,
        params.amount,
        params.deadline,
        ctx.permit_bump,
    );
    granted.nonce = nonce;
    ctx.permit_state = granted;
    ctx.allowance = AllowanceState::initialize(ctx.owner, ctx.spender, params.amount);
    Ok(())
}

} // verus!
