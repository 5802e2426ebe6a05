use vstd::prelude::*;

use crate::access::AccessLevel;
use crate::address::Address;
use crate::error::WusdError;

verus! {

/// How many operators the registry can hold.
pub const MAX_OPERATORS: usize = 10;

/// A plain delegated allowance from `owner` to `spender`, without expiry or nonce.
#[derive(Clone, Copy, Debug)]
pub struct AllowanceState {
    pub owner: Address,
    pub spender: Address,
    pub amount: u64,
}

impl AllowanceState {
    /// Bytes of storage the record takes, tag included.
    pub const SIZE: usize = 8 + 32 + 32 + 8;

    /// An allowance of `amount` from `owner` to `spender`.
    pub fn initialize(owner: Address, spender: Address, amount: u64) -> (r: Self)
        ensures
            r.owner == owner,
            r.spender == spender,
            r.amount == amount,
    {
        AllowanceState { owner, spender, amount }
    }

    /// Raises the allowance by `added_value`; an overflow is refused and changes nothing.
    pub fn increase_allowance(&mut self, added_value: u64) -> (r: Result<(), WusdError>)
        ensures
            final(self).owner == old(self).owner,
            final(self).spender == old(self).spender,
            old(self).amount + added_value <= u64::MAX ==> r == Ok::<(), WusdError>(())
                && final(self).amount == old(self).amount + added_value,
            old(self).amount + added_value > u64::MAX ==> r == Err::<(), WusdError>(
                WusdError::InvalidAmount,
            ) && final(self).amount == old(self).amount,
    {
        match self.amount.checked_add(added_value) {
            Some(v) => {
                self.amount = v;
                Ok(())
            },
            None => Err(WusdError::InvalidAmount),
        }
    }

    /// Lowers the allowance by `subtracted_value`; more than is left is refused and
    /// changes nothing.
    pub fn decrease_allowance(&mut self, subtracted_value: u64) -> (r: Result<(), WusdError>)
        ensures
            final(self).owner == old(self).owner,
            final(self).spender == old(self).spender,
            subtracted_value <= old(self).amount ==> r == Ok::<(), WusdError>(())
                && final(self).amount == old(self).amount - subtracted_value,
            subtracted_value > old(self).amount ==> r == Err::<(), WusdError>(
                WusdError::InvalidAmount,
            ) && final(self).amount == old(self).amount,
    {
        if self.amount < subtracted_value {
            return Err(WusdError::InvalidAmount);
        }
        match self.amount.checked_sub(subtracted_value) {
            Some(v) => {
                self.amount = v;
                Ok(())
            },
            None => Err(WusdError::InvalidAmount),
        }
    }

    /// Succeeds when at least `amount` is left.
    pub fn validate_allowance(&self, amount: u64) -> (r: Result<(), WusdError>)
        ensures
            r is Ok <==> amount <= self.amount,
            r is Err ==> r == Err::<(), WusdError>(WusdError::InvalidAmount),
    {
        if self.amount >= amount {
            Ok(())
        } else {
            Err(WusdError::InvalidAmount)
        }
    }
}

/// A time-bounded, amount-bounded delegation from `owner` to `spender`.
///
/// `amount` is what is left to spend; `expiration` is the first instant at which
/// the permit no longer holds; `nonce` counts re-grants for replay protection.
#[derive(Clone, Copy, Debug)]
pub struct PermitState {
    pub owner: Address,
    pub spender: Address,
    pub nonce: u64,
    pub amount: u64,
    pub expiration: i64,
    pub bump: u8,
}

/// What consuming `amount` of a permit at time `now` yields.
pub open spec fn consume_outcome(permit: PermitState, amount: u64, now: i64) -> Result<(), WusdError> {
    if permit.expiration <= now {
        Err(WusdError::PermitExpired)
    } else if permit.amount < amount {
        Err(WusdError::InsufficientAllowance)
    } else {
        Ok(())
    }
}

impl PermitState {
    /// Bytes of storage the record takes, tag included.
    pub const SIZE: usize = 8 + 32 + 32 + 8 + 8 + 8 + 1;

    /// A fresh permit, with its nonce at zero.
    pub fn initialize(owner: Address, spender: Address, amount: u64, expiration: i64, bump: u8) -> (r: Self)
        ensures
            r.owner == owner,
            r.spender == spender,
            r.nonce == 0,
            r.amount == amount,
            r.expiration == expiration,
            r.bump == bump,
    {
        PermitState { owner, spender, nonce: 0, amount, expiration, bump }
    }

    /// Advances the nonce by one; at the largest value it stays there.
    pub fn increment_nonce(&mut self)
        ensures
            final(self).nonce == if old(self).nonce == u64::MAX {
                old(self).nonce
            } else {
                (old(self).nonce + 1) as u64
            },
            final(self).owner == old(self).owner,
            final(self).spender == old(self).spender,
            final(self).amount == old(self).amount,
            final(self).expiration == old(self).expiration,
            final(self).bump == old(self).bump,
    {
        self.nonce = self.nonce.saturating_add(1);
    }

    /// Succeeds when the nonce is `expected_nonce`.
    pub fn validate_nonce(&self, expected_nonce: u64) -> (r: Result<(), WusdError>)
        ensures
            r is Ok <==> self.nonce == expected_nonce,
            r is Err ==> r == Err::<(), WusdError>(WusdError::InvalidNonce),
    {
        if self.nonce == expected_nonce {
            Ok(())
        } else {
            Err(WusdError::InvalidNonce)
        }
    }

    /// Spends `amount` of the permit at time `now`.
    ///
    /// Refused with `PermitExpired` once `now` has reached the expiration, and with
    /// `InsufficientAllowance` when less than `amount` is left; a refusal changes
    /// nothing, and a success lowers the allowance by exactly `amount`.
    pub fn consume(&mut self, amount: u64, now: i64) -> (r: Result<(), WusdError>)
        ensures
            r == consume_outcome(*old(self), amount, now),
            r is Ok ==> final(self).amount == old(self).amount - amount,
            r is Err ==> final(self).amount == old(self).amount,
            final(self).owner == old(self).owner,
            final(self).spender == old(self).spender,
            final(self).nonce == old(self).nonce,
            final(self).expiration == old(self).expiration,
            final(self).bump == old(self).bump,
    {
        if self.expiration <= now {
            return Err(WusdError::PermitExpired);
        }
        if self.amount < amount {
            return Err(WusdError::InsufficientAllowance);
        }
        match self.amount.checked_sub(amount) {
            Some(v) => {
                self.amount = v;
                Ok(())
            },
            None => Err(WusdError::InsufficientAllowance),
        }
    }
}

/// The three singleton roles of a deployment.
#[derive(Clone, Copy, Debug)]
pub struct AuthorityState {
    pub admin: Address,
    pub minter: Address,
    pub pauser: Address,
}

impl AuthorityState {
    /// Bytes of storage the record takes, tag included.
    pub const SIZE: usize = 8 + 32 * 3;

    /// All three roles held by the founding address.
    pub fn initialize(admin: Address) -> (r: Self)
        ensures
            r.admin == admin,
            r.minter == admin,
            r.pauser == admin,
    {
        AuthorityState { admin, minter: admin, pauser: admin }
    }

    pub fn is_admin(&self, user: Address) -> (r: bool)
        ensures
            r == (self.admin == user),
    {
        self.admin == user
    }

    pub fn is_minter(&self, user: Address) -> (r: bool)
        ensures
            r == (self.minter == user),
    {
        self.minter == user
    }

    pub fn is_pauser(&self, user: Address) -> (r: bool)
        ensures
            r == (self.pauser == user),
    {
        self.pauser == user
    }
}

/// The operator list after `op` was offered to the registry holding `ops`: an
/// address already there, or a full list, leaves it as it was.
pub open spec fn operators_after_add(ops: Seq<Address>, op: Address) -> Seq<Address> {
    if ops.contains(op) || ops.len() >= MAX_OPERATORS {
        ops
    } else {
        ops.push(op)
    }
}

/// Whether offering `op` to the registry holding `ops` succeeds.
pub open spec fn add_operator_outcome(ops: Seq<Address>, op: Address) -> Result<(), WusdError> {
    if !ops.contains(op) && ops.len() >= MAX_OPERATORS {
        Err(WusdError::TooManyOperators)
    } else {
        Ok(())
    }
}

/// The operator list after `op` was taken out: its entry removed, the rest in order.
pub open spec fn operators_after_remove(ops: Seq<Address>, op: Address) -> Seq<Address> {
    if ops.contains(op) {
        ops.remove(ops.index_of(op))
    } else {
        ops
    }
}

/// Whether taking `op` out of the registry holding `ops` succeeds.
pub open spec fn remove_operator_outcome(ops: Seq<Address>, op: Address) -> Result<(), WusdError> {
    if ops.contains(op) {
        Ok(())
    } else {
        Err(WusdError::OperatorNotFound)
    }
}

/// The bounded set of addresses allowed to send value, besides the authority.
///
/// The first `operator_count` slots of `operators` hold the operators in the order
/// they were added; the remaining slots are cleared.
#[derive(Clone, Debug)]
pub struct AccessRegistryState {
    pub authority: Address,
    pub initialized: bool,
    pub operators: Vec<Address>,
    pub operator_count: u8,
}

impl AccessRegistryState {
    /// Bytes of storage the record takes, tag included.
    pub const SIZE: usize = 8 + 32 + 4 + (32 * 10) + 1;

    /// The operators, in the order they were added.
    pub open spec fn operator_list(self) -> Seq<Address> {
        self.operators@.subrange(0, self.operator_count as int)
    }

    /// Slots sized to capacity, no operator twice, no operator the all-zero
    /// address, unused slots cleared: `operator_count` is then the number of
    /// slots that are not cleared.
    pub open spec fn wf(self) -> bool {
        &&& self.operators@.len() == MAX_OPERATORS
        &&& self.operator_count <= MAX_OPERATORS
        &&& self.operator_list().no_duplicates()
        &&& forall|k: int| 0 <= k < self.operator_count ==> !(#[trigger] self.operators@[k]).is_cleared()
        &&& forall|k: int|
            self.operator_count <= k < MAX_OPERATORS ==> (#[trigger] self.operators@[k]).is_cleared()
    }

    /// Whether `user` holds the capability `level`: credit always, debit when
    /// `user` is the authority or an operator.
    pub open spec fn grants(self, user: Address, level: AccessLevel) -> bool {
        level == AccessLevel::Credit || user == self.authority || self.operator_list().contains(user)
    }

    /// Whether the record is well formed: to be asked of a record read from
    /// storage before any other method is called on it.
    pub fn is_well_formed(&self) -> (r: bool)
        ensures
            r == self.wf(),
    {
        if self.operators.len() != MAX_OPERATORS || self.operator_count as usize > MAX_OPERATORS {
            return false;
        }
        let count = self.operator_count as usize;
        let mut n: usize = 0;
        while n < count
            invariant
                self.operators@.len() == MAX_OPERATORS,
                count == self.operator_count,
                count <= MAX_OPERATORS,
                0 <= n <= count,
                forall|m: int| 0 <= m < n ==> !(#[trigger] self.operators@[m]).is_cleared(),
            decreases count - n,
        {
            if self.operators[n].is_zero() {
                return false;
            }
            n = n + 1;
        }
        let mut i: usize = 0;
        while i < count
            invariant
                self.operators@.len() == MAX_OPERATORS,
                count == self.operator_count,
                count <= MAX_OPERATORS,
                forall|m: int| 0 <= m < count ==> !(#[trigger] self.operators@[m]).is_cleared(),
                0 <= i <= count,
                forall|a: int, b: int|
                    0 <= a < i && 0 <= b < count && a != b ==> self.operators@[a] != self.operators@[b],
            decreases count - i,
        {
            let mut j: usize = 0;
            while j < count
                invariant
                    self.operators@.len() == MAX_OPERATORS,
                    count == self.operator_count,
                    count <= MAX_OPERATORS,
                    0 <= i < count,
                    0 <= j <= count,
                    forall|m: int| 0 <= m < count ==> !(#[trigger] self.operators@[m]).is_cleared(),
                    forall|a: int, b: int|
                        0 <= a < i && 0 <= b < count && a != b ==> self.operators@[a] != self.operators@[b],
                    forall|b: int| 0 <= b < j && b != i ==> self.operators@[i as int] != self.operators@[b],
                decreases count - j,
            {
                if j != i && self.operators[i] == self.operators[j] {
                    assert(!self.operator_list().no_duplicates()) by {
                        assert(self.operator_list()[i as int] == self.operator_list()[j as int]);
                    }
                    return false;
                }
                j = j + 1;
            }
            i = i + 1;
        }
        assert(self.operator_list().no_duplicates()) by {
            assert forall|a: int, b: int|
                0 <= a < self.operator_list().len() && 0 <= b < self.operator_list().len() && a != b
                    implies self.operator_list()[a] != self.operator_list()[b] by {
                assert(self.operator_list()[a] == self.operators@[a]);
                assert(self.operator_list()[b] == self.operators@[b]);
            }
        }
        let mut k: usize = count;
        while k < MAX_OPERATORS
            invariant
                self.operators@.len() == MAX_OPERATORS,
                count == self.operator_count,
                count <= k <= MAX_OPERATORS,
                self.operator_list().no_duplicates(),
                forall|m: int| 0 <= m < count ==> !(#[trigger] self.operators@[m]).is_cleared(),
                forall|m: int| count <= m < k ==> (#[trigger] self.operators@[m]).is_cleared(),
            decreases MAX_OPERATORS - k,
        {
            if !self.operators[k].is_zero() {
                return false;
            }
            k = k + 1;
        }
        true
    }

    /// An empty, not yet initialized registry administered by `authority`.
    pub fn new(authority: Address) -> (r: Self)
        ensures
            r.wf(),
            r.authority == authority,
            !r.initialized,
            r.operator_list() == Seq::<Address>::empty(),
    {
        let mut operators: Vec<Address> = Vec::new();
        let mut i: usize = 0;
        while i < MAX_OPERATORS
            invariant
                i <= MAX_OPERATORS,
                operators@.len() == i,
                forall|k: int| 0 <= k < i ==> (#[trigger] operators@[k]).is_cleared(),
            decreases MAX_OPERATORS - i,
        {
            operators.push(Address::cleared());
            i = i + 1;
        }
        let r = AccessRegistryState { authority, operator_count: 0, operators, initialized: false };
        assert(r.operator_list() =~= Seq::<Address>::empty());
        r
    }

    /// Adds `operator` to the registry.
    ///
    /// An address already present is a success that changes nothing; otherwise a
    /// full registry refuses with `TooManyOperators`, and a registry with room
    /// appends the address. The all-zero address marks an empty slot and is
    /// never an operator.
    pub fn add_operator(&mut self, operator: Address) -> (r: Result<(), WusdError>)
        requires
            old(self).wf(),
            !operator.is_cleared(),
        ensures
            final(self).wf(),
            final(self).authority == old(self).authority,
            final(self).initialized == old(self).initialized,
            final(self).operator_list() == operators_after_add(old(self).operator_list(), operator),
            r == add_operator_outcome(old(self).operator_list(), operator),
    {
        let count = self.operator_count as usize;
        let mut i: usize = 0;
        while i < count
            invariant
                self.wf(),
                self.authority == old(self).authority,
                self.initialized == old(self).initialized,
                self.operators@ == old(self).operators@,
                count == self.operator_count,
                0 <= i <= count,
                forall|k: int| 0 <= k < i ==> self.operators@[k] != operator,
            decreases count - i,
        {
            if self.operators[i] == operator {
                assert(self.operator_list()[i as int] == operator);
                return Ok(());
            }
            i = i + 1;
        }
        assert(!self.operator_list().contains(operator));
        if count >= MAX_OPERATORS {
            return Err(WusdError::TooManyOperators);
        }
        let ghost before = self.operator_list();
        self.operators.set(count, operator);
        self.operator_count = self.operator_count + 1;
        assert(self.operator_list() =~= before.push(operator));
        Ok(())
    }

    /// Takes `operator` out of the registry.
    ///
    /// An absent address is refused with `OperatorNotFound` and changes nothing;
    /// otherwise the entries after it move up one slot, keeping their order, and
    /// the slot freed at the end is cleared.
    pub fn remove_operator(&mut self, operator: Address) -> (r: Result<(), WusdError>)
        requires
            old(self).wf(),
        ensures
            final(self).wf(),
            final(self).authority == old(self).authority,
            final(self).initialized == old(self).initialized,
            final(self).operator_list() == operators_after_remove(old(self).operator_list(), operator),
            r == remove_operator_outcome(old(self).operator_list(), operator),
    {
        let count = self.operator_count as usize;
        let ghost orig = self.operators@;
        let ghost list = self.operator_list();
        let mut i: usize = 0;
        while i < count
            invariant
                self.wf(),
                self.operators@ == orig,
                orig == old(self).operators@,
                count == old(self).operator_count,
                self.authority == old(self).authority,
                self.initialized == old(self).initialized,
                list == self.operator_list(),
                count == self.operator_count,
                0 <= i <= count,
                forall|k: int| 0 <= k < i ==> orig[k] != operator,
            decreases count - i,
        {
            if self.operators[i] == operator {
                let mut j: usize = i;
                while j + 1 < count
                    invariant
                        i <= j < count,
                        count == self.operator_count,
                        count <= MAX_OPERATORS,
                        self.authority == old(self).authority,
                        self.initialized == old(self).initialized,
                        orig.len() == MAX_OPERATORS,
                        orig == old(self).operators@,
                        count == old(self).operator_count,
                        list == orig.subrange(0, count as int),
                        list.no_duplicates(),
                        list[i as int] == operator,
                        forall|k: int| count <= k < MAX_OPERATORS ==> (#[trigger] orig[k]).is_cleared(),
                        forall|k: int| 0 <= k < count ==> !(#[trigger] orig[k]).is_cleared(),
                        self.operators@.len() == MAX_OPERATORS,
                        forall|k: int| 0 <= k < i ==> self.operators@[k] == orig[k],
                        forall|k: int| i <= k < j ==> self.operators@[k] == orig[k + 1],
                        forall|k: int| j <= k < MAX_OPERATORS ==> self.operators@[k] == orig[k],
                    decreases count - j,
                {
                    let next = self.operators[j + 1];
                    self.operators.set(j, next);
                    j = j + 1;
                }
                self.operators.set(count - 1, Address::cleared());
                self.operator_count = self.operator_count - 1;
                proof {
                    assert(list[i as int] == operator);
                    assert(list.contains(operator));
                    let idx = list.index_of(operator);
                    assert(list[idx] == operator);
                    assert(idx == i);
                    assert(self.operator_list() =~= list.remove(i as int));
                    assert forall|a: int, b: int|
                        0 <= a < self.operator_list().len() && 0 <= b < self.operator_list().len()
                            && a != b implies self.operator_list()[a] != self.operator_list()[b] by {
                        let a0 = if a < i { a } else { a + 1 };
                        let b0 = if b < i { b } else { b + 1 };
                        assert(self.operator_list()[a] == list[a0]);
                        assert(self.operator_list()[b] == list[b0]);
                    }
                    assert(self.operator_list().no_duplicates());
                    assert forall|k: int|
                        0 <= k < self.operator_count implies !(#[trigger] self.operators@[k]).is_cleared() by {
                        if k >= i {
                            assert(self.operators@[k] == orig[k + 1]);
                            assert(!orig[k + 1].is_cleared());
                        } else {
                            assert(self.operators@[k] == orig[k]);
                            assert(!orig[k].is_cleared());
                        }
                    }
                    assert forall|k: int|
                        self.operator_count <= k < MAX_OPERATORS implies (#[trigger] self.operators@[k]).is_cleared() by {
                        if k >= count {
                            assert(self.operators@[k] == orig[k]);
                        }
                    }
                }
                return Ok(());
            }
            i = i + 1;
        }
        assert(!list.contains(operator));
        Err(WusdError::OperatorNotFound)
    }

    /// Whether `user` holds the capability `level` in this registry.
    pub fn has_access(&self, user: Address, level: AccessLevel) -> (r: bool)
        requires
            self.wf(),
        ensures
            r == self.grants(user, level),
    {
        if level == AccessLevel::Credit {
            return true;
        }
        if user == self.authority {
            return true;
        }
        let count = self.operator_count as usize;
        let mut i: usize = 0;
        while i < count
            invariant
                self.wf(),
                count == self.operator_count,
                0 <= i <= count,
                forall|k: int| 0 <= k < i ==> self.operators@[k] != user,
            decreases count - i,
        {
            if self.operators[i] == user {
                assert(self.operator_list()[i as int] == user);
                return true;
            }
            i = i + 1;
        }
        assert(!self.operator_list().contains(user));
        false
    }
}

/// The asset this deployment manages, and its precision.
#[derive(Clone, Copy, Debug)]
pub struct MintState {
    pub mint: Address,
    pub decimals: u8,
}

impl MintState {
    /// Bytes of storage the record takes, tag included.
    pub const SIZE: usize = 8 + 32 + 1;
}

/// The system-wide halt switch.
#[derive(Clone, Copy, Debug)]
pub struct PauseState {
    pub paused: bool,
}

impl PauseState {
    /// Bytes of storage the record takes, tag included.
    pub const SIZE: usize = 8 + 1;

    /// Sets the switch; setting it to the value it has is no error.
    pub fn set_paused(&mut self, paused: bool)
        ensures
            final(self).paused == paused,
    {
        self.paused = paused;
    }

    /// Refused with `ContractPaused` while the system is halted.
    pub fn validate_not_paused(&self) -> (r: Result<(), WusdError>)
        ensures
            r == if self.paused {
                Err::<(), WusdError>(WusdError::ContractPaused)
            } else {
                Ok(())
            },
    {
        if self.paused {
            Err(WusdError::ContractPaused)
        } else {
            Ok(())
        }
    }
}

/// The per-account halt flag.
#[derive(Clone, Copy, Debug)]
pub struct FreezeState {
    pub is_frozen: bool,
}

impl FreezeState {
    /// Bytes of storage the record takes, tag included.
    pub const SIZE: usize = 8 + 1;

    /// Refused with `AccountFrozen` while the account is halted.
    pub fn check_frozen(&self) -> (r: Result<(), WusdError>)
        ensures
            r == if self.is_frozen {
                Err::<(), WusdError>(WusdError::AccountFrozen)
            } else {
                Ok(())
            },
    {
        if self.is_frozen {
            Err(WusdError::AccountFrozen)
        } else {
            Ok(())
        }
    }

    /// Halts the account; an account already halted is refused with
    /// `AccountAlreadyFrozen` and stays halted.
    pub fn freeze(&mut self) -> (r: Result<(), WusdError>)
        ensures
            final(self).is_frozen,
            r == if old(self).is_frozen {
                Err::<(), WusdError>(WusdError::AccountAlreadyFrozen)
            } else {
                Ok(())
            },
    {
        if self.is_frozen {
            return Err(WusdError::AccountAlreadyFrozen);
        }
        self.is_frozen = true;
        Ok(())
    }

    /// Lifts the halt; an account that is not halted is refused with
    /// `AccountNotFrozen` and stays active.
    pub fn unfreeze(&mut self) -> (r: Result<(), WusdError>)
        ensures
            !final(self).is_frozen,
            r == if !old(self).is_frozen {
                Err::<(), WusdError>(WusdError::AccountNotFrozen)
            } else {
                Ok(())
            },
    {
        if !self.is_frozen {
            return Err(WusdError::AccountNotFrozen);
        }
        self.is_frozen = false;
        Ok(())
    }
}

} // verus!
