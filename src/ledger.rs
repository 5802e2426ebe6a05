use vstd::prelude::*;

use crate::address::Address;

verus! {

/// What the value ledger reports of one token account, read before an operation.
#[derive(Clone, Copy, Debug)]
pub struct LedgerAccount {
    /// The token account's own address.
    pub key: Address,
    /// The wallet that owns the token account.
    pub owner: Address,
    /// The asset the account holds.
    pub mint: Address,
    /// The balance, in the asset's smallest unit.
    pub amount: u64,
    /// Whether the ledger itself has halted the account.
    pub is_frozen: bool,
}

} // verus!
