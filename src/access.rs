use vstd::prelude::*;

verus! {

/// The capability an operation asks of an account.
#[derive(Clone, Copy, Debug, PartialEq, Eq, Structural)]
pub enum AccessLevel {
    /// Receiving value: never blocked by the operator registry.
    Credit,
    /// Sending value: granted to the registry authority and to operators only.
    Debit,
}

} // verus!
