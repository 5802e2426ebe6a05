use vstd::prelude::*;

verus! {

/// Every way an operation of this program can be refused.
///
/// The kinds group as follows: a halted system (`ContractPaused`), a halted
/// account (`AccountFrozen`, `AccountAlreadyFrozen`, `AccountNotFrozen`), a bad
/// amount (`InvalidAmount`), a missing role (`Unauthorized`, `NotMinter`,
/// `NotPauser`), a missing capability (`AccessDenied`), an uninitialized
/// operator registry (`AccessRegistryNotInitialized`), a stale or exhausted
/// delegation (`PermitExpired`, `ExpiredPermit`, `InsufficientAllowance`,
/// `InvalidNonce`), too little value (`InsufficientBalance`,
/// `InsufficientFunds`), mismatched accounts (`InvalidOwner`, `InvalidMint`,
/// `InvalidTransferFrom`), a full registry (`TooManyOperators`) and an absent
/// operator (`OperatorNotFound`).
#[derive(Clone, Copy, Debug, PartialEq, Eq, Structural)]
pub enum WusdError {
    ContractPaused,
    InvalidAmount,
    PermitExpired,
    InvalidNonce,
    Unauthorized,
    NotMinter,
    NotPauser,
    InsufficientBalance,
    TooManyOperators,
    OperatorNotFound,
    AccessDenied,
    InsufficientFunds,
    AccessRegistryNotInitialized,
    InvalidOwner,
    InsufficientAllowance,
    AccountFrozen,
    AccountAlreadyFrozen,
    AccountNotFrozen,
    InvalidTransferFrom,
    InvalidMint,
    ExpiredPermit,
}

impl WusdError {
    /// The human-readable message of each error.
    pub open spec fn spec_message(self) -> &'static str {
        match self {
            WusdError::ContractPaused => "Contract is paused",
            WusdError::InvalidAmount => "Invalid amount",
            WusdError::PermitExpired => "Permit expired",
            WusdError::InvalidNonce => "Invalid nonce",
            WusdError::Unauthorized => "Unauthorized",
            WusdError::NotMinter => "Not a minter",
            WusdError::NotPauser => "Not a pauser",
            WusdError::InsufficientBalance => "Insufficient balance",
            WusdError::TooManyOperators => "Too many operators",
            WusdError::OperatorNotFound => "Operator not found",
            WusdError::AccessDenied => "Access denied",
            WusdError::InsufficientFunds => "Insufficient funds",
            WusdError::AccessRegistryNotInitialized => "Access registry not initialized",
            WusdError::InvalidOwner => "Invalid owner",
            WusdError::InsufficientAllowance => "Insufficient allowance",
            WusdError::AccountFrozen => "Account is frozen",
            WusdError::AccountAlreadyFrozen => "Account is already frozen",
            WusdError::AccountNotFrozen => "Account is not frozen",
            WusdError::InvalidTransferFrom => "Invalid transfer from operation",
            WusdError::InvalidMint => "Invalid mint address",
            WusdError::ExpiredPermit => "Expired permit",
        }
    }

    /// The human-readable message reported for this error.
    pub fn message(&self) -> (r: &'static str)
        ensures
            r == self.spec_message(),
    {
        match self {
            WusdError::ContractPaused => "Contract is paused",
            WusdError::InvalidAmount => "Invalid amount",
            WusdError::PermitExpired => "Permit expired",
            WusdError::InvalidNonce => "Invalid nonce",
            WusdError::Unauthorized => "Unauthorized",
            WusdError::NotMinter => "Not a minter",
            WusdError::NotPauser => "Not a pauser",
            WusdError::InsufficientBalance => "Insufficient balance",
            WusdError::TooManyOperators => "Too many operators",
            WusdError::OperatorNotFound => "Operator not found",
            WusdError::AccessDenied => "Access denied",
            WusdError::InsufficientFunds => "Insufficient funds",
            WusdError::AccessRegistryNotInitialized => "Access registry not initialized",
            WusdError::InvalidOwner => "Invalid owner",
            WusdError::InsufficientAllowance => "Insufficient allowance",
            WusdError::AccountFrozen => "Account is frozen",
            WusdError::AccountAlreadyFrozen => "Account is already frozen",
            WusdError::AccountNotFrozen => "Account is not frozen",
            WusdError::InvalidTransferFrom => "Invalid transfer from operation",
            WusdError::InvalidMint => "Invalid mint address",
            WusdError::ExpiredPermit => "Expired permit",
        }
    }
}

} // verus!
