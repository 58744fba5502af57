use vstd::prelude::*;

verus! {

/// Every way in which an operation on a swap can be refused.
#[derive(Clone, Copy, Debug, PartialEq, Eq, Structural)]
pub enum ContractError {
    Unauthorized,
    SwapNotFound,
    SwapAlreadyExists,
    InvalidTimelock,
    TimelockExpired,
    TimelockNotExpired,
    AlreadyWithdrawn,
    AlreadyRefunded,
    InvalidPreimage,
    InsufficientFunds,
    InvalidAmount,
    AddressInvalid,
}

impl ContractError {
    /// The text of each error.
    pub open spec fn text(self) -> Seq<char> {
        match self {
            ContractError::Unauthorized => "Unauthorized"@,
            ContractError::SwapNotFound => "Swap does not exist"@,
            ContractError::SwapAlreadyExists => "Swap already exists"@,
            ContractError::InvalidTimelock => "Invalid timelock"@,
            ContractError::TimelockExpired => "Timelock expired"@,
            ContractError::TimelockNotExpired => "Timelock not expired"@,
            ContractError::AlreadyWithdrawn => "Already withdrawn"@,
            ContractError::AlreadyRefunded => "Already refunded"@,
            ContractError::InvalidPreimage => "Invalid preimage"@,
            ContractError::InsufficientFunds => "Insufficient funds"@,
            ContractError::InvalidAmount => "Invalid amount"@,
            ContractError::AddressInvalid => "Invalid address"@,
        }
    }

    /// The message shown for this error.
    pub fn message(&self) -> (r: &'static str)
        ensures
            r@ == self.text(),
    {
        match self {
            ContractError::Unauthorized => "Unauthorized",
            ContractError::SwapNotFound => "Swap does not exist",
            ContractError::SwapAlreadyExists => "Swap already exists",
            ContractError::InvalidTimelock => "Invalid timelock",
            ContractError::TimelockExpired => "Timelock expired",
            ContractError::TimelockNotExpired => "Timelock not expired",
            ContractError::AlreadyWithdrawn => "Already withdrawn",
            ContractError::AlreadyRefunded => "Already refunded",
            ContractError::InvalidPreimage => "Invalid preimage",
            ContractError::InsufficientFunds => "Insufficient funds",
            ContractError::InvalidAmount => "Invalid amount",
            ContractError::AddressInvalid => "Invalid address",
        }
    }
}

} // verus!
