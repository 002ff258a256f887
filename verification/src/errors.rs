//! The ways in which an operation on the ledger fails.
use vstd::prelude::*;

verus! {

/// Why an operation was refused. A refused operation changes nothing.
#[derive(Clone, Copy, Debug, PartialEq, Eq, Structural)]
pub enum CustomError {
    /// The caller is not the owner of the record.
    Unauthorized,
    /// The balance does not cover the amount together with its fee.
    InsufficientFunds,
    /// No record is stored under the key.
    NotFound,
    /// A record is already stored under the key.
    AlreadyExists,
    /// The transfer service did not complete the transfers it was asked for.
    TransferFailed,
    /// A deposit of nothing was asked for.
    InvalidAmount,
    /// The balance after a deposit would not fit in 64 bits.
    Overflow,
}

impl CustomError {
    /// The text that describes each failure.
    pub open spec fn message_of(self) -> Seq<char> {
        match self {
            CustomError::Unauthorized => "You dont have permission to do this"@,
            CustomError::InsufficientFunds => "Insufficient funds"@,
            CustomError::NotFound => "No vault is stored under this key"@,
            CustomError::AlreadyExists => "A vault is already stored under this key"@,
            CustomError::TransferFailed => "The transfer could not be completed"@,
            CustomError::InvalidAmount => "The amount must be greater than zero"@,
            CustomError::Overflow => "The balance would exceed its maximum"@,
        }
    }

    /// Describes the failure in words.
    pub fn message(&self) -> (text: &'static str)
        ensures
            text@ == self.message_of(),
    {
        match self {
            CustomError::Unauthorized => "You dont have permission to do this",
            CustomError::InsufficientFunds => "Insufficient funds",
            CustomError::NotFound => "No vault is stored under this key",
            CustomError::AlreadyExists => "A vault is already stored under this key",
            CustomError::TransferFailed => "The transfer could not be completed",
            CustomError::InvalidAmount => "The amount must be greater than zero",
            CustomError::Overflow => "The balance would exceed its maximum",
        }
    }
}

} // verus!
