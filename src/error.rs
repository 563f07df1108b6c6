use vstd::prelude::*;

verus! {

/// Why a command was refused. A refused command leaves the ledger unchanged.
#[derive(Clone, Copy, Debug, PartialEq, Eq, Structural)]
pub enum ContractError {
    /// The caller is not the current owner.
    Unauthorized,
    /// A deposit carried no funds of the configured denomination.
    InvalidDepositAmount,
    /// A withdrawal asked for zero.
    InvalidWithdrawAmount,
    /// A withdrawal asked for more than the caller's balance.
    InsufficientBalance,
    /// The host rejected an account address as malformed.
    InvalidAddress,
    /// A denomination was empty.
    InvalidDenom,
    /// The three sequences of a bulk reward differ in length.
    LengthMismatch,
    /// A balance would exceed the range of `u128`.
    Overflow,
}

impl ContractError {
    /// The human-readable text of the error.
    pub open spec fn text(self) -> Seq<char> {
        match self {
            ContractError::Unauthorized => "Unauthorized: Only the owner can call this"@,
            ContractError::InvalidDepositAmount => "Deposit amount must be greater than zero"@,
            ContractError::InvalidWithdrawAmount => "Withdraw amount must be greater than zero"@,
            ContractError::InsufficientBalance => "Insufficient balance"@,
            ContractError::InvalidAddress => "Invalid address"@,
            ContractError::InvalidDenom => "Token denomination must not be empty"@,
            ContractError::LengthMismatch => "Array lengths mismatch"@,
            ContractError::Overflow => "Balance overflow"@,
        }
    }

    pub fn message(&self) -> (r: String)
        ensures
            r@ == self.text(),
    {
        match self {
            ContractError::Unauthorized => "Unauthorized: Only the owner can call this".to_owned(),
            ContractError::InvalidDepositAmount => "Deposit amount must be greater than zero".to_owned(),
            ContractError::InvalidWithdrawAmount => "Withdraw amount must be greater than zero".to_owned(),
            ContractError::InsufficientBalance => "Insufficient balance".to_owned(),
            ContractError::InvalidAddress => "Invalid address".to_owned(),
            ContractError::InvalidDenom => "Token denomination must not be empty".to_owned(),
            ContractError::LengthMismatch => "Array lengths mismatch".to_owned(),
            ContractError::Overflow => "Balance overflow".to_owned(),
        }
    }
}

} // verus!
