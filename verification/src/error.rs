use vstd::prelude::*;

verus! {

/// The reasons for which an operation of this library is refused.
#[derive(Clone, Copy, Debug, PartialEq, Eq, Structural)]
pub enum ErrorCode {
    /// More was asked back than the stake record holds.
    InsufficientStakedAmount,
    /// The room number is above the hotel's room count.
    InvalidRoomNumber,
    /// A swap was asked of a pool whose input side would stay empty.
    InsufficientLiquidity,
    /// The swap would pay out less than the caller's floor.
    SlippageExceeded,
    /// The encrypted amount is not acceptable.
    InvalidEncryptedAmount,
    /// The signer is not the authority of the mint.
    Unauthorized,
    /// A checked addition left the range of `u64`.
    Overflow,
    /// A checked subtraction would go below zero.
    InsufficientFunds,
    /// A hotel must have at least one room.
    InvalidRoomCount,
    /// The confidential transfer could not be carried out.
    ConfidentialTransferFailed,
}

impl ErrorCode {
    /// The text that goes with each reason.
    pub fn message(&self) -> (text: &'static str)
        ensures
            text@ == self.spec_message()@,
    {
        match self {
            ErrorCode::InsufficientStakedAmount => "Insufficient staked amount",
            ErrorCode::InvalidRoomNumber => "Invalid room number",
            ErrorCode::InsufficientLiquidity => "Insufficient liquidity",
            ErrorCode::SlippageExceeded => "Slippage tolerance exceeded",
            ErrorCode::InvalidEncryptedAmount => "Invalid encrypted amount",
            ErrorCode::Unauthorized => "Unauthorized operation",
            ErrorCode::Overflow => "Arithmetic overflow",
            ErrorCode::InsufficientFunds => "Insufficient funds",
            ErrorCode::InvalidRoomCount => "Invalid room count",
            ErrorCode::ConfidentialTransferFailed => "Confidential transfer failed",
        }
    }

    /// The text of each reason, as contracts speak of it.
    pub open spec fn spec_message(&self) -> &'static str {
        match self {
            ErrorCode::InsufficientStakedAmount => "Insufficient staked amount",
            ErrorCode::InvalidRoomNumber => "Invalid room number",
            ErrorCode::InsufficientLiquidity => "Insufficient liquidity",
            ErrorCode::SlippageExceeded => "Slippage tolerance exceeded",
            ErrorCode::InvalidEncryptedAmount => "Invalid encrypted amount",
            ErrorCode::Unauthorized => "Unauthorized operation",
            ErrorCode::Overflow => "Arithmetic overflow",
            ErrorCode::InsufficientFunds => "Insufficient funds",
            ErrorCode::InvalidRoomCount => "Invalid room count",
            ErrorCode::ConfidentialTransferFailed => "Confidential transfer failed",
        }
    }
}

/// Why an instruction that reads the bytes of accounts is refused: for one
/// of this library's own reasons, or because the token program's reading
/// of an account failed, with the number of that program error.
#[derive(Clone, Copy, Debug, PartialEq, Eq, Structural)]
pub enum Error {
    Code(ErrorCode),
    Program(u64),
}

} // verus!
