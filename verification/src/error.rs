use vstd::prelude::*;

verus! {

/// Every way in which an instruction of the launchpad can be refused.
#[derive(Clone, Copy, Debug, PartialEq, Eq, Structural)]
pub enum ErrorCode {
    OverflowDetected,
    UnderflowDetected,
    InvalidTokenAmount,
    InvalidSolAmount,
    InvalidInputs,
    InsufficientFunds,
    InvalidOwner,
    MetadataFailed,
}

impl ErrorCode {
    /// The human-readable message that goes with each error.
    pub fn message(&self) -> (m: &'static str)
        ensures
            m@ == self.spec_message()@,
    {
        match self {
            ErrorCode::OverflowDetected => "Overflow detected",
            ErrorCode::UnderflowDetected => "Underflow detected",
            ErrorCode::InvalidTokenAmount => "the token amount can't be zero",
            ErrorCode::InvalidSolAmount => "the sol amount can't be zero",
            ErrorCode::InvalidInputs => "Invalis Inputs check the that either name, ticker, uri or description are not empty",
            ErrorCode::InsufficientFunds => "insufficient funds in the account 'from' account",
            ErrorCode::InvalidOwner => "the give token mint address is not owned by the bonding_curve",
            ErrorCode::MetadataFailed => "value didn't set MetadataFailed",
        }
    }

    pub open spec fn spec_message(&self) -> &'static str {
        match self {
            ErrorCode::OverflowDetected => "Overflow detected",
            ErrorCode::UnderflowDetected => "Underflow detected",
            ErrorCode::InvalidTokenAmount => "the token amount can't be zero",
            ErrorCode::InvalidSolAmount => "the sol amount can't be zero",
            ErrorCode::InvalidInputs => "Invalis Inputs check the that either name, ticker, uri or description are not empty",
            ErrorCode::InsufficientFunds => "insufficient funds in the account 'from' account",
            ErrorCode::InvalidOwner => "the give token mint address is not owned by the bonding_curve",
            ErrorCode::MetadataFailed => "value didn't set MetadataFailed",
        }
    }
}

} // verus!
