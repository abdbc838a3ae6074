//! Why an operation can be refused.

use vstd::prelude::*;

verus! {

/// Why an operation was refused. A refused operation changes nothing.
#[derive(Copy, Clone, Debug, PartialEq, Eq, Structural)]
pub enum IdoError {
    /// A product or a sum would leave the range of `u64`.
    Overflow,
    /// The round has not yet lasted as long as it must.
    CannotEndRound,
    /// The round that was asked for is the current one.
    RoundAlreadyStarted,
    /// The operation belongs to the sale round.
    NotSaleRound,
    /// The operation belongs to the trade round.
    NotTradeRound,
    /// The referrer's membership record is missing from the extra accounts.
    RefererMemberAccountNotProvided,
    /// The referrer's payout account is missing from the extra accounts.
    RefererTokenAccountNotProvided,
    /// The supplied membership record is not stored at the address derived
    /// from the referrer's identity.
    RefererPda,
    /// The supplied payout account is not owned by the referrer.
    RefererOwner,
    /// The offering is over.
    IdoIsOver,
    /// A token account holds less than is to be taken from it.
    InsufficientFunds,
    /// The caller is not the identity that the record names.
    ConstraintAddress,
    /// An escrow that still holds tokens cannot be released.
    EscrowNotEmpty,
}

impl IdoError {
    /// The number under which the host reports the error.
    pub open spec fn spec_code(self) -> u32 {
        match self {
            IdoError::Overflow => 6000,
            IdoError::CannotEndRound => 6001,
            IdoError::RoundAlreadyStarted => 6002,
            IdoError::NotSaleRound => 6003,
            IdoError::NotTradeRound => 6004,
            IdoError::RefererMemberAccountNotProvided => 6005,
            IdoError::RefererTokenAccountNotProvided => 6006,
            IdoError::RefererPda => 6007,
            IdoError::RefererOwner => 6008,
            IdoError::IdoIsOver => 6009,
            IdoError::InsufficientFunds => 1,
            IdoError::ConstraintAddress => 2012,
            IdoError::EscrowNotEmpty => 11,
        }
    }

    /// The number under which the host reports the error: the offering's own
    /// errors count up from 6000, the others keep the numbers that the token
    /// ledger and the account validation give them.
    pub fn code(&self) -> (r: u32)
        ensures
            r == self.spec_code(),
    {
        match self {
            IdoError::Overflow => 6000,
            IdoError::CannotEndRound => 6001,
            IdoError::RoundAlreadyStarted => 6002,
            IdoError::NotSaleRound => 6003,
            IdoError::NotTradeRound => 6004,
            IdoError::RefererMemberAccountNotProvided => 6005,
            IdoError::RefererTokenAccountNotProvided => 6006,
            IdoError::RefererPda => 6007,
            IdoError::RefererOwner => 6008,
            IdoError::IdoIsOver => 6009,
            IdoError::InsufficientFunds => 1,
            IdoError::ConstraintAddress => 2012,
            IdoError::EscrowNotEmpty => 11,
        }
    }
}

} // verus!
