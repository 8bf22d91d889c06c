//! The ways in which an operation on the ledger is rejected.

use vstd::prelude::*;

verus! {

/// Why an operation was rejected.
///
/// Every rejection is decided before anything is written: an operation that
/// returns one of these leaves the state as it found it.
#[derive(Clone, Copy, Debug, PartialEq, Eq, Structural)]
pub enum CasincError {
    /// A bet exceeds the deposit it is drawn from.
    InsufficientFunds,
    /// A withdrawal was requested before the unlock time.
    WithdrawalLocked,
    /// Fewer distinct administrators signed than the threshold asks for.
    NotEnoughSigners,
    /// Execution was attempted on a request that is not approved, or on none.
    WithdrawalNotApproved,
    /// A withdrawal request exceeds the winnings it is drawn from.
    InsufficientWinnings,
    /// The user already has a ledger entry.
    AlreadyInitialized,
    /// A balance, a payout or a time would leave its representable range.
    ArithmeticOverflow,
    /// The user already has a withdrawal request that is not retired.
    DuplicateRequest,
}

impl CasincError {
    /// The text of `message`, as a sequence of characters.
    pub open spec fn message_text(self) -> Seq<char> {
        match self {
            CasincError::InsufficientFunds => "Insufficient funds"@,
            CasincError::WithdrawalLocked => "Withdrawal is still locked"@,
            CasincError::NotEnoughSigners => "Not enough admin signers"@,
            CasincError::WithdrawalNotApproved => "Withdrawal not approved"@,
            CasincError::InsufficientWinnings => "Insufficient winnings"@,
            CasincError::AlreadyInitialized => "User is already initialized"@,
            CasincError::ArithmeticOverflow => "Arithmetic overflow"@,
            CasincError::DuplicateRequest => "A withdrawal request is already pending"@,
        }
    }

    /// A short description for people.
    pub fn message(&self) -> (text: &'static str)
        ensures
            text@ == self.message_text(),
    {
        match self {
            CasincError::InsufficientFunds => "Insufficient funds",
            CasincError::WithdrawalLocked => "Withdrawal is still locked",
            CasincError::NotEnoughSigners => "Not enough admin signers",
            CasincError::WithdrawalNotApproved => "Withdrawal not approved",
            CasincError::InsufficientWinnings => "Insufficient winnings",
            CasincError::AlreadyInitialized => "User is already initialized",
            CasincError::ArithmeticOverflow => "Arithmetic overflow",
            CasincError::DuplicateRequest => "A withdrawal request is already pending",
        }
    }
}

} // verus!
