use vstd::prelude::*;

verus! {

/// Why an operation was rejected. Every error aborts the whole operation
/// with no partial mutation; the specific kind is always reported, never a
/// generic failure.
#[derive(Clone, Copy, Debug, PartialEq, Eq, Structural)]
pub enum ErrorCode {
    /// The caller is not the pool's configured authority.
    Unauthorized,
    /// An unstake asked for more than the position's principal.
    InsufficientFunds,
    /// An unstake was attempted before the lock expired.
    LockPeriodNotExpired,
    /// The computed reward was exactly zero.
    NoRewardsToClaim,
    /// A checked multiply, add or subtract exceeded the working width.
    ArithmeticOverflow,
}

impl ErrorCode {
    /// A human-readable description of the error.
    pub fn message(&self) -> (m: &'static str)
        ensures
            *self is Unauthorized ==> m@ == "Unauthorized access"@,
            *self is InsufficientFunds ==> m@ == "Insufficient funds"@,
            *self is LockPeriodNotExpired ==> m@ == "Lock period has not expired"@,
            *self is NoRewardsToClaim ==> m@ == "No rewards to claim"@,
            *self is ArithmeticOverflow ==> m@ == "Arithmetic overflow"@,
    {
        match self {
            ErrorCode::Unauthorized => "Unauthorized access",
            ErrorCode::InsufficientFunds => "Insufficient funds",
            ErrorCode::LockPeriodNotExpired => "Lock period has not expired",
            ErrorCode::NoRewardsToClaim => "No rewards to claim",
            ErrorCode::ArithmeticOverflow => "Arithmetic overflow",
        }
    }
}

} // verus!
