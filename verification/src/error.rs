//! Why an operation was refused.

use vstd::prelude::*;

verus! {

/// The reasons for which the ledger refuses an operation. A refused
/// operation changes nothing and pays nothing.
#[derive(Debug, Clone, Copy, PartialEq, Eq, Structural)]
pub enum StakingError {
    /// A deposit must be strictly positive.
    InvalidPayment,
    /// The caller has no open position.
    NotStaked,
    /// A withdrawal must be strictly positive and no larger than the
    /// principal.
    InvalidUnstakeAmount,
}

impl StakingError {
    /// The text reported to the caller.
    pub fn message(&self) -> (text: &'static str)
        ensures
            *self == StakingError::InvalidPayment ==> text@ == "Must pay more than 0"@,
            *self == StakingError::NotStaked ==> text@ == "Must stake first"@,
            *self == StakingError::InvalidUnstakeAmount ==> text@ == "Invalid unstake amount"@,
    {
        match self {
            StakingError::InvalidPayment => "Must pay more than 0",
            StakingError::NotStaked => "Must stake first",
            StakingError::InvalidUnstakeAmount => "Invalid unstake amount",
        }
    }
}

} // verus!
