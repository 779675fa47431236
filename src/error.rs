use vstd::prelude::*;

verus! {

/// A business rule that a command would break.
#[derive(Debug, Clone, Copy, PartialEq, Eq, Structural)]
pub enum DomainError {
    /// The withdrawal or check exceeds the current balance.
    FundsNotAvailable,
    /// The deposit would take the balance past the largest amount held.
    BalanceOverflow,
    /// The ATM service refused the withdrawal.
    AtmRuleViolation,
    /// The checking service refused the check.
    CheckInvalid,
}

/// The human-readable reason carried by a domain error.
pub open spec fn domain_reason(e: DomainError) -> Seq<char> {
    match e {
        DomainError::FundsNotAvailable => "funds not available"@,
        DomainError::BalanceOverflow => "balance overflow"@,
        DomainError::AtmRuleViolation => "atm rule violation"@,
        DomainError::CheckInvalid => "check invalid"@,
    }
}

impl DomainError {
    pub fn reason(&self) -> (r: String)
        ensures
            r@ == domain_reason(*self),
    {
        match self {
            DomainError::FundsNotAvailable => "funds not available".to_string(),
            DomainError::BalanceOverflow => "balance overflow".to_string(),
            DomainError::AtmRuleViolation => "atm rule violation".to_string(),
            DomainError::CheckInvalid => "check invalid".to_string(),
        }
    }
}

/// Why a command execution did not commit.
#[derive(Debug, Clone, PartialEq, Eq)]
pub enum AggregateError {
    /// The command breaks a business rule; terminal, never retried.
    UserError(DomainError),
    /// Another writer appended to the stream since it was loaded; the whole
    /// cycle may be run again from a fresh load.
    AggregateConflict,
    /// The event store or a view repository failed or is exhausted.
    StorageError(String),
    /// A command or event payload could not be read.
    DeserializationError(String),
}

impl AggregateError {
    /// A message for the caller, distinct for each kind of failure.
    pub fn message(&self) -> (r: String)
        ensures
            *self matches AggregateError::UserError(e) ==> r@ == domain_reason(e),
            *self is AggregateConflict ==> r@ == "command conflicted with a concurrent write"@,
            *self matches AggregateError::StorageError(m) ==> r@ == m@,
            *self matches AggregateError::DeserializationError(m) ==> r@ == m@,
    {
        match self {
            AggregateError::UserError(e) => e.reason(),
            AggregateError::AggregateConflict => "command conflicted with a concurrent write".to_string(),
            AggregateError::StorageError(m) => m.clone(),
            AggregateError::DeserializationError(m) => m.clone(),
        }
    }
}

} // verus!
