//! The closed set of failures that the time gate reports.

use vstd::prelude::*;

verus! {

/// Why a proposed configuration value was refused.
#[derive(Clone, Copy, Debug, PartialEq, Eq, Structural)]
pub enum InvalidReason {
    /// The proposed cycle start equals the stored one.
    SameCycleStartTime,
    /// The proposed destination list equals the stored one, position by position.
    SameGateAddresses,
    /// The proposed rotation interval equals the stored one.
    SameTimeInterval,
    /// The year, month and day do not denote a day of the calendar.
    InvalidDate,
    /// The hour, minute and second do not denote a time of day.
    InvalidTime,
    /// The destination list is empty.
    NoGateAddresses,
    /// The rotation interval is zero.
    ZeroTimeInterval,
}

/// A failure of one call. Every failure leaves the configuration as it was.
#[derive(Clone, Copy, Debug, PartialEq, Eq, Structural)]
pub enum ContractError {
    /// The caller is not the owner.
    Unauthorized,
    /// A proposed value changes nothing or breaks a rule of its field.
    InvalidParameter { reason: InvalidReason },
    /// The queried instant lies before the start of the cycle.
    CycleNotStarted,
    /// A quantity does not fit the integer type that carries it.
    Overflow,
    /// A division or remainder by zero was asked for.
    DivideByZero,
    /// The configuration has not been initialized.
    NotFound,
}

impl InvalidReason {
    /// The reason in words.
    pub open spec fn spec_message(&self) -> Seq<char> {
        match self {
            InvalidReason::SameCycleStartTime => "Same as an existed cycle start time"@,
            InvalidReason::SameGateAddresses => "Same as existed gate addresses"@,
            InvalidReason::SameTimeInterval => "Same as an existed time interval"@,
            InvalidReason::InvalidDate => "Cycle start time is not a calendar date"@,
            InvalidReason::InvalidTime => "Cycle start time is not a time of day"@,
            InvalidReason::NoGateAddresses => "Gate addresses must not be empty"@,
            InvalidReason::ZeroTimeInterval => "Time interval must be positive"@,
        }
    }

    /// The reason in words, for whoever reads the failure.
    pub fn message(&self) -> (text: String)
        ensures
            text@ == self.spec_message(),
    {
        match self {
            InvalidReason::SameCycleStartTime => "Same as an existed cycle start time".to_owned(),
            InvalidReason::SameGateAddresses => "Same as existed gate addresses".to_owned(),
            InvalidReason::SameTimeInterval => "Same as an existed time interval".to_owned(),
            InvalidReason::InvalidDate => "Cycle start time is not a calendar date".to_owned(),
            InvalidReason::InvalidTime => "Cycle start time is not a time of day".to_owned(),
            InvalidReason::NoGateAddresses => "Gate addresses must not be empty".to_owned(),
            InvalidReason::ZeroTimeInterval => "Time interval must be positive".to_owned(),
        }
    }
}

impl ContractError {
    /// The failure in words. An invalid parameter speaks through its reason.
    pub open spec fn spec_message(&self) -> Seq<char> {
        match self {
            ContractError::Unauthorized => "Unauthorized"@,
            ContractError::InvalidParameter { reason } => reason.spec_message(),
            ContractError::CycleNotStarted => "Cycle is not started yet"@,
            ContractError::Overflow => "Overflow"@,
            ContractError::DivideByZero => "Divide by zero"@,
            ContractError::NotFound => "Configuration not found"@,
        }
    }

    /// The failure in words, for whoever reads it.
    pub fn message(&self) -> (text: String)
        ensures
            text@ == self.spec_message(),
    {
        match self {
            ContractError::Unauthorized => "Unauthorized".to_owned(),
            ContractError::InvalidParameter { reason } => reason.message(),
            ContractError::CycleNotStarted => "Cycle is not started yet".to_owned(),
            ContractError::Overflow => "Overflow".to_owned(),
            ContractError::DivideByZero => "Divide by zero".to_owned(),
            ContractError::NotFound => "Configuration not found".to_owned(),
        }
    }
}

} // verus!
