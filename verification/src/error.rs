use vstd::prelude::*;

verus! {

/// The reasons for which an operation of the payroll engine is refused.
#[derive(Clone, Copy, Debug, PartialEq, Eq, Structural)]
pub enum DomainError {
    /// A pay period was requested whose end lies before its start.
    InvalidRange,
    /// The period to be processed has been processed before.
    AlreadyProcessed,
    /// A check-in was attempted on a Saturday or a Sunday.
    WeekendCheckIn,
    /// Overtime was requested on a day without a check-in.
    NoCheckIn,
    /// Overtime was requested before the working day had ended.
    WorkHoursNotDone,
    /// The overtime of one day would exceed the daily cap.
    OvertimeCapExceeded,
    /// A write was attempted against a processed period.
    PeriodAlreadyProcessed,
    /// A payslip was requested from a period that is still open.
    PeriodNotProcessed,
    /// The period holds no working day, so no rate can be derived from it.
    NoWorkingDays,
    /// An amount of the payslip does not fit the integer type that carries it.
    AmountOverflow,
    /// No pay period has the identity asked for.
    PeriodNotFound,
    /// No user has the identity asked for.
    EmployeeNotFound,
}

impl DomainError {
    /// The text of `message`.
    pub open spec fn spec_message(self) -> Seq<char> {
        match self {
            DomainError::InvalidRange => "end_at is lower than start_at"@,
            DomainError::AlreadyProcessed => "attendance is already processed"@,
            DomainError::WeekendCheckIn => "cannot attend on weekend"@,
            DomainError::NoCheckIn => "you have not checked-in today"@,
            DomainError::WorkHoursNotDone => "your work hours are not done yet"@,
            DomainError::OvertimeCapExceeded => "you cannot take overtime for more than 3 hours a day"@,
            DomainError::PeriodAlreadyProcessed => "attendance is already processed"@,
            DomainError::PeriodNotProcessed => "attendance is not processed"@,
            DomainError::NoWorkingDays => "attendance period has no working day"@,
            DomainError::AmountOverflow => "amount is out of range"@,
            DomainError::PeriodNotFound => "attendance period is not known"@,
            DomainError::EmployeeNotFound => "employee is not known"@,
        }
    }

    /// The sentence that tells a caller why the operation was refused.
    pub fn message(&self) -> (text: &'static str)
        ensures
            text@ == self.spec_message(),
    {
        match self {
            DomainError::InvalidRange => "end_at is lower than start_at",
            DomainError::AlreadyProcessed => "attendance is already processed",
            DomainError::WeekendCheckIn => "cannot attend on weekend",
            DomainError::NoCheckIn => "you have not checked-in today",
            DomainError::WorkHoursNotDone => "your work hours are not done yet",
            DomainError::OvertimeCapExceeded => "you cannot take overtime for more than 3 hours a day",
            DomainError::PeriodAlreadyProcessed => "attendance is already processed",
            DomainError::PeriodNotProcessed => "attendance is not processed",
            DomainError::NoWorkingDays => "attendance period has no working day",
            DomainError::AmountOverflow => "amount is out of range",
            DomainError::PeriodNotFound => "attendance period is not known",
            DomainError::EmployeeNotFound => "employee is not known",
        }
    }
}

} // verus!
