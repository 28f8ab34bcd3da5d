use vstd::prelude::*;

use crate::attendance::{attendance_after, check_in_outcome, is_weekend_in, CheckIn};
use crate::error::DomainError;
use crate::model::{
    AttendanceRecord,
    OvertimeRecord,
    PayPeriod,
    ReimbursementRecord,
    User,
    WorkHours,
};
use crate::overtime::{overtimes_after, request_overtime_outcome};
use crate::payroll::{
    attendance_days,
    batch_error,
    batch_take_home,
    employees_of,
    is_batch_of,
    pay_figures,
    payslip_error,
    prorated_amount,
    total_working_days,
    PayslipBatch,
};
use crate::period::{create_period_outcome, process_period_outcome};
use crate::reimbursement::{reimbursements_after, submit_reimbursement_outcome};
use crate::time::Timestamp;

verus! {

/// A period is refused exactly when it would end before it starts: one that
/// ends at the instant at which it starts, or later, is opened, and opened
/// unprocessed.
pub proof fn lemma_period_range(
    id: u128,
    creator_id: u128,
    start_at: Timestamp,
    end_at: Timestamp,
    now: Timestamp,
)
    ensures
        end_at@.secs < start_at@.secs ==> create_period_outcome(
            id,
            creator_id,
            start_at,
            end_at,
            now,
        ) == Err::<PayPeriod, DomainError>(DomainError::InvalidRange),
        end_at@.secs >= start_at@.secs ==> (create_period_outcome(
            id,
            creator_id,
            start_at,
            end_at,
            now,
        ) matches Ok(period) && !period.processed && period.wf()),
{
}

/// No write succeeds against a processed period: a check-in, a request for
/// overtime, a claim and another processing are all refused, whatever
/// their other arguments, and none of them changes a record.
pub proof fn lemma_processed_period_refuses_writes(
    period: PayPeriod,
    attendance: Seq<AttendanceRecord>,
    overtimes: Seq<OvertimeRecord>,
    reimbursements: Seq<ReimbursementRecord>,
    new_id: u128,
    employee_id: u128,
    now: Timestamp,
    hours: u8,
    work: WorkHours,
    description: String,
    amount: i64,
)
    requires
        period.processed,
    ensures
        check_in_outcome(attendance, new_id, employee_id, period, now) == Err::<
            CheckIn,
            DomainError,
        >(DomainError::PeriodAlreadyProcessed),
        attendance_after(
            attendance,
            check_in_outcome(attendance, new_id, employee_id, period, now),
        ) == attendance,
        request_overtime_outcome(
            overtimes,
            attendance,
            new_id,
            employee_id,
            period,
            now,
            hours,
            work,
        ) == Err::<crate::overtime::OvertimeOutcome, DomainError>(
            DomainError::PeriodAlreadyProcessed,
        ),
        overtimes_after(
            overtimes,
            employee_id,
            period,
            now,
            request_overtime_outcome(
                overtimes,
                attendance,
                new_id,
                employee_id,
                period,
                now,
                hours,
                work,
            ),
        ) == overtimes,
        submit_reimbursement_outcome(new_id, employee_id, period, description, amount, now)
            == Err::<ReimbursementRecord, DomainError>(DomainError::PeriodAlreadyProcessed),
        reimbursements_after(
            reimbursements,
            submit_reimbursement_outcome(new_id, employee_id, period, description, amount, now),
        ) == reimbursements,
        process_period_outcome(employee_id, period, now) == Err::<PayPeriod, DomainError>(
            DomainError::AlreadyProcessed,
        ),
{
}

/// A check-in on a Saturday or a Sunday of an open period is refused with
/// `WeekendCheckIn`, whoever checks in and whatever has been recorded, and
/// records nothing.
pub proof fn lemma_weekend_check_in_is_refused(
    attendance: Seq<AttendanceRecord>,
    new_id: u128,
    employee_id: u128,
    period: PayPeriod,
    now: Timestamp,
)
    requires
        !period.processed,
        is_weekend_in(period, now),
    ensures
        check_in_outcome(attendance, new_id, employee_id, period, now) == Err::<
            CheckIn,
            DomainError,
        >(DomainError::WeekendCheckIn),
        attendance_after(
            attendance,
            check_in_outcome(attendance, new_id, employee_id, period, now),
        ) == attendance,
{
}

/// Processing is final: what `process_period` hands back is processed, and
/// is refused by every later processing.
pub proof fn lemma_processing_is_final(
    admin_id: u128,
    period: PayPeriod,
    now: Timestamp,
    later_admin_id: u128,
    later: Timestamp,
)
    requires
        !period.processed,
    ensures
        process_period_outcome(admin_id, period, now) matches Ok(done) && done.processed
            && done.id == period.id && process_period_outcome(later_admin_id, done, later) == Err::<
            PayPeriod,
            DomainError,
        >(DomainError::AlreadyProcessed),
{
}

/// No payslip comes from an open period: each request is refused with
/// `PeriodNotProcessed`, for one employee and for all.
pub proof fn lemma_open_period_yields_no_payslip(
    users: Seq<User>,
    employee: User,
    period: PayPeriod,
    attendance: Seq<AttendanceRecord>,
    overtimes: Seq<OvertimeRecord>,
    reimbursements: Seq<ReimbursementRecord>,
    work: WorkHours,
)
    requires
        !period.processed,
    ensures
        payslip_error(employee, period, attendance, overtimes, reimbursements, work) == Some(
            DomainError::PeriodNotProcessed,
        ),
        batch_error(users, period, attendance, overtimes, reimbursements, work) == Some(
            DomainError::PeriodNotProcessed,
        ),
{
}

/// Attending every working day earns the whole salary, and attending none
/// earns nothing.
pub proof fn lemma_proration(salary: int, working_days: int)
    requires
        working_days > 0,
    ensures
        prorated_amount(salary, working_days, working_days) == salary,
        prorated_amount(salary, 0, working_days) == 0,
{
    assert(salary * 0 == 0);
    assert(0int / working_days == 0) by (nonlinear_arith)
        requires
            working_days > 0,
    ;
    if salary >= 0 {
        assert((salary * working_days) / working_days == salary && salary * working_days >= 0)
            by (nonlinear_arith)
            requires
                working_days > 0,
                salary >= 0,
        ;
    } else {
        assert((-(salary * working_days)) / working_days == -salary && salary * working_days < 0)
            by (nonlinear_arith)
            requires
                working_days > 0,
                salary < 0,
        ;
    }
}

/// The same of the figures of a payslip: an employee who attended as many
/// days as the period has working days is owed the salary as prorated
/// amount, and one who attended none is owed none.
pub proof fn lemma_proration_of_payslip(
    employee: User,
    period: PayPeriod,
    attendance: Seq<AttendanceRecord>,
    overtimes: Seq<OvertimeRecord>,
    reimbursements: Seq<ReimbursementRecord>,
    work: WorkHours,
)
    requires
        total_working_days(period) > 0,
    ensures
        attendance_days(attendance, employee.id, period.id) == total_working_days(period)
            ==> pay_figures(
            employee,
            period,
            attendance,
            overtimes,
            reimbursements,
            work,
        ).prorated_amount == employee.salary,
        attendance_days(attendance, employee.id, period.id) == 0 ==> pay_figures(
            employee,
            period,
            attendance,
            overtimes,
            reimbursements,
            work,
        ).prorated_amount == 0,
{
    lemma_proration(employee.salary as int, total_working_days(period) as int);
}

/// With no employee among the users, the payslips of a processed period are
/// given, whether or not the period holds a working day: the batch lists no
/// payslip, and its sum is zero.
pub proof fn lemma_batch_without_employees(
    batch: PayslipBatch,
    users: Seq<User>,
    period: PayPeriod,
    attendance: Seq<AttendanceRecord>,
    overtimes: Seq<OvertimeRecord>,
    reimbursements: Seq<ReimbursementRecord>,
    work: WorkHours,
)
    requires
        period.processed,
        employees_of(users).len() == 0,
        is_batch_of(batch, users, period, attendance, overtimes, reimbursements, work),
    ensures
        batch_error(users, period, attendance, overtimes, reimbursements, work) is None,
        batch.payslips@.len() == 0,
        batch.total_take_home == 0,
{
    assert(batch_take_home(
        employees_of(users),
        period,
        attendance,
        overtimes,
        reimbursements,
        work,
    ) == 0);
}

} // verus!
