use vstd::prelude::*;

use crate::error::DomainError;
use crate::model::{
    AttendanceRecord,
    OvertimeRecord,
    PayPeriod,
    ReimbursementRecord,
    RoleType,
    User,
    WorkHours,
};
use crate::time::{count_working_days, day_number, working_days_between, Timestamp};

verus! {

/// Whom a payslip is for.
#[derive(Debug, PartialEq, Eq)]
pub struct PayslipEmployee {
    pub id: u128,
    pub username: String,
    pub base_salary: i64,
}

/// The span of the period that a payslip covers.
#[derive(Clone, Copy, Debug, PartialEq, Eq, Structural)]
pub struct PayslipPeriod {
    pub start_at: Timestamp,
    pub end_at: Timestamp,
}

/// The days attended and the share of the salary they earn.
#[derive(Clone, Copy, Debug, PartialEq, Eq, Structural)]
pub struct PayslipAttendance {
    pub total_days: u64,
    pub prorated_amount: i64,
}

/// The overtime of one day and what it pays.
#[derive(Clone, Copy, Debug, PartialEq, Eq, Structural)]
pub struct OvertimeLine {
    pub date: Timestamp,
    pub hours: i16,
    pub amount: i64,
}

/// One reimbursed claim.
#[derive(Debug, PartialEq, Eq)]
pub struct ReimbursementLine {
    pub description: String,
    pub amount: i64,
}

/// The totals of a payslip.
#[derive(Clone, Copy, Debug, PartialEq, Eq, Structural)]
pub struct PayslipSummary {
    pub base_salary: i64,
    pub prorated_amount: i64,
    pub overtime_total: i64,
    pub reimbursement_total: i64,
    pub take_home_pay: i64,
}

/// What one employee is paid for one processed period, and why.
#[derive(Debug, PartialEq, Eq)]
pub struct Payslip {
    pub employee: PayslipEmployee,
    pub period: PayslipPeriod,
    pub attendance: PayslipAttendance,
    pub overtimes: Vec<OvertimeLine>,
    pub reimbursements: Vec<ReimbursementLine>,
    pub summary: PayslipSummary,
}

/// The payslips of all employees for one period, with the sum they come to.
#[derive(Debug, PartialEq, Eq)]
pub struct PayslipBatch {
    pub payslips: Vec<Payslip>,
    pub total_take_home: i64,
}

/// The quotient of `a` by a positive `b`, rounded towards zero.
pub open spec fn trunc_div(a: int, b: int) -> int {
    if a >= 0 {
        a / b
    } else {
        -((-a) / b)
    }
}

/// The working days of the period: the days from Monday to Friday among the
/// calendar days from that of its start to that of its end.
pub open spec fn total_working_days(period: PayPeriod) -> nat {
    working_days_between(
        day_number(period.start_at@.secs, period.start_at@.offset),
        day_number(period.end_at@.secs, period.start_at@.offset),
    )
}

/// How many of `records` are check-ins of the employee in the period.
pub open spec fn attendance_days(
    records: Seq<AttendanceRecord>,
    employee_id: u128,
    period_id: u128,
) -> nat
    decreases records.len(),
{
    if records.len() == 0 {
        0
    } else {
        let last = records.last();
        let one: nat = if last.employee_id == employee_id && last.period_id == period_id {
            1
        } else {
            0
        };
        attendance_days(records.drop_last(), employee_id, period_id) + one
    }
}

/// The overtime records of the employee in the period, in their order.
pub open spec fn overtime_of(
    records: Seq<OvertimeRecord>,
    employee_id: u128,
    period_id: u128,
) -> Seq<OvertimeRecord>
    decreases records.len(),
{
    if records.len() == 0 {
        Seq::empty()
    } else {
        let last = records.last();
        let rest = overtime_of(records.drop_last(), employee_id, period_id);
        if last.employee_id == employee_id && last.period_id == period_id {
            rest.push(last)
        } else {
            rest
        }
    }
}

/// The claims of the employee in the period, in their order.
pub open spec fn reimbursements_of(
    records: Seq<ReimbursementRecord>,
    employee_id: u128,
    period_id: u128,
) -> Seq<ReimbursementRecord>
    decreases records.len(),
{
    if records.len() == 0 {
        Seq::empty()
    } else {
        let last = records.last();
        let rest = reimbursements_of(records.drop_last(), employee_id, period_id);
        if last.employee_id == employee_id && last.period_id == period_id {
            rest.push(last)
        } else {
            rest
        }
    }
}

/// The pay for an hour of work: the salary spread over the working hours of
/// the period.
pub open spec fn hourly_rate(salary: int, working_days: int, hours_per_day: int) -> int {
    trunc_div(salary, working_days * hours_per_day)
}

/// The pay for an hour of overtime: twice the hourly rate.
pub open spec fn overtime_rate(salary: int, working_days: int, hours_per_day: int) -> int {
    hourly_rate(salary, working_days, hours_per_day) * 2
}

/// The share of the salary earned by attending `days` of `working_days`.
pub open spec fn prorated_amount(salary: int, days: int, working_days: int) -> int {
    trunc_div(salary * days, working_days)
}

/// The sum of what the overtime `lines` pay at `rate` an hour.
pub open spec fn overtime_total(lines: Seq<OvertimeRecord>, rate: int) -> int
    decreases lines.len(),
{
    if lines.len() == 0 {
        0
    } else {
        overtime_total(lines.drop_last(), rate) + rate * lines.last().extra_hours
    }
}

/// The sum of the amounts of the claims `lines`.
pub open spec fn reimbursement_total(lines: Seq<ReimbursementRecord>) -> int
    decreases lines.len(),
{
    if lines.len() == 0 {
        0
    } else {
        reimbursement_total(lines.drop_last()) + lines.last().amount
    }
}

/// The figures of a payslip as numbers without bounds.
pub struct PayFigures {
    pub attendance_days: int,
    pub working_days: int,
    pub overtime_rate: int,
    pub prorated_amount: int,
    pub overtime_total: int,
    pub reimbursement_total: int,
    pub take_home_pay: int,
}

/// What `employee` is owed for `period`, given all records.
pub open spec fn pay_figures(
    employee: User,
    period: PayPeriod,
    attendance: Seq<AttendanceRecord>,
    overtimes: Seq<OvertimeRecord>,
    reimbursements: Seq<ReimbursementRecord>,
    work: WorkHours,
) -> PayFigures {
    let days = attendance_days(attendance, employee.id, period.id) as int;
    let working_days = total_working_days(period) as int;
    let rate = overtime_rate(employee.salary as int, working_days, work.spec_hours_per_day());
    let prorated = prorated_amount(employee.salary as int, days, working_days);
    let overtime = overtime_total(overtime_of(overtimes, employee.id, period.id), rate);
    let reimbursed = reimbursement_total(
        reimbursements_of(reimbursements, employee.id, period.id),
    );
    PayFigures {
        attendance_days: days,
        working_days,
        overtime_rate: rate,
        prorated_amount: prorated,
        overtime_total: overtime,
        reimbursement_total: reimbursed,
        take_home_pay: prorated + overtime + reimbursed,
    }
}

/// `x` can be held in an `i64`.
pub open spec fn fits_i64(x: int) -> bool {
    i64::MIN <= x <= i64::MAX
}

/// Every amount of the payslip can be held in an `i64`: the share of the
/// salary, each line of overtime, the three totals.
pub open spec fn figures_fit(
    figures: PayFigures,
    overtime_lines: Seq<OvertimeRecord>,
) -> bool {
    &&& fits_i64(figures.prorated_amount)
    &&& forall|k: int|
        0 <= k < overtime_lines.len() ==> fits_i64(
            figures.overtime_rate * (#[trigger] overtime_lines[k]).extra_hours,
        )
    &&& fits_i64(figures.overtime_total)
    &&& fits_i64(figures.reimbursement_total)
    &&& fits_i64(figures.take_home_pay)
}

/// The reason for which no payslip of `employee` for `period` can be given,
/// if there is one: the period is still open, it holds no working day, or
/// an amount cannot be held.
pub open spec fn payslip_error(
    employee: User,
    period: PayPeriod,
    attendance: Seq<AttendanceRecord>,
    overtimes: Seq<OvertimeRecord>,
    reimbursements: Seq<ReimbursementRecord>,
    work: WorkHours,
) -> Option<DomainError> {
    if !period.processed {
        Some(DomainError::PeriodNotProcessed)
    } else if total_working_days(period) == 0 {
        Some(DomainError::NoWorkingDays)
    } else if !figures_fit(
        pay_figures(employee, period, attendance, overtimes, reimbursements, work),
        overtime_of(overtimes, employee.id, period.id),
    ) {
        Some(DomainError::AmountOverflow)
    } else {
        None
    }
}

/// `lines` are the lines of the overtime `records` at `rate` an hour.
pub open spec fn overtime_lines_of(
    lines: Seq<OvertimeLine>,
    records: Seq<OvertimeRecord>,
    rate: int,
) -> bool {
    &&& lines.len() == records.len()
    &&& forall|k: int|
        0 <= k < lines.len() ==> {
            &&& (#[trigger] lines[k]).date == records[k].updated_at
            &&& lines[k].hours == records[k].extra_hours
            &&& lines[k].amount == rate * records[k].extra_hours
        }
}

/// `lines` are the lines of the claims `records`.
pub open spec fn reimbursement_lines_of(
    lines: Seq<ReimbursementLine>,
    records: Seq<ReimbursementRecord>,
) -> bool {
    &&& lines.len() == records.len()
    &&& forall|k: int|
        0 <= k < lines.len() ==> {
            &&& (#[trigger] lines[k]).description == records[k].description
            &&& lines[k].amount == records[k].amount
        }
}

/// `payslip` is the payslip of `employee` for `period`: it names the
/// employee and the period, lists the overtime and the claims of the
/// employee in the period, and holds the figures that follow from them.
pub open spec fn is_payslip_of(
    payslip: Payslip,
    employee: User,
    period: PayPeriod,
    attendance: Seq<AttendanceRecord>,
    overtimes: Seq<OvertimeRecord>,
    reimbursements: Seq<ReimbursementRecord>,
    work: WorkHours,
) -> bool {
    let figures = pay_figures(employee, period, attendance, overtimes, reimbursements, work);
    &&& payslip.employee.id == employee.id
    &&& payslip.employee.username == employee.username
    &&& payslip.employee.base_salary == employee.salary
    &&& payslip.period.start_at == period.start_at
    &&& payslip.period.end_at == period.end_at
    &&& payslip.attendance.total_days == figures.attendance_days
    &&& payslip.attendance.prorated_amount == figures.prorated_amount
    &&& overtime_lines_of(
        payslip.overtimes@,
        overtime_of(overtimes, employee.id, period.id),
        figures.overtime_rate,
    )
    &&& reimbursement_lines_of(
        payslip.reimbursements@,
        reimbursements_of(reimbursements, employee.id, period.id),
    )
    &&& payslip.summary.base_salary == employee.salary
    &&& payslip.summary.prorated_amount == figures.prorated_amount
    &&& payslip.summary.overtime_total == figures.overtime_total
    &&& payslip.summary.reimbursement_total == figures.reimbursement_total
    &&& payslip.summary.take_home_pay == figures.take_home_pay
}

/// Division of a number by a positive one, rounded towards zero.
fn divide(a: i128, b: i128) -> (q: i128)
    requires
        b > 0,
        a > i128::MIN,
    ensures
        q == trunc_div(a as int, b as int),
{
    a / b
}

/// Counts the check-ins of the employee in the period.
fn count_attendance(records: &Vec<AttendanceRecord>, employee_id: u128, period_id: u128) -> (days:
    u64)
    ensures
        days == attendance_days(records@, employee_id, period_id),
{
    let mut days: u64 = 0;
    let mut i: usize = 0;
    while i < records.len()
        invariant
            i <= records.len(),
            days == attendance_days(records@.take(i as int), employee_id, period_id),
            days <= i,
        decreases records.len() - i,
    {
        proof {
            assert(records@.take(i + 1).drop_last() == records@.take(i as int));
            assert(records@.take(i + 1).last() == records@[i as int]);
        }
        if records[i].employee_id == employee_id && records[i].period_id == period_id {
            days = days + 1;
        }
        i = i + 1;
    }
    proof {
        assert(records@.take(records.len() as int) == records@);
    }
    days
}

/// The overtime of the employee among the first `i` records comes first
/// among the overtime of the employee in all of them.
proof fn lemma_overtime_of_prefix(
    records: Seq<OvertimeRecord>,
    i: int,
    employee_id: u128,
    period_id: u128,
)
    requires
        0 <= i <= records.len(),
    ensures
        overtime_of(records.take(i), employee_id, period_id).len() <= overtime_of(
            records,
            employee_id,
            period_id,
        ).len(),
        forall|k: int|
            0 <= k < overtime_of(records.take(i), employee_id, period_id).len() ==> overtime_of(
                records.take(i),
                employee_id,
                period_id,
            )[k] == overtime_of(records, employee_id, period_id)[k],
    decreases records.len(),
{
    if i == records.len() {
        assert(records.take(i) == records);
    } else {
        assert(records.drop_last().take(i) == records.take(i));
        lemma_overtime_of_prefix(records.drop_last(), i, employee_id, period_id);
    }
}

/// The limit on the size of an hourly rate that the arithmetic below allows
/// for: twice the largest salary.
const RATE_LIMIT: i128 = 0x1_0000_0000_0000_0000;

/// Writes the lines of the overtime of the employee in the period at `rate`
/// an hour, and adds them up. `None` where the amount of a line cannot be
/// held.
fn build_overtime_lines(
    records: &Vec<OvertimeRecord>,
    employee_id: u128,
    period_id: u128,
    rate: i128,
) -> (r: Option<(Vec<OvertimeLine>, i128)>)
    requires
        -RATE_LIMIT <= rate <= RATE_LIMIT,
    ensures
        r is Some <==> forall|k: int|
            0 <= k < overtime_of(records@, employee_id, period_id).len() ==> fits_i64(
                rate * (#[trigger] overtime_of(records@, employee_id, period_id)[k]).extra_hours,
            ),
        r matches Some((lines, total)) ==> overtime_lines_of(
            lines@,
            overtime_of(records@, employee_id, period_id),
            rate as int,
        ) && total == overtime_total(overtime_of(records@, employee_id, period_id), rate as int),
{
    let mut lines: Vec<OvertimeLine> = Vec::new();
    let mut total: i128 = 0;
    let mut i: usize = 0;
    while i < records.len()
        invariant
            i <= records.len(),
            -RATE_LIMIT <= rate <= RATE_LIMIT,
            overtime_of(records@.take(i as int), employee_id, period_id).len() <= i,
            overtime_lines_of(
                lines@,
                overtime_of(records@.take(i as int), employee_id, period_id),
                rate as int,
            ),
            forall|k: int|
                0 <= k < overtime_of(records@.take(i as int), employee_id, period_id).len()
                    ==> fits_i64(
                    rate * (#[trigger] overtime_of(
                        records@.take(i as int),
                        employee_id,
                        period_id,
                    )[k]).extra_hours,
                ),
            total == overtime_total(
                overtime_of(records@.take(i as int), employee_id, period_id),
                rate as int,
            ),
            -0x8000_0000_0000_0000 * lines@.len() <= total <= 0x8000_0000_0000_0000 * lines@.len(),
        decreases records.len() - i,
    {
        let record = records[i];
        proof {
            assert(records@.take(i + 1).drop_last() == records@.take(i as int));
            assert(records@.take(i + 1).last() == record);
        }
        if record.employee_id == employee_id && record.period_id == period_id {
            let ghost before = overtime_of(records@.take(i as int), employee_id, period_id);
            let ghost after = overtime_of(records@.take(i + 1), employee_id, period_id);
            proof {
                assert(after == before.push(record));
                assert(after.drop_last() == before);
                let r: int = rate as int;
                let h: int = record.extra_hours as int;
                assert(-0x8000 * RATE_LIMIT <= r * h <= 0x8000 * RATE_LIMIT) by (nonlinear_arith)
                    requires
                        -RATE_LIMIT <= r <= RATE_LIMIT,
                        -0x8000 <= h <= 0x8000,
                ;
            }
            let amount: i128 = rate * (record.extra_hours as i128);
            if amount < i64::MIN as i128 || amount > i64::MAX as i128 {
                proof {
                    lemma_overtime_of_prefix(records@, i + 1, employee_id, period_id);
                    let all = overtime_of(records@, employee_id, period_id);
                    let k = after.len() - 1;
                    assert(after[k] == record);
                    assert(all[k] == record);
                    assert(!fits_i64(rate * all[k].extra_hours));
                }
                return None;
            }
            lines.push(OvertimeLine {
                date: record.updated_at,
                hours: record.extra_hours,
                amount: amount as i64,
            });
            total = total + amount;
            proof {
                assert forall|k: int| 0 <= k < after.len() implies fits_i64(
                    rate * (#[trigger] after[k]).extra_hours,
                ) by {
                    if k < before.len() {
                        assert(after[k] == before[k]);
                    }
                }
            }
        }
        i = i + 1;
    }
    proof {
        assert(records@.take(records.len() as int) == records@);
    }
    Some((lines, total))
}

/// Writes the lines of the claims of the employee in the period, and adds
/// them up.
fn build_reimbursement_lines(
    records: &Vec<ReimbursementRecord>,
    employee_id: u128,
    period_id: u128,
) -> (r: (Vec<ReimbursementLine>, i128))
    ensures
        reimbursement_lines_of(r.0@, reimbursements_of(records@, employee_id, period_id)),
        r.1 == reimbursement_total(reimbursements_of(records@, employee_id, period_id)),
{
    let mut lines: Vec<ReimbursementLine> = Vec::new();
    let mut total: i128 = 0;
    let mut i: usize = 0;
    while i < records.len()
        invariant
            i <= records.len(),
            reimbursements_of(records@.take(i as int), employee_id, period_id).len() <= i,
            reimbursement_lines_of(
                lines@,
                reimbursements_of(records@.take(i as int), employee_id, period_id),
            ),
            total == reimbursement_total(
                reimbursements_of(records@.take(i as int), employee_id, period_id),
            ),
            -0x8000_0000_0000_0000 * lines@.len() <= total <= 0x8000_0000_0000_0000 * lines@.len(),
        decreases records.len() - i,
    {
        proof {
            assert(records@.take(i + 1).drop_last() == records@.take(i as int));
            assert(records@.take(i + 1).last() == records@[i as int]);
        }
        if records[i].employee_id == employee_id && records[i].period_id == period_id {
            let ghost before = reimbursements_of(records@.take(i as int), employee_id, period_id);
            let ghost after = reimbursements_of(records@.take(i + 1), employee_id, period_id);
            proof {
                assert(after == before.push(records@[i as int]));
                assert(after.drop_last() == before);
            }
            lines.push(
                ReimbursementLine {
                    description: records[i].description.clone(),
                    amount: records[i].amount,
                },
            );
            total = total + records[i].amount as i128;
        }
        i = i + 1;
    }
    proof {
        assert(records@.take(records.len() as int) == records@);
    }
    (lines, total)
}

/// Whether `x` can be held in an `i64`.
fn fits(x: i128) -> (b: bool)
    ensures
        b == fits_i64(x as int),
{
    i64::MIN as i128 <= x && x <= i64::MAX as i128
}

/// Derives the payslip of `employee` for `period` from the records of the
/// period. Only a processed period with at least one working day yields
/// one. All divisions round towards zero, and what they lose is not handed
/// out elsewhere.
pub fn generate_payslip(
    employee: &User,
    period: &PayPeriod,
    attendance: &Vec<AttendanceRecord>,
    overtimes: &Vec<OvertimeRecord>,
    reimbursements: &Vec<ReimbursementRecord>,
    work: &WorkHours,
) -> (r: Result<Payslip, DomainError>)
    ensures
        match payslip_error(
            *employee,
            *period,
            attendance@,
            overtimes@,
            reimbursements@,
            *work,
        ) {
            Some(e) => r == Err::<Payslip, DomainError>(e),
            None => r matches Ok(payslip) && is_payslip_of(
                payslip,
                *employee,
                *period,
                attendance@,
                overtimes@,
                reimbursements@,
                *work,
            ),
        },
{
    if !period.processed {
        return Err(DomainError::PeriodNotProcessed);
    }
    let working_days = count_working_days(period.start_at, period.end_at);
    if working_days == 0 {
        return Err(DomainError::NoWorkingDays);
    }
    let hours_per_day = work.hours_per_day();
    let salary: i128 = employee.salary as i128;
    proof {
        let d: int = working_days as int;
        let h: int = hours_per_day as int;
        assert(1 <= d * h <= 24 * 0x8000_0000_0000_0000) by (nonlinear_arith)
            requires
                1 <= d <= 0x8000_0000_0000_0000,
                1 <= h <= 24,
        ;
    }
    let working_hours: i128 = working_days as i128 * hours_per_day as i128;
    let hourly = divide(salary, working_hours);
    proof {
        let a: int = salary as int;
        let b: int = working_hours as int;
        assert(-0x8000_0000_0000_0000 <= trunc_div(a, b) <= 0x8000_0000_0000_0000)
            by (nonlinear_arith)
            requires
                b >= 1,
                -0x8000_0000_0000_0000 <= a <= 0x8000_0000_0000_0000,
        ;
    }
    let rate: i128 = hourly * 2;
    let days = count_attendance(attendance, employee.id, period.id);
    proof {
        let a: int = salary as int;
        let d: int = days as int;
        assert(-0x8000_0000_0000_0000 * 0x1_0000_0000_0000_0000 < a * d
            < 0x8000_0000_0000_0000 * 0x1_0000_0000_0000_0000) by (nonlinear_arith)
            requires
                -0x8000_0000_0000_0000 <= a < 0x8000_0000_0000_0000,
                0 <= d < 0x1_0000_0000_0000_0000,
        ;
    }
    let prorated = divide(salary * days as i128, working_days as i128);
    let ghost figures = pay_figures(
        *employee,
        *period,
        attendance@,
        overtimes@,
        reimbursements@,
        *work,
    );
    if !fits(prorated) {
        return Err(DomainError::AmountOverflow);
    }
    let (overtime_lines, overtime_sum) = match build_overtime_lines(
        overtimes,
        employee.id,
        period.id,
        rate,
    ) {
        Some(built) => built,
        None => {
            return Err(DomainError::AmountOverflow);
        },
    };
    let (reimbursement_lines, reimbursement_sum) = build_reimbursement_lines(
        reimbursements,
        employee.id,
        period.id,
    );
    if !fits(overtime_sum) || !fits(reimbursement_sum) {
        return Err(DomainError::AmountOverflow);
    }
    let take_home: i128 = prorated + overtime_sum + reimbursement_sum;
    if !fits(take_home) {
        return Err(DomainError::AmountOverflow);
    }
    Ok(
        Payslip {
            employee: PayslipEmployee {
                id: employee.id,
                username: employee.username.clone(),
                base_salary: employee.salary,
            },
            period: PayslipPeriod { start_at: period.start_at, end_at: period.end_at },
            attendance: PayslipAttendance { total_days: days, prorated_amount: prorated as i64 },
            overtimes: overtime_lines,
            reimbursements: reimbursement_lines,
            summary: PayslipSummary {
                base_salary: employee.salary,
                prorated_amount: prorated as i64,
                overtime_total: overtime_sum as i64,
                reimbursement_total: reimbursement_sum as i64,
                take_home_pay: take_home as i64,
            },
        },
    )
}

/// Those of `users` whose role is `Employee`, in their order.
pub open spec fn employees_of(users: Seq<User>) -> Seq<User>
    decreases users.len(),
{
    if users.len() == 0 {
        Seq::empty()
    } else {
        let rest = employees_of(users.drop_last());
        if users.last().role == RoleType::Employee {
            rest.push(users.last())
        } else {
            rest
        }
    }
}

/// The sum of what `employees` take home for `period`.
pub open spec fn batch_take_home(
    employees: Seq<User>,
    period: PayPeriod,
    attendance: Seq<AttendanceRecord>,
    overtimes: Seq<OvertimeRecord>,
    reimbursements: Seq<ReimbursementRecord>,
    work: WorkHours,
) -> int
    decreases employees.len(),
{
    if employees.len() == 0 {
        0
    } else {
        batch_take_home(
            employees.drop_last(),
            period,
            attendance,
            overtimes,
            reimbursements,
            work,
        ) + pay_figures(
            employees.last(),
            period,
            attendance,
            overtimes,
            reimbursements,
            work,
        ).take_home_pay
    }
}

/// The reason for which the payslips of the employees among `users` cannot
/// be given, if there is one: the period is still open; there is an
/// employee to pay and the period holds no working day; or an amount of a
/// payslip, or the sum of all, cannot be held.
pub open spec fn batch_error(
    users: Seq<User>,
    period: PayPeriod,
    attendance: Seq<AttendanceRecord>,
    overtimes: Seq<OvertimeRecord>,
    reimbursements: Seq<ReimbursementRecord>,
    work: WorkHours,
) -> Option<DomainError> {
    let employees = employees_of(users);
    if !period.processed {
        Some(DomainError::PeriodNotProcessed)
    } else if employees.len() > 0 && total_working_days(period) == 0 {
        Some(DomainError::NoWorkingDays)
    } else if (exists|k: int|
        0 <= k < employees.len() && payslip_error(
            #[trigger] employees[k],
            period,
            attendance,
            overtimes,
            reimbursements,
            work,
        ) is Some) || !fits_i64(
        batch_take_home(employees, period, attendance, overtimes, reimbursements, work),
    ) {
        Some(DomainError::AmountOverflow)
    } else {
        None
    }
}

/// `batch` holds the payslip of each employee among `users`, in their
/// order, and the sum of what they take home.
pub open spec fn is_batch_of(
    batch: PayslipBatch,
    users: Seq<User>,
    period: PayPeriod,
    attendance: Seq<AttendanceRecord>,
    overtimes: Seq<OvertimeRecord>,
    reimbursements: Seq<ReimbursementRecord>,
    work: WorkHours,
) -> bool {
    let employees = employees_of(users);
    &&& batch.payslips@.len() == employees.len()
    &&& forall|k: int|
        0 <= k < employees.len() ==> is_payslip_of(
            #[trigger] batch.payslips@[k],
            employees[k],
            period,
            attendance,
            overtimes,
            reimbursements,
            work,
        )
    &&& batch.total_take_home == batch_take_home(
        employees,
        period,
        attendance,
        overtimes,
        reimbursements,
        work,
    )
}

/// The employees among the first `i` users come first among the employees
/// of all.
proof fn lemma_employees_of_prefix(users: Seq<User>, i: int)
    requires
        0 <= i <= users.len(),
    ensures
        employees_of(users.take(i)).len() <= employees_of(users).len(),
        forall|k: int|
            0 <= k < employees_of(users.take(i)).len() ==> employees_of(users.take(i))[k]
                == employees_of(users)[k],
    decreases users.len(),
{
    if i == users.len() {
        assert(users.take(i) == users);
    } else {
        assert(users.drop_last().take(i) == users.take(i));
        lemma_employees_of_prefix(users.drop_last(), i);
    }
}

/// Derives the payslip of every employee among `users` for `period`, and
/// the sum of what they take home. With no employee to pay, the batch of a
/// processed period is empty and its sum is zero.
pub fn generate_all_payslips(
    users: &Vec<User>,
    period: &PayPeriod,
    attendance: &Vec<AttendanceRecord>,
    overtimes: &Vec<OvertimeRecord>,
    reimbursements: &Vec<ReimbursementRecord>,
    work: &WorkHours,
) -> (r: Result<PayslipBatch, DomainError>)
    ensures
        match batch_error(users@, *period, attendance@, overtimes@, reimbursements@, *work) {
            Some(e) => r == Err::<PayslipBatch, DomainError>(e),
            None => r matches Ok(batch) && is_batch_of(
                batch,
                users@,
                *period,
                attendance@,
                overtimes@,
                reimbursements@,
                *work,
            ),
        },
{
    if !period.processed {
        return Err(DomainError::PeriodNotProcessed);
    }
    let mut payslips: Vec<Payslip> = Vec::new();
    let mut total: i128 = 0;
    let mut i: usize = 0;
    while i < users.len()
        invariant
            i <= users.len(),
            period.processed,
            payslips@.len() == employees_of(users@.take(i as int)).len(),
            payslips@.len() <= i,
            forall|k: int|
                0 <= k < payslips@.len() ==> is_payslip_of(
                    #[trigger] payslips@[k],
                    employees_of(users@.take(i as int))[k],
                    *period,
                    attendance@,
                    overtimes@,
                    reimbursements@,
                    *work,
                ),
            forall|k: int|
                0 <= k < payslips@.len() ==> payslip_error(
                    #[trigger] employees_of(users@.take(i as int))[k],
                    *period,
                    attendance@,
                    overtimes@,
                    reimbursements@,
                    *work,
                ) is None,
            total == batch_take_home(
                employees_of(users@.take(i as int)),
                *period,
                attendance@,
                overtimes@,
                reimbursements@,
                *work,
            ),
            -0x8000_0000_0000_0000 * payslips@.len() <= total <= 0x8000_0000_0000_0000
                * payslips@.len(),
        decreases users.len() - i,
    {
        proof {
            assert(users@.take(i + 1).drop_last() == users@.take(i as int));
            assert(users@.take(i + 1).last() == users@[i as int]);
        }
        let ghost before = employees_of(users@.take(i as int));
        let ghost after = employees_of(users@.take(i + 1));
        match users[i].role {
            RoleType::Employee => {
                proof {
                    assert(after == before.push(users@[i as int]));
                    assert(after.drop_last() == before);
                    lemma_employees_of_prefix(users@, i + 1);
                    assert(employees_of(users@)[before.len() as int] == users@[i as int]);
                }
                match generate_payslip(
                    &users[i],
                    period,
                    attendance,
                    overtimes,
                    reimbursements,
                    work,
                ) {
                    Ok(payslip) => {
                        total = total + payslip.summary.take_home_pay as i128;
                        payslips.push(payslip);
                        proof {
                            assert forall|k: int| 0 <= k < payslips@.len() implies payslip_error(
                                #[trigger] after[k],
                                *period,
                                attendance@,
                                overtimes@,
                                reimbursements@,
                                *work,
                            ) is None by {
                                if k < before.len() {
                                    assert(after[k] == before[k]);
                                }
                            }
                            assert forall|k: int| 0 <= k < payslips@.len() implies is_payslip_of(
                                #[trigger] payslips@[k],
                                after[k],
                                *period,
                                attendance@,
                                overtimes@,
                                reimbursements@,
                                *work,
                            ) by {
                                if k < before.len() {
                                    assert(after[k] == before[k]);
                                }
                            }
                        }
                    },
                    Err(e) => {
                        return Err(e);
                    },
                }
            },
            RoleType::Admin => {
                proof {
                    assert(after == before);
                }
            },
        }
        i = i + 1;
    }
    proof {
        assert(users@.take(users.len() as int) == users@);
        let employees = employees_of(users@);
        if employees.len() > 0 {
            assert(payslip_error(
                employees[0],
                *period,
                attendance@,
                overtimes@,
                reimbursements@,
                *work,
            ) is None);
        }
    }
    if !fits(total) {
        return Err(DomainError::AmountOverflow);
    }
    Ok(PayslipBatch { payslips, total_take_home: total as i64 })
}

} // verus!
