use attendance_payroll::attendance::{check_in, find_attendance, CheckIn};
use attendance_payroll::error::DomainError;
use attendance_payroll::lookup::{find_employee, find_period};
use attendance_payroll::model::{
    Admin, AttendanceRecord, OvertimeRecord, PayPeriod, ReimbursementRecord, RoleType, User,
    WorkHours,
};
use attendance_payroll::overtime::{find_overtime, request_overtime, OvertimeOutcome};
use attendance_payroll::period::{create_period, process_period, require_open, require_processed};
use attendance_payroll::reimbursement::submit_reimbursement;
use attendance_payroll::time::Timestamp;
use chrono::{FixedOffset, TimeZone};

const ZONE: i32 = 7 * 3600;

fn at(year: i32, month: u32, day: u32, hour: u32, minute: u32) -> Timestamp {
    let time = FixedOffset::east_opt(ZONE)
        .unwrap()
        .with_ymd_and_hms(year, month, day, hour, minute, 0)
        .unwrap();
    Timestamp::new(time.timestamp(), ZONE).unwrap()
}

fn user(id: u128, role: RoleType, salary: i64) -> User {
    User { id, username: format!("user-{id}"), role, salary }
}

fn admin() -> Admin {
    Admin::new(user(900, RoleType::Admin, 0)).unwrap()
}

fn june(processed: bool) -> PayPeriod {
    PayPeriod {
        id: 1,
        start_at: at(2024, 6, 1, 0, 0),
        end_at: at(2024, 6, 30, 23, 59),
        processed,
        created_by: Some(900),
        updated_by: Some(900),
        created_at: at(2024, 5, 31, 9, 0),
        updated_at: at(2024, 5, 31, 9, 0),
    }
}

fn office_hours() -> WorkHours {
    WorkHours::new(9, 17).unwrap()
}

#[test]
fn admin_is_admitted_by_role_alone() {
    assert!(Admin::new(user(1, RoleType::Employee, 5)).is_none());
    let boss = Admin::new(user(2, RoleType::Admin, 5)).unwrap();
    assert_eq!(boss.id(), 2);
    assert_eq!(boss.as_user().role, RoleType::Admin);
    assert_eq!(*boss.as_user(), user(2, RoleType::Admin, 5));
}

#[test]
fn work_hours_need_a_start_before_the_end() {
    assert!(WorkHours::new(9, 9).is_none());
    assert!(WorkHours::new(17, 9).is_none());
    assert!(WorkHours::new(9, 25).is_none());
    let day = WorkHours::new(0, 24).unwrap();
    assert_eq!(day.hours_per_day(), 24);
    let office = office_hours();
    assert_eq!(office.start_hour(), 9);
    assert_eq!(office.end_hour(), 17);
    assert_eq!(office.hours_per_day(), 8);
}

#[test]
fn period_that_ends_before_it_starts_is_refused() {
    let start = at(2024, 6, 1, 0, 0);
    let now = at(2024, 5, 31, 9, 0);
    let earlier = at(2024, 5, 31, 23, 59);
    assert_eq!(create_period(1, &admin(), start, earlier, now), Err(DomainError::InvalidRange));
    let one_second = Timestamp::new(start.secs() - 1, ZONE).unwrap();
    assert_eq!(create_period(1, &admin(), start, one_second, now), Err(DomainError::InvalidRange));
}

#[test]
fn period_of_one_instant_or_more_is_opened() {
    let start = at(2024, 6, 1, 0, 0);
    let now = at(2024, 5, 31, 9, 0);
    let same = create_period(7, &admin(), start, start, now).unwrap();
    assert_eq!(
        same,
        PayPeriod {
            id: 7,
            start_at: start,
            end_at: start,
            processed: false,
            created_by: Some(900),
            updated_by: Some(900),
            created_at: now,
            updated_at: now,
        }
    );
    let end = at(2024, 6, 30, 23, 59);
    let month = create_period(8, &admin(), start, end, now).unwrap();
    assert_eq!(month.end_at, end);
    assert!(!month.processed);
}

#[test]
fn period_start_and_end_are_compared_as_instants() {
    let start = Timestamp::new(1_717_200_000, 0).unwrap();
    let end_other_zone = Timestamp::new(1_717_200_000, -3600).unwrap();
    let now = at(2024, 5, 31, 9, 0);
    assert!(create_period(1, &admin(), start, end_other_zone, now).is_ok());
}

#[test]
fn processing_flips_the_flag_once() {
    let open = june(false);
    let other = Admin::new(user(901, RoleType::Admin, 0)).unwrap();
    let now = at(2024, 7, 1, 10, 0);
    let done = process_period(&other, &open, now).unwrap();
    assert_eq!(done, PayPeriod { processed: true, updated_by: Some(901), updated_at: now, ..open });
    assert_eq!(process_period(&other, &done, now), Err(DomainError::AlreadyProcessed));
    assert_eq!(process_period(&admin(), &done, at(2024, 7, 2, 10, 0)), Err(DomainError::AlreadyProcessed));
}

#[test]
fn guards_follow_the_flag() {
    assert_eq!(require_open(&june(false)), Ok(()));
    assert_eq!(require_open(&june(true)), Err(DomainError::PeriodAlreadyProcessed));
    assert_eq!(require_processed(&june(true)), Ok(()));
    assert_eq!(require_processed(&june(false)), Err(DomainError::PeriodNotProcessed));
}

#[test]
fn first_check_in_of_a_day_creates_a_record() {
    let mut records = Vec::new();
    let now = at(2024, 6, 3, 8, 55);
    let outcome = check_in(&mut records, 10, 42, &june(false), &now).unwrap();
    let expected = AttendanceRecord { id: 10, period_id: 1, employee_id: 42, created_at: now };
    assert_eq!(outcome, CheckIn::Created(expected));
    assert_eq!(outcome.record(), expected);
    assert_eq!(records, vec![expected]);
}

#[test]
fn second_check_in_of_a_day_hands_back_the_first() {
    let mut records = Vec::new();
    let morning = at(2024, 6, 3, 8, 55);
    let first = check_in(&mut records, 10, 42, &june(false), &morning).unwrap();
    let evening = at(2024, 6, 3, 23, 59);
    let second = check_in(&mut records, 11, 42, &june(false), &evening).unwrap();
    assert_eq!(second, CheckIn::AlreadyRecorded(first.record()));
    assert_eq!(second.record().id, 10);
    assert_eq!(second.record().created_at, morning);
    assert_eq!(records.len(), 1);
    let midnight = at(2024, 6, 3, 0, 0);
    let third = check_in(&mut records, 12, 42, &june(false), &midnight).unwrap();
    assert_eq!(third.record().id, 10);
    assert_eq!(records.len(), 1);
}

#[test]
fn check_ins_of_other_days_employees_and_periods_are_kept_apart() {
    let mut records = Vec::new();
    let monday = at(2024, 6, 3, 9, 0);
    let tuesday = at(2024, 6, 4, 0, 0);
    assert!(matches!(check_in(&mut records, 1, 42, &june(false), &monday), Ok(CheckIn::Created(_))));
    assert!(matches!(check_in(&mut records, 2, 42, &june(false), &tuesday), Ok(CheckIn::Created(_))));
    assert!(matches!(check_in(&mut records, 3, 43, &june(false), &monday), Ok(CheckIn::Created(_))));
    let other = PayPeriod { id: 2, ..june(false) };
    assert!(matches!(check_in(&mut records, 4, 42, &other, &monday), Ok(CheckIn::Created(_))));
    assert_eq!(records.len(), 4);
    assert_eq!(find_attendance(&records, 42, &june(false), &tuesday).unwrap().id, 2);
    assert_eq!(find_attendance(&records, 43, &june(false), &tuesday), None);
}

#[test]
fn check_in_on_a_weekend_is_refused() {
    let mut records = Vec::new();
    let saturday = at(2024, 6, 8, 10, 0);
    let sunday = at(2024, 6, 9, 23, 59);
    assert_eq!(check_in(&mut records, 1, 42, &june(false), &saturday), Err(DomainError::WeekendCheckIn));
    assert_eq!(check_in(&mut records, 1, 42, &june(false), &sunday), Err(DomainError::WeekendCheckIn));
    assert!(records.is_empty());
    let friday_night = at(2024, 6, 7, 23, 59);
    assert!(check_in(&mut records, 1, 42, &june(false), &friday_night).is_ok());
    let monday_first = at(2024, 6, 10, 0, 0);
    assert!(check_in(&mut records, 2, 42, &june(false), &monday_first).is_ok());
}

#[test]
fn the_day_of_a_check_in_is_read_on_the_clock_of_the_period() {
    // Friday 18:00 UTC is Saturday 01:00 on the period's clock.
    let mut records = Vec::new();
    let friday_utc = Timestamp::new(at(2024, 6, 8, 1, 0).secs(), 0).unwrap();
    assert_eq!(check_in(&mut records, 1, 42, &june(false), &friday_utc), Err(DomainError::WeekendCheckIn));
    // Sunday 18:00 UTC is Monday 01:00 on the period's clock.
    let sunday_utc = Timestamp::new(at(2024, 6, 10, 1, 0).secs(), 0).unwrap();
    let outcome = check_in(&mut records, 1, 42, &june(false), &sunday_utc).unwrap();
    assert_eq!(outcome.record().created_at, sunday_utc);
    let monday_evening = at(2024, 6, 10, 22, 0);
    let again = check_in(&mut records, 2, 42, &june(false), &monday_evening).unwrap();
    assert_eq!(again, CheckIn::AlreadyRecorded(outcome.record()));
}

#[test]
fn check_in_against_a_processed_period_is_refused() {
    let mut records = Vec::new();
    let monday = at(2024, 6, 3, 9, 0);
    assert_eq!(check_in(&mut records, 1, 42, &june(true), &monday), Err(DomainError::PeriodAlreadyProcessed));
    let saturday = at(2024, 6, 8, 9, 0);
    assert_eq!(check_in(&mut records, 1, 42, &june(true), &saturday), Err(DomainError::PeriodAlreadyProcessed));
    assert!(records.is_empty());
}

fn checked_in(day: u32) -> Vec<AttendanceRecord> {
    let mut records = Vec::new();
    check_in(&mut records, 1, 42, &june(false), &at(2024, 6, day, 8, 0)).unwrap();
    records
}

#[test]
fn overtime_of_two_and_two_passes_the_cap() {
    let attendance = checked_in(3);
    let mut overtimes = Vec::new();
    let now = at(2024, 6, 3, 18, 0);
    let first = request_overtime(&mut overtimes, &attendance, 5, 42, &june(false), &now, 2, &office_hours());
    assert!(matches!(first, Ok(OvertimeOutcome::Created(_))));
    let kept = overtimes.clone();
    let second = request_overtime(&mut overtimes, &attendance, 6, 42, &june(false), &now, 2, &office_hours());
    assert_eq!(second, Err(DomainError::OvertimeCapExceeded));
    assert_eq!(overtimes, kept);
    assert_eq!(overtimes[0].extra_hours, 2);
}

#[test]
fn overtime_of_one_and_two_reaches_the_cap() {
    let attendance = checked_in(3);
    let mut overtimes = Vec::new();
    let six = at(2024, 6, 3, 18, 0);
    let first = request_overtime(&mut overtimes, &attendance, 5, 42, &june(false), &six, 1, &office_hours()).unwrap();
    assert_eq!(
        first,
        OvertimeOutcome::Created(OvertimeRecord {
            id: 5,
            period_id: 1,
            employee_id: 42,
            extra_hours: 1,
            created_at: six,
            updated_at: six,
        })
    );
    let eight = at(2024, 6, 3, 20, 0);
    let second = request_overtime(&mut overtimes, &attendance, 6, 42, &june(false), &eight, 2, &office_hours()).unwrap();
    assert_eq!(
        second,
        OvertimeOutcome::Updated(OvertimeRecord {
            id: 5,
            period_id: 1,
            employee_id: 42,
            extra_hours: 3,
            created_at: six,
            updated_at: eight,
        })
    );
    assert_eq!(second.record().extra_hours, 3);
    assert_eq!(overtimes, vec![second.record()]);
    for hours in [1, 2, 3, 4, 255] {
        let third = request_overtime(&mut overtimes, &attendance, 7, 42, &june(false), &eight, hours, &office_hours());
        assert_eq!(third, Err(DomainError::OvertimeCapExceeded));
    }
    assert_eq!(overtimes, vec![second.record()]);
}

#[test]
fn overtime_of_more_than_the_cap_at_once_is_refused() {
    let attendance = checked_in(3);
    let mut overtimes = Vec::new();
    let now = at(2024, 6, 3, 17, 0);
    assert_eq!(
        request_overtime(&mut overtimes, &attendance, 5, 42, &june(false), &now, 4, &office_hours()),
        Err(DomainError::OvertimeCapExceeded)
    );
    assert!(overtimes.is_empty());
    let three = request_overtime(&mut overtimes, &attendance, 5, 42, &june(false), &now, 3, &office_hours()).unwrap();
    assert_eq!(three.record().extra_hours, 3);
}

#[test]
fn overtime_needs_a_check_in_on_the_day() {
    let attendance = checked_in(3);
    let mut overtimes = Vec::new();
    let tuesday = at(2024, 6, 4, 18, 0);
    assert_eq!(
        request_overtime(&mut overtimes, &attendance, 5, 42, &june(false), &tuesday, 1, &office_hours()),
        Err(DomainError::NoCheckIn)
    );
    let monday = at(2024, 6, 3, 18, 0);
    assert_eq!(
        request_overtime(&mut overtimes, &attendance, 5, 43, &june(false), &monday, 1, &office_hours()),
        Err(DomainError::NoCheckIn)
    );
    assert_eq!(
        request_overtime(&mut overtimes, &Vec::new(), 5, 42, &june(false), &monday, 1, &office_hours()),
        Err(DomainError::NoCheckIn)
    );
    assert!(overtimes.is_empty());
}

#[test]
fn overtime_needs_the_working_day_to_be_over() {
    let attendance = checked_in(3);
    let mut overtimes = Vec::new();
    let before = at(2024, 6, 3, 16, 59);
    assert_eq!(
        request_overtime(&mut overtimes, &attendance, 5, 42, &june(false), &before, 1, &office_hours()),
        Err(DomainError::WorkHoursNotDone)
    );
    assert_eq!(
        request_overtime(&mut overtimes, &attendance, 5, 42, &june(false), &before, 9, &office_hours()),
        Err(DomainError::WorkHoursNotDone)
    );
    assert!(overtimes.is_empty());
    let sharp = at(2024, 6, 3, 17, 0);
    assert!(request_overtime(&mut overtimes, &attendance, 5, 42, &june(false), &sharp, 1, &office_hours()).is_ok());
    // 09:59 UTC is 16:59 on the period's clock, 10:00 UTC is 17:00.
    let utc_before = Timestamp::new(before.secs(), 0).unwrap();
    assert_eq!(utc_before.hour(), 9);
    assert_eq!(
        request_overtime(&mut overtimes, &attendance, 6, 42, &june(false), &utc_before, 1, &office_hours()),
        Err(DomainError::WorkHoursNotDone)
    );
}

#[test]
fn overtime_guards_come_in_their_order() {
    let mut overtimes = Vec::new();
    let early = at(2024, 6, 3, 10, 0);
    assert_eq!(
        request_overtime(&mut overtimes, &Vec::new(), 5, 42, &june(true), &early, 9, &office_hours()),
        Err(DomainError::PeriodAlreadyProcessed)
    );
    assert_eq!(
        request_overtime(&mut overtimes, &Vec::new(), 5, 42, &june(false), &early, 9, &office_hours()),
        Err(DomainError::NoCheckIn)
    );
    assert_eq!(
        request_overtime(&mut overtimes, &checked_in(3), 5, 42, &june(false), &early, 9, &office_hours()),
        Err(DomainError::WorkHoursNotDone)
    );
    assert_eq!(
        request_overtime(&mut overtimes, &checked_in(3), 5, 42, &june(true), &at(2024, 6, 3, 18, 0), 1, &office_hours()),
        Err(DomainError::PeriodAlreadyProcessed)
    );
}

#[test]
fn overtime_of_each_day_has_its_own_record() {
    let mut attendance = checked_in(3);
    check_in(&mut attendance, 2, 42, &june(false), &at(2024, 6, 4, 8, 0)).unwrap();
    let mut overtimes = Vec::new();
    request_overtime(&mut overtimes, &attendance, 5, 42, &june(false), &at(2024, 6, 3, 18, 0), 3, &office_hours()).unwrap();
    let tuesday = at(2024, 6, 4, 18, 0);
    let next = request_overtime(&mut overtimes, &attendance, 6, 42, &june(false), &tuesday, 2, &office_hours()).unwrap();
    assert!(matches!(next, OvertimeOutcome::Created(_)));
    assert_eq!(overtimes.len(), 2);
    assert_eq!(find_overtime(&overtimes, 42, &june(false), &tuesday), Some(1));
    assert_eq!(find_overtime(&overtimes, 42, &june(false), &at(2024, 6, 3, 0, 0)), Some(0));
    assert_eq!(find_overtime(&overtimes, 42, &june(false), &at(2024, 6, 5, 0, 0)), None);
    let more = request_overtime(&mut overtimes, &attendance, 7, 42, &june(false), &tuesday, 1, &office_hours()).unwrap();
    assert_eq!(more.record().extra_hours, 3);
    assert_eq!(more.record().id, 6);
    assert_eq!(overtimes[0].extra_hours, 3);
    assert_eq!(overtimes[1].extra_hours, 3);
}

#[test]
fn claims_are_appended_as_they_come() {
    let mut claims = Vec::new();
    let now = at(2024, 6, 5, 12, 0);
    let first = submit_reimbursement(&mut claims, 1, 42, &june(false), "taxi".to_string(), 25_000, &now).unwrap();
    assert_eq!(
        first,
        ReimbursementRecord {
            id: 1,
            period_id: 1,
            employee_id: 42,
            description: "taxi".to_string(),
            amount: 25_000,
            created_at: now,
        }
    );
    let same = submit_reimbursement(&mut claims, 2, 42, &june(false), "taxi".to_string(), 25_000, &now).unwrap();
    assert_eq!(same.id, 2);
    let negative = submit_reimbursement(&mut claims, 3, 42, &june(false), String::new(), -7, &now).unwrap();
    assert_eq!(negative.amount, -7);
    let weekend = at(2024, 6, 8, 3, 0);
    let large = submit_reimbursement(&mut claims, 4, 42, &june(false), "x".to_string(), i64::MIN, &weekend).unwrap();
    assert_eq!(large.amount, i64::MIN);
    assert_eq!(claims.len(), 4);
    assert_eq!(claims[0], first);
    assert_eq!(claims[3], large);
}

#[test]
fn claim_against_a_processed_period_is_refused() {
    let mut claims = Vec::new();
    let now = at(2024, 6, 5, 12, 0);
    assert_eq!(
        submit_reimbursement(&mut claims, 1, 42, &june(true), "taxi".to_string(), 25_000, &now),
        Err(DomainError::PeriodAlreadyProcessed)
    );
    assert!(claims.is_empty());
}

#[test]
fn every_error_has_its_message() {
    assert_eq!(DomainError::InvalidRange.message(), "end_at is lower than start_at");
    assert_eq!(DomainError::AlreadyProcessed.message(), "attendance is already processed");
    assert_eq!(DomainError::WeekendCheckIn.message(), "cannot attend on weekend");
    assert_eq!(DomainError::NoCheckIn.message(), "you have not checked-in today");
    assert_eq!(DomainError::WorkHoursNotDone.message(), "your work hours are not done yet");
    assert_eq!(
        DomainError::OvertimeCapExceeded.message(),
        "you cannot take overtime for more than 3 hours a day"
    );
    assert_eq!(DomainError::PeriodAlreadyProcessed.message(), "attendance is already processed");
    assert_eq!(DomainError::PeriodNotProcessed.message(), "attendance is not processed");
    assert_eq!(DomainError::NoWorkingDays.message(), "attendance period has no working day");
    assert_eq!(DomainError::AmountOverflow.message(), "amount is out of range");
    assert_eq!(DomainError::PeriodNotFound.message(), "attendance period is not known");
    assert_eq!(DomainError::EmployeeNotFound.message(), "employee is not known");
}

#[test]
fn periods_are_found_by_their_identity() {
    let periods = vec![
        PayPeriod { id: 5, ..june(false) },
        PayPeriod { id: 6, ..june(true) },
        PayPeriod { id: 5, ..june(true) },
    ];
    assert_eq!(find_period(&periods, 5), Ok(periods[0]));
    assert_eq!(find_period(&periods, 6), Ok(periods[1]));
    assert_eq!(find_period(&periods, 7), Err(DomainError::PeriodNotFound));
    assert_eq!(find_period(&Vec::new(), 5), Err(DomainError::PeriodNotFound));
}

#[test]
fn users_are_found_by_their_identity() {
    let users = vec![user(1, RoleType::Employee, 10), user(2, RoleType::Admin, 20), user(1, RoleType::Employee, 30)];
    assert_eq!(find_employee(&users, 1), Ok(&users[0]));
    assert_eq!(find_employee(&users, 2).unwrap().salary, 20);
    assert_eq!(find_employee(&users, 3), Err(DomainError::EmployeeNotFound));
    assert_eq!(find_employee(&Vec::new(), 1), Err(DomainError::EmployeeNotFound));
}
