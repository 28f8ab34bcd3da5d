use vstd::prelude::*;

use crate::attendance::{find_attendance, first_attendance};
use crate::error::DomainError;
use crate::model::{AttendanceRecord, OvertimeRecord, PayPeriod, WorkHours};
use crate::time::{day_number, hour_of_day, Timestamp};

verus! {

/// The most overtime, in hours, that one employee may accrue on one day.
pub const DAILY_OVERTIME_CAP: i16 = 3;

/// How a request for overtime ended.
#[derive(Clone, Copy, Debug, PartialEq, Eq, Structural)]
pub enum OvertimeOutcome {
    /// The first overtime of the day: this record was added.
    Created(OvertimeRecord),
    /// The day had overtime already: its record now holds the sum.
    Updated(OvertimeRecord),
}

impl OvertimeOutcome {
    /// The record of the day as it stands after the request.
    pub open spec fn spec_record(&self) -> OvertimeRecord {
        match *self {
            OvertimeOutcome::Created(record) => record,
            OvertimeOutcome::Updated(record) => record,
        }
    }

    /// The record of the day as it stands after the request.
    #[verifier::when_used_as_spec(spec_record)]
    pub fn record(&self) -> (record: OvertimeRecord)
        ensures
            record == self.spec_record(),
    {
        match self {
            OvertimeOutcome::Created(record) => *record,
            OvertimeOutcome::Updated(record) => *record,
        }
    }
}

/// `record` is overtime of `employee_id` in `period`, first requested on the
/// calendar day on which `now` falls, both read on the period's clock.
pub open spec fn overtime_on_day_of(
    record: OvertimeRecord,
    employee_id: u128,
    period: PayPeriod,
    now: Timestamp,
) -> bool {
    &&& record.employee_id == employee_id
    &&& record.period_id == period.id
    &&& day_number(record.created_at@.secs, period.zone()) == day_number(
        now@.secs,
        period.zone(),
    )
}

/// The position of the first record in `records` that is overtime of the
/// employee in the period on the day of `now`.
pub open spec fn first_overtime(
    records: Seq<OvertimeRecord>,
    employee_id: u128,
    period: PayPeriod,
    now: Timestamp,
) -> Option<int>
    decreases records.len(),
{
    if records.len() == 0 {
        None
    } else if overtime_on_day_of(records[0], employee_id, period, now) {
        Some(0)
    } else {
        match first_overtime(records.drop_first(), employee_id, period, now) {
            Some(i) => Some(i + 1),
            None => None,
        }
    }
}

/// The working day of the period has ended at `now`.
pub open spec fn work_hours_done(period: PayPeriod, now: Timestamp, work: WorkHours) -> bool {
    hour_of_day(now@.secs, period.zone()) >= work.spec_end_hour()
}

/// What a request of `hours` of overtime at `now` comes to. It is refused on
/// a processed period, without a check-in on that day, and before the
/// working day has ended, in this order. Then the hours are added to those
/// of the day, and the request is refused where the sum would pass the cap.
pub open spec fn request_overtime_outcome(
    overtimes: Seq<OvertimeRecord>,
    attendance: Seq<AttendanceRecord>,
    new_id: u128,
    employee_id: u128,
    period: PayPeriod,
    now: Timestamp,
    hours: u8,
    work: WorkHours,
) -> Result<OvertimeOutcome, DomainError> {
    if period.processed {
        Err(DomainError::PeriodAlreadyProcessed)
    } else if first_attendance(attendance, employee_id, period, now) is None {
        Err(DomainError::NoCheckIn)
    } else if !work_hours_done(period, now, work) {
        Err(DomainError::WorkHoursNotDone)
    } else {
        match first_overtime(overtimes, employee_id, period, now) {
            Some(i) => if overtimes[i].extra_hours + hours > DAILY_OVERTIME_CAP {
                Err(DomainError::OvertimeCapExceeded)
            } else {
                Ok(
                    OvertimeOutcome::Updated(
                        OvertimeRecord {
                            extra_hours: (overtimes[i].extra_hours + hours) as i16,
                            updated_at: now,
                            ..overtimes[i]
                        },
                    ),
                )
            },
            None => if hours > DAILY_OVERTIME_CAP {
                Err(DomainError::OvertimeCapExceeded)
            } else {
                Ok(
                    OvertimeOutcome::Created(
                        OvertimeRecord {
                            id: new_id,
                            period_id: period.id,
                            employee_id,
                            extra_hours: hours as i16,
                            created_at: now,
                            updated_at: now,
                        },
                    ),
                )
            },
        }
    }
}

/// The records as they stand after a request that ended in `outcome`: one
/// more where a record was created, the record of the day replaced where it
/// was updated, the same after a refusal.
pub open spec fn overtimes_after(
    overtimes: Seq<OvertimeRecord>,
    employee_id: u128,
    period: PayPeriod,
    now: Timestamp,
    outcome: Result<OvertimeOutcome, DomainError>,
) -> Seq<OvertimeRecord> {
    match outcome {
        Ok(OvertimeOutcome::Created(record)) => overtimes.push(record),
        Ok(OvertimeOutcome::Updated(record)) => match first_overtime(
            overtimes,
            employee_id,
            period,
            now,
        ) {
            Some(i) => overtimes.update(i, record),
            None => overtimes,
        },
        Err(_) => overtimes,
    }
}

/// What `first_overtime` finds is a position in the records, the record
/// there is of the employee, the period and the day asked for, and none
/// before it is; it finds nothing only where no such record is.
pub proof fn lemma_first_overtime(
    records: Seq<OvertimeRecord>,
    employee_id: u128,
    period: PayPeriod,
    now: Timestamp,
)
    ensures
        match first_overtime(records, employee_id, period, now) {
            Some(i) => {
                &&& 0 <= i < records.len()
                &&& overtime_on_day_of(records[i], employee_id, period, now)
                &&& forall|j: int|
                    0 <= j < i ==> !overtime_on_day_of(
                        #[trigger] records[j],
                        employee_id,
                        period,
                        now,
                    )
            },
            None => forall|j: int|
                0 <= j < records.len() ==> !overtime_on_day_of(
                    #[trigger] records[j],
                    employee_id,
                    period,
                    now,
                ),
        },
    decreases records.len(),
{
    if records.len() > 0 && !overtime_on_day_of(records[0], employee_id, period, now) {
        let rest = records.drop_first();
        lemma_first_overtime(rest, employee_id, period, now);
        match first_overtime(rest, employee_id, period, now) {
            Some(i) => {
                assert(rest[i] == records[i + 1]);
                assert forall|j: int| 0 <= j < i + 1 implies !overtime_on_day_of(
                    #[trigger] records[j],
                    employee_id,
                    period,
                    now,
                ) by {
                    if j > 0 {
                        assert(rest[j - 1] == records[j]);
                    }
                }
            },
            None => {
                assert forall|j: int| 0 <= j < records.len() implies !overtime_on_day_of(
                    #[trigger] records[j],
                    employee_id,
                    period,
                    now,
                ) by {
                    if j > 0 {
                        assert(rest[j - 1] == records[j]);
                    }
                }
            },
        }
    }
}

/// Looks up the position of the overtime of `employee_id` in `period` on the
/// day of `now`.
pub fn find_overtime(
    records: &Vec<OvertimeRecord>,
    employee_id: u128,
    period: &PayPeriod,
    now: &Timestamp,
) -> (found: Option<usize>)
    ensures
        match found {
            Some(i) => first_overtime(records@, employee_id, *period, *now) == Some(i as int) && i
                < records.len(),
            None => first_overtime(records@, employee_id, *period, *now) is None,
        },
{
    let today = now.day_in_zone_of(&period.created_at);
    let mut i: usize = 0;
    while i < records.len()
        invariant
            i <= records.len(),
            today == day_number(now@.secs, period.zone()),
            forall|j: int|
                0 <= j < i ==> !overtime_on_day_of(
                    #[trigger] records@[j],
                    employee_id,
                    *period,
                    *now,
                ),
        decreases records.len() - i,
    {
        let record = records[i];
        if record.employee_id == employee_id && record.period_id == period.id
            && record.created_at.day_in_zone_of(&period.created_at) == today {
            proof {
                lemma_first_overtime(records@, employee_id, *period, *now);
            }
            return Some(i);
        }
        i = i + 1;
    }
    proof {
        lemma_first_overtime(records@, employee_id, *period, *now);
    }
    None
}

/// Requests `hours` of overtime for `employee_id` in `period` at `now`. The
/// hours of one day accrue in one record, and their sum never passes the
/// cap. A refusal changes nothing.
pub fn request_overtime(
    overtimes: &mut Vec<OvertimeRecord>,
    attendance: &Vec<AttendanceRecord>,
    new_id: u128,
    employee_id: u128,
    period: &PayPeriod,
    now: &Timestamp,
    hours: u8,
    work: &WorkHours,
) -> (r: Result<OvertimeOutcome, DomainError>)
    ensures
        r == request_overtime_outcome(
            old(overtimes)@,
            attendance@,
            new_id,
            employee_id,
            *period,
            *now,
            hours,
            *work,
        ),
        final(overtimes)@ == overtimes_after(old(overtimes)@, employee_id, *period, *now, r),
{
    if period.processed {
        return Err(DomainError::PeriodAlreadyProcessed);
    }
    if find_attendance(attendance, employee_id, period, now).is_none() {
        return Err(DomainError::NoCheckIn);
    }
    if now.hour_in_zone_of(&period.created_at) < work.end_hour() {
        return Err(DomainError::WorkHoursNotDone);
    }
    match find_overtime(overtimes, employee_id, period, now) {
        Some(i) => {
            let existing = overtimes[i];
            let total: i32 = existing.extra_hours as i32 + hours as i32;
            if total > DAILY_OVERTIME_CAP as i32 {
                return Err(DomainError::OvertimeCapExceeded);
            }
            let record = OvertimeRecord {
                id: existing.id,
                period_id: existing.period_id,
                employee_id: existing.employee_id,
                extra_hours: total as i16,
                created_at: existing.created_at,
                updated_at: *now,
            };
            overtimes.set(i, record);
            Ok(OvertimeOutcome::Updated(record))
        },
        None => {
            if hours as i16 > DAILY_OVERTIME_CAP {
                return Err(DomainError::OvertimeCapExceeded);
            }
            let record = OvertimeRecord {
                id: new_id,
                period_id: period.id,
                employee_id,
                extra_hours: hours as i16,
                created_at: *now,
                updated_at: *now,
            };
            overtimes.push(record);
            Ok(OvertimeOutcome::Created(record))
        },
    }
}

/// The hours that a successful request leaves on the record of the day never
/// pass the cap. They are positive too, where the request asked for at least
/// one hour and the hours recorded before were positive.
pub proof fn lemma_overtime_within_cap(
    overtimes: Seq<OvertimeRecord>,
    attendance: Seq<AttendanceRecord>,
    new_id: u128,
    employee_id: u128,
    period: PayPeriod,
    now: Timestamp,
    hours: u8,
    work: WorkHours,
)
    ensures
        match request_overtime_outcome(
            overtimes,
            attendance,
            new_id,
            employee_id,
            period,
            now,
            hours,
            work,
        ) {
            Ok(outcome) => {
                &&& outcome.spec_record().extra_hours <= DAILY_OVERTIME_CAP
                &&& hours > 0 && (forall|i: int|
                    0 <= i < overtimes.len() ==> (#[trigger] overtimes[i]).extra_hours > 0)
                    ==> outcome.spec_record().extra_hours > 0
            },
            Err(_) => true,
        },
{
    lemma_first_overtime(overtimes, employee_id, period, now);
}

/// Overtime accrues over the day. Where the day has no overtime yet and a
/// request of `first_hours` succeeds, a later request of `second_hours` on
/// the same calendar day, made with the check-in in place and after working
/// hours, is refused with `OvertimeCapExceeded` exactly when the two
/// together pass the cap; otherwise it leaves their sum on the one record
/// of the day.
pub proof fn lemma_overtime_accrues(
    overtimes: Seq<OvertimeRecord>,
    attendance: Seq<AttendanceRecord>,
    first_id: u128,
    second_id: u128,
    employee_id: u128,
    period: PayPeriod,
    first_now: Timestamp,
    second_now: Timestamp,
    first_hours: u8,
    second_hours: u8,
    work: WorkHours,
)
    requires
        request_overtime_outcome(
            overtimes,
            attendance,
            first_id,
            employee_id,
            period,
            first_now,
            first_hours,
            work,
        ) is Ok,
        first_overtime(overtimes, employee_id, period, first_now) is None,
        day_number(first_now@.secs, period.zone()) == day_number(second_now@.secs, period.zone()),
        work_hours_done(period, second_now, work),
    ensures
        ({
            let first = request_overtime_outcome(
                overtimes,
                attendance,
                first_id,
                employee_id,
                period,
                first_now,
                first_hours,
                work,
            );
            let between = overtimes_after(overtimes, employee_id, period, first_now, first);
            let second = request_overtime_outcome(
                between,
                attendance,
                second_id,
                employee_id,
                period,
                second_now,
                second_hours,
                work,
            );
            let after = overtimes_after(between, employee_id, period, second_now, second);
            if first_hours + second_hours > DAILY_OVERTIME_CAP {
                &&& second == Err::<OvertimeOutcome, DomainError>(DomainError::OvertimeCapExceeded)
                &&& after == between
            } else {
                &&& second == Ok::<OvertimeOutcome, DomainError>(
                    OvertimeOutcome::Updated(
                        OvertimeRecord {
                            extra_hours: (first_hours + second_hours) as i16,
                            updated_at: second_now,
                            ..first->Ok_0.spec_record()
                        },
                    ),
                )
                &&& after.len() == overtimes.len() + 1
                &&& after.last().extra_hours == first_hours + second_hours
            }
        }),
{
    let first = request_overtime_outcome(
        overtimes,
        attendance,
        first_id,
        employee_id,
        period,
        first_now,
        first_hours,
        work,
    );
    let record = first->Ok_0.spec_record();
    let between = overtimes.push(record);
    crate::attendance::lemma_same_day_same_lookup(
        attendance,
        employee_id,
        period,
        first_now,
        second_now,
    );
    lemma_first_overtime(overtimes, employee_id, period, first_now);
    lemma_first_overtime(between, employee_id, period, second_now);
    let last = overtimes.len() as int;
    assert(between[last] == record);
    assert(overtime_on_day_of(record, employee_id, period, second_now));
    assert forall|j: int| 0 <= j < last implies !overtime_on_day_of(
        #[trigger] between[j],
        employee_id,
        period,
        second_now,
    ) by {
        assert(between[j] == overtimes[j]);
    }
    assert(first_overtime(between, employee_id, period, second_now) == Some(last));
}

/// Once the overtime of a day stands at the cap, every further request of a
/// positive number of hours on that day is refused.
pub proof fn lemma_full_day_refuses_more(
    overtimes: Seq<OvertimeRecord>,
    attendance: Seq<AttendanceRecord>,
    new_id: u128,
    employee_id: u128,
    period: PayPeriod,
    now: Timestamp,
    hours: u8,
    work: WorkHours,
)
    requires
        hours > 0,
        first_overtime(overtimes, employee_id, period, now) matches Some(i)
            && overtimes[i].extra_hours == DAILY_OVERTIME_CAP,
    ensures
        request_overtime_outcome(
            overtimes,
            attendance,
            new_id,
            employee_id,
            period,
            now,
            hours,
            work,
        ) is Err,
        !period.processed && first_attendance(attendance, employee_id, period, now) is Some
            && work_hours_done(period, now, work) ==> request_overtime_outcome(
            overtimes,
            attendance,
            new_id,
            employee_id,
            period,
            now,
            hours,
            work,
        ) == Err::<OvertimeOutcome, DomainError>(DomainError::OvertimeCapExceeded),
{
}

/// No employee has two records of overtime on one calendar day of `period`.
pub open spec fn one_overtime_per_day(records: Seq<OvertimeRecord>, period: PayPeriod) -> bool {
    forall|i: int, j: int|
        0 <= i < j < records.len() && records[i].period_id == period.id && records[j].period_id
            == period.id && records[i].employee_id == records[j].employee_id ==> day_number(
            records[i].created_at@.secs,
            period.zone(),
        ) != day_number(records[j].created_at@.secs, period.zone())
}

/// A request for overtime keeps the rule of one record per employee and
/// day, in the period it is made in and in every other.
pub proof fn lemma_request_keeps_one_overtime_per_day(
    overtimes: Seq<OvertimeRecord>,
    attendance: Seq<AttendanceRecord>,
    new_id: u128,
    employee_id: u128,
    period: PayPeriod,
    now: Timestamp,
    hours: u8,
    work: WorkHours,
    other: PayPeriod,
)
    requires
        one_overtime_per_day(overtimes, other),
        other.id == period.id ==> other.zone() == period.zone(),
    ensures
        one_overtime_per_day(
            overtimes_after(
                overtimes,
                employee_id,
                period,
                now,
                request_overtime_outcome(
                    overtimes,
                    attendance,
                    new_id,
                    employee_id,
                    period,
                    now,
                    hours,
                    work,
                ),
            ),
            other,
        ),
{
    let outcome = request_overtime_outcome(
        overtimes,
        attendance,
        new_id,
        employee_id,
        period,
        now,
        hours,
        work,
    );
    let after = overtimes_after(overtimes, employee_id, period, now, outcome);
    lemma_first_overtime(overtimes, employee_id, period, now);
    match outcome {
        Ok(OvertimeOutcome::Created(record)) => {
            assert forall|i: int, j: int|
                0 <= i < j < after.len() && after[i].period_id == other.id && after[j].period_id
                    == other.id && after[i].employee_id
                    == after[j].employee_id implies day_number(
                after[i].created_at@.secs,
                other.zone(),
            ) != day_number(after[j].created_at@.secs, other.zone()) by {
                if j < overtimes.len() {
                    assert(after[i] == overtimes[i] && after[j] == overtimes[j]);
                } else {
                    assert(after[j] == record);
                    assert(after[i] == overtimes[i]);
                    assert(!overtime_on_day_of(overtimes[i], employee_id, period, now));
                }
            }
        },
        Ok(OvertimeOutcome::Updated(record)) => {
            assert forall|i: int, j: int|
                0 <= i < j < after.len() && after[i].period_id == other.id && after[j].period_id
                    == other.id && after[i].employee_id
                    == after[j].employee_id implies day_number(
                after[i].created_at@.secs,
                other.zone(),
            ) != day_number(after[j].created_at@.secs, other.zone()) by {
                assert(after[i].created_at == overtimes[i].created_at && after[i].period_id
                    == overtimes[i].period_id && after[i].employee_id == overtimes[i].employee_id);
                assert(after[j].created_at == overtimes[j].created_at && after[j].period_id
                    == overtimes[j].period_id && after[j].employee_id == overtimes[j].employee_id);
            }
        },
        Err(_) => {},
    }
}

} // verus!
