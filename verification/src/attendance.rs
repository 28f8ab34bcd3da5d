use vstd::prelude::*;

use crate::error::DomainError;
use crate::model::{AttendanceRecord, PayPeriod};
use crate::time::{day_number, weekday_index, Timestamp};

verus! {

/// How a check-in ended.
#[derive(Clone, Copy, Debug, PartialEq, Eq, Structural)]
pub enum CheckIn {
    /// No record of the day existed; this one was added.
    Created(AttendanceRecord),
    /// The employee had checked in on that day before; this is the record of
    /// then, unchanged.
    AlreadyRecorded(AttendanceRecord),
}

impl CheckIn {
    /// The record of the day, new or old.
    pub open spec fn spec_record(&self) -> AttendanceRecord {
        match *self {
            CheckIn::Created(record) => record,
            CheckIn::AlreadyRecorded(record) => record,
        }
    }

    /// The record of the day, new or old.
    #[verifier::when_used_as_spec(spec_record)]
    pub fn record(&self) -> (record: AttendanceRecord)
        ensures
            record == self.spec_record(),
    {
        match self {
            CheckIn::Created(record) => *record,
            CheckIn::AlreadyRecorded(record) => *record,
        }
    }
}

/// `record` is a check-in of `employee_id` in `period` on the calendar day
/// on which `now` falls, both read on the period's clock.
pub open spec fn attended_on_day_of(
    record: AttendanceRecord,
    employee_id: u128,
    period: PayPeriod,
    now: Timestamp,
) -> bool {
    &&& record.employee_id == employee_id
    &&& record.period_id == period.id
    &&& day_number(record.created_at@.secs, period.zone()) == day_number(
        now@.secs,
        period.zone(),
    )
}

/// The first record in `records` that is a check-in of the employee in the
/// period on the day of `now`.
pub open spec fn first_attendance(
    records: Seq<AttendanceRecord>,
    employee_id: u128,
    period: PayPeriod,
    now: Timestamp,
) -> Option<AttendanceRecord>
    decreases records.len(),
{
    if records.len() == 0 {
        None
    } else if attended_on_day_of(records[0], employee_id, period, now) {
        Some(records[0])
    } else {
        first_attendance(records.drop_first(), employee_id, period, now)
    }
}

/// The day of `now` on the period's clock is a Saturday or a Sunday.
pub open spec fn is_weekend_in(period: PayPeriod, now: Timestamp) -> bool {
    weekday_index(day_number(now@.secs, period.zone())) >= 5
}

/// What a check-in of `employee_id` at `now` comes to, given the records
/// that exist: refused on a processed period, refused on a weekend, the
/// record of the day where there is one, and else a new record under
/// `new_id`.
pub open spec fn check_in_outcome(
    records: Seq<AttendanceRecord>,
    new_id: u128,
    employee_id: u128,
    period: PayPeriod,
    now: Timestamp,
) -> Result<CheckIn, DomainError> {
    if period.processed {
        Err(DomainError::PeriodAlreadyProcessed)
    } else if is_weekend_in(period, now) {
        Err(DomainError::WeekendCheckIn)
    } else {
        match first_attendance(records, employee_id, period, now) {
            Some(existing) => Ok(CheckIn::AlreadyRecorded(existing)),
            None => Ok(
                CheckIn::Created(
                    AttendanceRecord {
                        id: new_id,
                        period_id: period.id,
                        employee_id,
                        created_at: now,
                    },
                ),
            ),
        }
    }
}

/// The records as they stand after a check-in that ended in `outcome`: one
/// more where a record was created, the same otherwise.
pub open spec fn attendance_after(
    records: Seq<AttendanceRecord>,
    outcome: Result<CheckIn, DomainError>,
) -> Seq<AttendanceRecord> {
    match outcome {
        Ok(CheckIn::Created(record)) => records.push(record),
        _ => records,
    }
}

/// No employee has two records on one calendar day of `period`.
pub open spec fn one_per_day(records: Seq<AttendanceRecord>, period: PayPeriod) -> bool {
    forall|i: int, j: int|
        0 <= i < j < records.len() && records[i].period_id == period.id && records[j].period_id
            == period.id && records[i].employee_id == records[j].employee_id ==> day_number(
            records[i].created_at@.secs,
            period.zone(),
        ) != day_number(records[j].created_at@.secs, period.zone())
}

/// Looks up the check-in of `employee_id` in `period` on the day of `now`.
pub fn find_attendance(
    records: &Vec<AttendanceRecord>,
    employee_id: u128,
    period: &PayPeriod,
    now: &Timestamp,
) -> (found: Option<AttendanceRecord>)
    ensures
        found == first_attendance(records@, employee_id, *period, *now),
{
    let today = now.day_in_zone_of(&period.created_at);
    let mut i: usize = 0;
    assert(records@.skip(0) == records@);
    while i < records.len()
        invariant
            i <= records.len(),
            today == day_number(now@.secs, period.zone()),
            first_attendance(records@, employee_id, *period, *now) == first_attendance(
                records@.skip(i as int),
                employee_id,
                *period,
                *now,
            ),
        decreases records.len() - i,
    {
        let record = records[i];
        proof {
            assert(records@.skip(i as int)[0] == record);
            assert(records@.skip(i as int).drop_first() == records@.skip(i + 1));
        }
        if record.employee_id == employee_id && record.period_id == period.id
            && record.created_at.day_in_zone_of(&period.created_at) == today {
            return Some(record);
        }
        i = i + 1;
    }
    None
}

/// Records the presence of `employee_id` in `period` at `now`. At most one
/// record is kept per employee and calendar day: a second check-in on a day
/// hands back the record of the first and adds nothing. A refusal changes
/// nothing.
pub fn check_in(
    records: &mut Vec<AttendanceRecord>,
    new_id: u128,
    employee_id: u128,
    period: &PayPeriod,
    now: &Timestamp,
) -> (r: Result<CheckIn, DomainError>)
    ensures
        r == check_in_outcome(old(records)@, new_id, employee_id, *period, *now),
        final(records)@ == attendance_after(old(records)@, r),
{
    if period.processed {
        return Err(DomainError::PeriodAlreadyProcessed);
    }
    if now.weekday_in_zone_of(&period.created_at).is_weekend() {
        return Err(DomainError::WeekendCheckIn);
    }
    match find_attendance(records, employee_id, period, now) {
        Some(existing) => Ok(CheckIn::AlreadyRecorded(existing)),
        None => {
            let record = AttendanceRecord {
                id: new_id,
                period_id: period.id,
                employee_id,
                created_at: *now,
            };
            records.push(record);
            Ok(CheckIn::Created(record))
        },
    }
}

/// What `first_attendance` finds is one of the records and is of the
/// employee, the period and the day asked for; it finds nothing only where
/// no record is.
pub proof fn lemma_first_attendance(
    records: Seq<AttendanceRecord>,
    employee_id: u128,
    period: PayPeriod,
    now: Timestamp,
)
    ensures
        match first_attendance(records, employee_id, period, now) {
            Some(found) => records.contains(found) && attended_on_day_of(
                found,
                employee_id,
                period,
                now,
            ),
            None => forall|i: int|
                0 <= i < records.len() ==> !attended_on_day_of(
                    #[trigger] records[i],
                    employee_id,
                    period,
                    now,
                ),
        },
    decreases records.len(),
{
    if records.len() == 0 {
    } else if attended_on_day_of(records[0], employee_id, period, now) {
        assert(records.contains(records[0]));
    } else {
        let rest = records.drop_first();
        lemma_first_attendance(rest, employee_id, period, now);
        match first_attendance(rest, employee_id, period, now) {
            Some(found) => {
                let k = choose|k: int| 0 <= k < rest.len() && rest[k] == found;
                assert(records[k + 1] == found);
            },
            None => {
                assert forall|i: int| 0 <= i < records.len() implies !attended_on_day_of(
                    #[trigger] records[i],
                    employee_id,
                    period,
                    now,
                ) by {
                    if i > 0 {
                        assert(rest[i - 1] == records[i]);
                    }
                }
            },
        }
    }
}

/// A record added at the end is found only if none before it is.
pub proof fn lemma_first_attendance_push(
    records: Seq<AttendanceRecord>,
    added: AttendanceRecord,
    employee_id: u128,
    period: PayPeriod,
    now: Timestamp,
)
    ensures
        first_attendance(records.push(added), employee_id, period, now) == match first_attendance(
            records,
            employee_id,
            period,
            now,
        ) {
            Some(found) => Some(found),
            None => if attended_on_day_of(added, employee_id, period, now) {
                Some(added)
            } else {
                None
            },
        },
    decreases records.len(),
{
    let longer = records.push(added);
    if records.len() == 0 {
        assert(longer[0] == added);
        assert(longer.drop_first().len() == 0);
        assert(first_attendance(longer.drop_first(), employee_id, period, now) is None);
    } else {
        assert(longer[0] == records[0]);
        assert(longer.drop_first() == records.drop_first().push(added));
        if !attended_on_day_of(records[0], employee_id, period, now) {
            lemma_first_attendance_push(records.drop_first(), added, employee_id, period, now);
        }
    }
}

/// Checking in is idempotent within a day: once a check-in has succeeded, a
/// later one by the same employee in the same period, at any instant of the
/// same calendar day, succeeds too, hands back the very record of the first,
/// and adds none.
pub proof fn lemma_check_in_idempotent(
    records: Seq<AttendanceRecord>,
    first_id: u128,
    second_id: u128,
    employee_id: u128,
    period: PayPeriod,
    first_now: Timestamp,
    second_now: Timestamp,
)
    requires
        check_in_outcome(records, first_id, employee_id, period, first_now) is Ok,
        day_number(first_now@.secs, period.zone()) == day_number(second_now@.secs, period.zone()),
    ensures
        ({
            let first = check_in_outcome(records, first_id, employee_id, period, first_now);
            let between = attendance_after(records, first);
            let second = check_in_outcome(between, second_id, employee_id, period, second_now);
            &&& second == Ok::<CheckIn, DomainError>(
                CheckIn::AlreadyRecorded(first->Ok_0.spec_record()),
            )
            &&& attendance_after(between, second) == between
        }),
{
    let first = check_in_outcome(records, first_id, employee_id, period, first_now);
    let record = first->Ok_0.spec_record();
    lemma_first_attendance(records, employee_id, period, first_now);
    lemma_same_day_same_lookup(records, employee_id, period, first_now, second_now);
    match first_attendance(records, employee_id, period, first_now) {
        Some(existing) => {},
        None => {
            lemma_first_attendance_push(records, record, employee_id, period, second_now);
        },
    }
}

/// The lookup depends on `now` only through its calendar day.
pub proof fn lemma_same_day_same_lookup(
    records: Seq<AttendanceRecord>,
    employee_id: u128,
    period: PayPeriod,
    first_now: Timestamp,
    second_now: Timestamp,
)
    requires
        day_number(first_now@.secs, period.zone()) == day_number(second_now@.secs, period.zone()),
    ensures
        first_attendance(records, employee_id, period, first_now) == first_attendance(
            records,
            employee_id,
            period,
            second_now,
        ),
    decreases records.len(),
{
    if records.len() > 0 {
        lemma_same_day_same_lookup(
            records.drop_first(),
            employee_id,
            period,
            first_now,
            second_now,
        );
    }
}

/// A check-in keeps the rule of one record per employee and day, in the
/// period it is made in and in every other.
pub proof fn lemma_check_in_keeps_one_per_day(
    records: Seq<AttendanceRecord>,
    new_id: u128,
    employee_id: u128,
    period: PayPeriod,
    now: Timestamp,
    other: PayPeriod,
)
    requires
        one_per_day(records, other),
        other.id == period.id ==> other.zone() == period.zone(),
    ensures
        one_per_day(
            attendance_after(
                records,
                check_in_outcome(records, new_id, employee_id, period, now),
            ),
            other,
        ),
{
    let outcome = check_in_outcome(records, new_id, employee_id, period, now);
    let after = attendance_after(records, outcome);
    lemma_first_attendance(records, employee_id, period, now);
    if let Ok(CheckIn::Created(record)) = outcome {
        assert forall|i: int, j: int|
            0 <= i < j < after.len() && after[i].period_id == other.id && after[j].period_id
                == other.id && after[i].employee_id == after[j].employee_id implies day_number(
            after[i].created_at@.secs,
            other.zone(),
        ) != day_number(after[j].created_at@.secs, other.zone()) by {
            if j < records.len() {
                assert(after[i] == records[i] && after[j] == records[j]);
            } else {
                assert(after[j] == record);
                assert(after[i] == records[i]);
                assert(!attended_on_day_of(records[i], employee_id, period, now));
            }
        }
    }
}

} // verus!
