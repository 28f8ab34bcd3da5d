use vstd::prelude::*;

use crate::error::DomainError;
use crate::model::{Admin, PayPeriod};
use crate::time::Timestamp;

verus! {

/// What opening a period from `start_at` to `end_at` comes to: refused with
/// `InvalidRange` exactly when the period would end before it starts, and
/// else an open period under `id`, created by `creator_id` at `now`.
pub open spec fn create_period_outcome(
    id: u128,
    creator_id: u128,
    start_at: Timestamp,
    end_at: Timestamp,
    now: Timestamp,
) -> Result<PayPeriod, DomainError> {
    if end_at@.secs < start_at@.secs {
        Err(DomainError::InvalidRange)
    } else {
        Ok(
            PayPeriod {
                id,
                start_at,
                end_at,
                processed: false,
                created_by: Some(creator_id),
                updated_by: Some(creator_id),
                created_at: now,
                updated_at: now,
            },
        )
    }
}

/// What processing `period` comes to: refused with `AlreadyProcessed` where
/// it is processed already, and else the same period, processed, with the
/// update stamped.
pub open spec fn process_period_outcome(
    admin_id: u128,
    period: PayPeriod,
    now: Timestamp,
) -> Result<PayPeriod, DomainError> {
    if period.processed {
        Err(DomainError::AlreadyProcessed)
    } else {
        Ok(PayPeriod { processed: true, updated_by: Some(admin_id), updated_at: now, ..period })
    }
}

/// Opens a new pay period from `start_at` to `end_at`, both included, on
/// behalf of `creator`.
pub fn create_period(
    id: u128,
    creator: &Admin,
    start_at: Timestamp,
    end_at: Timestamp,
    now: Timestamp,
) -> (r: Result<PayPeriod, DomainError>)
    ensures
        r == create_period_outcome(id, creator.user().id, start_at, end_at, now),
        r is Err <==> end_at@.secs < start_at@.secs,
        r matches Ok(period) ==> period.wf() && !period.processed,
{
    if end_at.is_before(&start_at) {
        return Err(DomainError::InvalidRange);
    }
    Ok(
        PayPeriod {
            id,
            start_at,
            end_at,
            processed: false,
            created_by: Some(creator.id()),
            updated_by: Some(creator.id()),
            created_at: now,
            updated_at: now,
        },
    )
}

/// Closes `period` on behalf of `admin`. There is no way back: nothing in
/// this library clears `processed`.
pub fn process_period(admin: &Admin, period: &PayPeriod, now: Timestamp) -> (r: Result<
    PayPeriod,
    DomainError,
>)
    ensures
        r == process_period_outcome(admin.user().id, *period, now),
        r is Err <==> period.processed,
        r matches Ok(done) ==> done.processed && (period.wf() ==> done.wf()),
{
    if period.processed {
        return Err(DomainError::AlreadyProcessed);
    }
    Ok(
        PayPeriod {
            id: period.id,
            start_at: period.start_at,
            end_at: period.end_at,
            processed: true,
            created_by: period.created_by,
            updated_by: Some(admin.id()),
            created_at: period.created_at,
            updated_at: now,
        },
    )
}

/// The guard of every write: passes exactly when `period` is still open.
pub fn require_open(period: &PayPeriod) -> (r: Result<(), DomainError>)
    ensures
        r is Ok <==> !period.processed,
        r matches Err(e) ==> e == DomainError::PeriodAlreadyProcessed,
{
    if period.processed {
        Err(DomainError::PeriodAlreadyProcessed)
    } else {
        Ok(())
    }
}

/// The guard of payslip generation: passes exactly when `period` has been
/// processed.
pub fn require_processed(period: &PayPeriod) -> (r: Result<(), DomainError>)
    ensures
        r is Ok <==> period.processed,
        r matches Err(e) ==> e == DomainError::PeriodNotProcessed,
{
    if period.processed {
        Ok(())
    } else {
        Err(DomainError::PeriodNotProcessed)
    }
}

} // verus!
