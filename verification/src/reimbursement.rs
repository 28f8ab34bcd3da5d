use vstd::prelude::*;

use crate::error::DomainError;
use crate::model::{PayPeriod, ReimbursementRecord};
use crate::time::Timestamp;

verus! {

/// What a claim comes to: refused on a processed period, and else recorded
/// as it stands, whatever its amount.
pub open spec fn submit_reimbursement_outcome(
    new_id: u128,
    employee_id: u128,
    period: PayPeriod,
    description: String,
    amount: i64,
    now: Timestamp,
) -> Result<ReimbursementRecord, DomainError> {
    if period.processed {
        Err(DomainError::PeriodAlreadyProcessed)
    } else {
        Ok(
            ReimbursementRecord {
                id: new_id,
                period_id: period.id,
                employee_id,
                description,
                amount,
                created_at: now,
            },
        )
    }
}

/// The claims as they stand after a submission that ended in `outcome`.
pub open spec fn reimbursements_after(
    records: Seq<ReimbursementRecord>,
    outcome: Result<ReimbursementRecord, DomainError>,
) -> Seq<ReimbursementRecord> {
    match outcome {
        Ok(record) => records.push(record),
        Err(_) => records,
    }
}

/// Records a claim of `employee_id` for `amount` in `period`. Every claim
/// against an open period is appended: claims are neither merged nor
/// capped, and the amount may be of either sign. A refusal changes nothing.
pub fn submit_reimbursement(
    records: &mut Vec<ReimbursementRecord>,
    new_id: u128,
    employee_id: u128,
    period: &PayPeriod,
    description: String,
    amount: i64,
    now: &Timestamp,
) -> (r: Result<ReimbursementRecord, DomainError>)
    ensures
        r == submit_reimbursement_outcome(
            new_id,
            employee_id,
            *period,
            description,
            amount,
            *now,
        ),
        final(records)@ == reimbursements_after(old(records)@, r),
{
    if period.processed {
        return Err(DomainError::PeriodAlreadyProcessed);
    }
    let kept = ReimbursementRecord {
        id: new_id,
        period_id: period.id,
        employee_id,
        description: description.clone(),
        amount,
        created_at: *now,
    };
    records.push(kept);
    Ok(
        ReimbursementRecord {
            id: new_id,
            period_id: period.id,
            employee_id,
            description,
            amount,
            created_at: *now,
        },
    )
}

} // verus!
