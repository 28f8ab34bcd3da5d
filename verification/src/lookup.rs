use vstd::prelude::*;

use crate::error::DomainError;
use crate::model::{PayPeriod, User};

verus! {

/// `found` is the first of `periods` with the identity `id`.
pub open spec fn is_first_period_with(periods: Seq<PayPeriod>, id: u128, found: PayPeriod) -> bool {
    exists|i: int|
        {
            &&& 0 <= i < periods.len()
            &&& #[trigger] periods[i] == found
            &&& found.id == id
            &&& forall|j: int| 0 <= j < i ==> (#[trigger] periods[j]).id != id
        }
}

/// `found` is the first of `users` with the identity `id`.
pub open spec fn is_first_user_with(users: Seq<User>, id: u128, found: User) -> bool {
    exists|i: int|
        {
            &&& 0 <= i < users.len()
            &&& #[trigger] users[i] == found
            &&& found.id == id
            &&& forall|j: int| 0 <= j < i ==> (#[trigger] users[j]).id != id
        }
}

/// Looks up the pay period with the identity `id`. An identity that no
/// period has is answered with `PeriodNotFound`.
pub fn find_period(periods: &Vec<PayPeriod>, id: u128) -> (r: Result<PayPeriod, DomainError>)
    ensures
        r is Err <==> forall|i: int| 0 <= i < periods@.len() ==> (#[trigger] periods@[i]).id != id,
        r matches Err(e) ==> e == DomainError::PeriodNotFound,
        r matches Ok(found) ==> is_first_period_with(periods@, id, found),
{
    let mut i: usize = 0;
    while i < periods.len()
        invariant
            i <= periods.len(),
            forall|j: int| 0 <= j < i ==> (#[trigger] periods@[j]).id != id,
        decreases periods.len() - i,
    {
        if periods[i].id == id {
            return Ok(periods[i]);
        }
        i = i + 1;
    }
    Err(DomainError::PeriodNotFound)
}

/// Looks up the user with the identity `id`. An identity that no user has
/// is answered with `EmployeeNotFound`.
pub fn find_employee(users: &Vec<User>, id: u128) -> (r: Result<&User, DomainError>)
    ensures
        r is Err <==> forall|i: int| 0 <= i < users@.len() ==> (#[trigger] users@[i]).id != id,
        r matches Err(e) ==> e == DomainError::EmployeeNotFound,
        r matches Ok(found) ==> is_first_user_with(users@, id, *found),
{
    let mut i: usize = 0;
    while i < users.len()
        invariant
            i <= users.len(),
            forall|j: int| 0 <= j < i ==> (#[trigger] users@[j]).id != id,
        decreases users.len() - i,
    {
        if users[i].id == id {
            return Ok(&users[i]);
        }
        i = i + 1;
    }
    Err(DomainError::EmployeeNotFound)
}

} // verus!
