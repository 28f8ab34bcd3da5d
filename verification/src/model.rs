use vstd::prelude::*;

use crate::time::Timestamp;

verus! {

/// What a user may do.
#[derive(Clone, Copy, Debug, PartialEq, Eq, Structural)]
pub enum RoleType {
    Employee,
    Admin,
}

/// A person known to the system. `salary` is the gross pay of one pay
/// period, in the minor unit of the currency.
#[derive(Clone, Debug, PartialEq, Eq)]
pub struct User {
    pub id: u128,
    pub username: String,
    pub role: RoleType,
    pub salary: i64,
}

/// A user whose role has been found to be `Admin`.
#[derive(Debug, PartialEq, Eq)]
pub struct Admin(User);

impl Admin {
    #[verifier::type_invariant]
    closed spec fn holds_admin(self) -> bool {
        self.0.role == RoleType::Admin
    }

    /// The user that this value vouches for.
    pub closed spec fn user(self) -> User {
        self.0
    }

    /// Admits `user` as an administrator if, and only if, that is their role.
    pub fn new(user: User) -> (r: Option<Admin>)
        ensures
            r is Some <==> user.role == RoleType::Admin,
            r matches Some(admin) ==> admin.user() == user,
    {
        match user.role {
            RoleType::Admin => Some(Admin(user)),
            RoleType::Employee => None,
        }
    }

    /// The identity of the administrator.
    pub fn id(&self) -> (id: u128)
        ensures
            id == self.user().id,
    {
        self.0.id
    }

    /// The user behind the administrator, whose role is `Admin`.
    pub fn as_user(&self) -> (user: &User)
        ensures
            *user == self.user(),
            user.role == RoleType::Admin,
    {
        proof {
            use_type_invariant(self);
        }
        &self.0
    }
}

/// The hours of the working day on the local clock, from `start_hour` up to,
/// but not including, `end_hour`.
#[derive(Clone, Copy, Debug, PartialEq, Eq, Structural)]
pub struct WorkHours {
    start_hour: u32,
    end_hour: u32,
}

impl WorkHours {
    /// The working day begins before it ends, and ends within the day.
    #[verifier::type_invariant]
    pub open spec fn wf(self) -> bool {
        self.spec_start_hour() < self.spec_end_hour() <= 24
    }

    /// The hour at which the working day begins.
    pub closed spec fn spec_start_hour(self) -> int {
        self.start_hour as int
    }

    /// The hour at which the working day ends.
    pub closed spec fn spec_end_hour(self) -> int {
        self.end_hour as int
    }

    /// The length of the working day.
    pub open spec fn spec_hours_per_day(self) -> int {
        self.spec_end_hour() - self.spec_start_hour()
    }

    /// A working day from `start_hour` to `end_hour`; `None` unless
    /// `start_hour < end_hour <= 24`.
    pub fn new(start_hour: u32, end_hour: u32) -> (r: Option<WorkHours>)
        ensures
            r is Some <==> start_hour < end_hour <= 24,
            r matches Some(w) ==> w.spec_start_hour() == start_hour && w.spec_end_hour()
                == end_hour,
    {
        if start_hour < end_hour && end_hour <= 24 {
            Some(WorkHours { start_hour, end_hour })
        } else {
            None
        }
    }

    /// The hour at which the working day begins.
    pub fn start_hour(&self) -> (h: u32)
        ensures
            h == self.spec_start_hour(),
    {
        self.start_hour
    }

    /// The hour at which the working day ends, and from which overtime may be
    /// requested.
    pub fn end_hour(&self) -> (h: u32)
        ensures
            h == self.spec_end_hour(),
            h <= 24,
    {
        proof {
            use_type_invariant(self);
        }
        self.end_hour
    }

    /// The length of the working day, in hours.
    pub fn hours_per_day(&self) -> (h: u32)
        ensures
            h == self.spec_hours_per_day(),
            0 < h <= 24,
    {
        proof {
            use_type_invariant(self);
        }
        self.end_hour - self.start_hour
    }
}

/// A span of time over which attendance is recorded and pay is computed. It
/// is open until it is processed, and never opens again. Local days and hours
/// of the period are read on the clock of `created_at`. The users who created
/// and last updated it are named as long as they are known.
#[derive(Clone, Copy, Debug, PartialEq, Eq, Structural)]
pub struct PayPeriod {
    pub id: u128,
    pub start_at: Timestamp,
    pub end_at: Timestamp,
    pub processed: bool,
    pub created_by: Option<u128>,
    pub updated_by: Option<u128>,
    pub created_at: Timestamp,
    pub updated_at: Timestamp,
}

impl PayPeriod {
    /// The end is not earlier than the start.
    pub open spec fn wf(self) -> bool {
        self.start_at@.secs <= self.end_at@.secs
    }

    /// The offset of the clock on which the period's days are read.
    pub open spec fn zone(self) -> int {
        self.created_at@.offset
    }
}

/// One check-in: the employee was present in the period on the day of
/// `created_at`.
#[derive(Clone, Copy, Debug, PartialEq, Eq, Structural)]
pub struct AttendanceRecord {
    pub id: u128,
    pub period_id: u128,
    pub employee_id: u128,
    pub created_at: Timestamp,
}

/// The overtime of one employee on one day of a period, in whole hours.
#[derive(Clone, Copy, Debug, PartialEq, Eq, Structural)]
pub struct OvertimeRecord {
    pub id: u128,
    pub period_id: u128,
    pub employee_id: u128,
    pub extra_hours: i16,
    pub created_at: Timestamp,
    pub updated_at: Timestamp,
}

/// One claim for reimbursement, in the minor unit of the currency.
#[derive(Clone, Debug, PartialEq, Eq)]
pub struct ReimbursementRecord {
    pub id: u128,
    pub period_id: u128,
    pub employee_id: u128,
    pub description: String,
    pub amount: i64,
    pub created_at: Timestamp,
}

} // verus!
