//! The rules of attendance and payroll: pay periods that are opened and
//! processed once, one check-in per employee and day, overtime under a daily
//! cap, claims for reimbursement, and the payslips that follow from them.
//!
//! Every function states what it returns, and Verus proves that it does.

pub mod attendance;
pub mod error;
pub mod laws;
pub mod lookup;
pub mod model;
pub mod overtime;
pub mod payroll;
pub mod period;
pub mod reimbursement;
pub mod time;
