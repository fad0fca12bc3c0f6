//! A learning-management ledger: courses, enrollments, credentials and
//! achievement rewards kept as records at derived addresses, each operation
//! guarded and applied atomically.

pub mod types;
pub mod derivation;
pub mod ledger;
pub mod guard;
pub mod operations;
pub mod layout;
pub mod laws;
