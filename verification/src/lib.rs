//! A parking-lot resource for a multi-tenant parking-management backend:
//! creation, partial update, single-resource lookup with nested keeper
//! records, and listing by owning user.
//!
//! The verified core is the decision logic of each operation. The functions
//! in [`handler`] are pure: they take the outcomes of the persistence calls
//! (user lookups, join rows, file-existence checks) as arguments and decide
//! what to reject, what to write and what to return, so every decision is
//! proved for every outcome the store can produce. The surrounding HTTP and
//! database plumbing hands them plain values and carries out the plans they
//! return.

pub mod error;
pub mod fresh;
pub mod handler;
pub mod model;
