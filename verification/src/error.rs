//! The failures that an operation on the ledger can report.

use vstd::prelude::*;

verus! {

/// Why an operation was refused. Every refusal leaves the records untouched.
#[derive(Clone, Copy, Debug, PartialEq, Eq, Structural)]
pub enum TodoError {
    /// A record already lives under the key at which one was to be created.
    AlreadyExists,
    /// The caller is not the owner written in the record.
    Unauthorized,
    /// The task is already marked as done.
    AlreadyMarked,
    /// No record lives under the key.
    NotFound,
    /// A counter of the profile is at its largest value and cannot grow.
    CounterOverflow,
    /// The count of live tasks is zero and cannot shrink.
    CounterUnderflow,
}

} // verus!
