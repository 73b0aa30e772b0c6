//! Invariant-violation reporting. Both kinds mean broken table-internal
//! consistency, never a recoverable data-level failure: callers must treat
//! them as fatal defects rather than retry.

use vstd::prelude::*;

verus! {

/// The two error kinds the table can report.
#[derive(Clone, Copy, Debug, PartialEq, Eq, Structural)]
pub enum TableError {
    /// A lookup or tag build used a handle at or beyond the current backward
    /// length: the caller holds a stale or foreign handle. Carries the
    /// offending index and the observed length.
    IndexOutOfBounds { index: usize, length: usize },
    /// The forward and backward structures disagree in size: the table's
    /// uniqueness or atomicity contract has been broken. Carries both
    /// observed lengths.
    InvariantViolation { forward_length: usize, backward_length: usize },
}

} // verus!
