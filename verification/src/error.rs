//! Failure taxonomy for configuration-state operations.

use vstd::prelude::*;

verus! {

/// An operation on configuration state failed.
///
/// A corrupt invariant (material values that do not form whole rows) and an
/// out-of-range index are the only failure modes; user cancellation of a file
/// picker is not an error and never produces one of these.
#[derive(Clone, Copy, Debug, PartialEq, Eq, Structural)]
pub enum ConfigError {
    /// The stored material values cannot be split into whole rows: the row
    /// width is zero, or it does not divide the total length exactly.
    CorruptTable,
    /// A row or field index lies outside the table.
    IndexOutOfRange,
}

} // verus!
