//! What the two kinds of relay share.

use vstd::prelude::*;

verus! {

/// The result of an operation that ran under a deadline.
#[derive(Debug, PartialEq, Eq)]
pub enum Awaited<T> {
    /// The operation ended in time, with this result.
    Ready(T),
    /// The deadline passed first.
    TimedOut,
}

/// Result of a socket operation; the error is what the system said.
pub type Io<T> = Result<T, String>;

} // verus!
