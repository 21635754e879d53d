//! The error model of the host boundary.

use vstd::prelude::*;

verus! {

/// The one kind of failure that the host can report.
///
/// The host signals failure by a negative number and nothing else, so no
/// finer kind exists at this layer.
#[derive(Clone, Copy, Debug, PartialEq, Eq, Structural)]
pub enum Io {
    Generic,
}

/// What an operation against the host yields.
pub type IoResult<T> = Result<T, Io>;

/// Whether a number that the host handed back stands for success.
pub open spec fn host_ok(value: int) -> bool {
    value >= 0
}

} // verus!
