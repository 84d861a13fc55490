//! The closed set of outcomes the naming-service dispatcher understands, and
//! the platform error numbers that accompany the non-success outcomes.

use vstd::prelude::*;

verus! {

/// The platform's "result does not fit" error number (`ERANGE` on Linux),
/// reported together with `TryAgain` when the caller's scratch buffer is too
/// small and it should retry with a larger one.
pub const ERANGE_ERRNO: i32 = 34;

/// The platform's generic "no such entry" error number (`ENOENT` on Linux),
/// reported together with `Unavail` when a record cannot be encoded at all.
pub const ENOENT_ERRNO: i32 = 2;

/// What one entry-point call came to, as the dispatcher sees it.
#[derive(Clone, Copy, Debug, PartialEq, Eq, Structural)]
pub enum NssStatus {
    /// The output record is valid.
    Success,
    /// No matching record, or the enumeration is exhausted.
    NotFound,
    /// This backend must be treated as broken for this call.
    Unavail,
    /// The caller should retry the same call with a larger buffer.
    TryAgain,
}

impl NssStatus {
    /// The platform integer for this outcome. Total and side-effect-free;
    /// each outcome maps to exactly one integer.
    pub fn to_c(&self) -> (r: i32)
        ensures
            r == (match *self {
                NssStatus::Success => 1,
                NssStatus::NotFound => 0,
                NssStatus::Unavail => -1,
                NssStatus::TryAgain => -2,
            }),
    {
        match *self {
            NssStatus::Success => 1,
            NssStatus::NotFound => 0,
            NssStatus::Unavail => -1,
            NssStatus::TryAgain => -2,
        }
    }
}

} // verus!
