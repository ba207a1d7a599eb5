//! The error taxonomy of the client.

use vstd::prelude::*;

verus! {

/// Every failure the client can surface.
///
/// Derivation: `SeedTooLong` and `NoValidBumpFound` (fatal).
/// Resolution: `AccountNotFound` (fetch missed), `DecodeError` (remote bytes
/// do not match the expected layout), `MissingDependency` (a mandatory field
/// of a snapshot was absent).
/// Building: `InvalidArgument` (caller error, fatal).
/// Submission: `NetworkFailure` (retryable), `Rejected` (remote program
/// error, never retried), `TimedOut` (confirmation window exceeded;
/// ambiguous, the caller must re-query by signature).
#[derive(Clone, Copy, Debug, PartialEq, Eq, Structural)]
pub enum ClientError {
    SeedTooLong,
    NoValidBumpFound,
    AccountNotFound,
    DecodeError,
    MissingDependency,
    InvalidArgument,
    NetworkFailure,
    Rejected,
    TimedOut,
}

} // verus!
