//! The error taxonomy: a disabled capability and a failed collaborator,
//! kept apart from each other and from rejection.

use vstd::prelude::*;

verus! {

/// Error values surfaced by the device collaborators and propagated by this
/// library.
///
/// `NotImplemented` reports a disabled capability: the device simply does not
/// support the requested operation, which is an expected policy outcome, not a
/// security failure. `Io` reports a collaborator read or write that failed and
/// is fatal to the current operation.
///
/// Neither value is ever used to report an untrusted key or credential: that
/// outcome is the boolean `false` carried inside an `Ok` result, so callers
/// can always tell "the check was inconclusive" apart from "the check ran and
/// rejected".
#[derive(Clone, Copy, Debug, PartialEq, Eq, Structural)]
pub enum IoError {
    /// The device does not implement the requested capability.
    NotImplemented,
    /// A collaborator read or write failed.
    Io,
}

/// The result of an operation that can stop with an [`IoError`].
pub type IoResult<T> = Result<T, IoError>;

} // verus!
