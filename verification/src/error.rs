//! The error taxonomy: one variant per way a run can fail.

use vstd::prelude::*;

verus! {

/// Why a step of the run failed. Every error aborts the run at once:
/// there is no retry and no partial result.
#[derive(Debug, Clone, Copy, PartialEq, Eq, Structural)]
pub enum ApiError {
    /// The credential file is missing, unreadable or too short.
    FileAccess,
    /// The request could not be sent, or the connection failed.
    Network,
    /// The sign-in endpoint rejected the credentials.
    Authentication,
    /// A later call rejected the session token.
    Authorization,
    /// A response body did not match the expected JSON shape.
    Decode,
}

} // verus!
