use vstd::prelude::*;

use crate::rate_limit::RateLimit;

verus! {

/// The closed set of ways an endpoint call can fail.
#[derive(Debug)]
pub enum SduiError {
    /// The transport failed (DNS, connect, TLS, timeout); carries its message.
    RequestError(String),
    /// The body is not JSON, or lacks the envelope's `data` field or the
    /// shape the endpoint expects there.
    JSONError,
    /// The envelope decoded, but the login result could not be built from it.
    LoginError,
}

/// What every endpoint returns: a typed result beside the rate-limit snapshot
/// of its response, or exactly one error.
pub type SduiResult<T> = Result<(T, RateLimit), SduiError>;

} // verus!
