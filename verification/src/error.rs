use vstd::prelude::*;

verus! {

/// The kinds of failure that a transition can report.
#[derive(Debug, Clone, Copy, PartialEq, Eq, Structural)]
pub enum EngineError {
    /// The account or the promo code is unknown.
    NotFound,
    /// A duplicate registration, promo usage or referral edge, or an account
    /// that already has a parent.
    Conflict,
    /// A required field is missing, or no payment method is on file.
    ValidationError,
    /// The provisioning service could not be reached or answered with a failure.
    UpstreamError,
    /// The local store failed.
    InternalError,
}

impl EngineError {
    /// The HTTP status code under which the failure is reported.
    pub open spec fn spec_status_code(self) -> int {
        match self {
            EngineError::NotFound => 404,
            EngineError::Conflict => 409,
            EngineError::ValidationError => 400,
            EngineError::UpstreamError => 502,
            EngineError::InternalError => 500,
        }
    }

    /// Returns the HTTP status code under which the failure is reported.
    pub fn status_code(self) -> (code: u16)
        ensures
            code == self.spec_status_code(),
    {
        match self {
            EngineError::NotFound => 404,
            EngineError::Conflict => 409,
            EngineError::ValidationError => 400,
            EngineError::UpstreamError => 502,
            EngineError::InternalError => 500,
        }
    }
}

} // verus!
