use vstd::prelude::*;

verus! {

/// The caller-visible outcomes of a failed request, one per HTTP status.
#[derive(Debug, Clone, Copy, PartialEq, Eq, Structural)]
pub enum ServiceError {
    /// The inbound request body could not be read.
    BadRequest,
    /// Bad credentials, or a missing, malformed, forged, expired or revoked token.
    Unauthorized,
    /// No route is configured for the requested path.
    NotFound,
    /// A user with that email is already registered.
    Conflict,
    /// A fault on the serving side (session store, token codec, response construction).
    Internal,
    /// The upstream service could not be reached or its response could not be read.
    BadGateway,
}

pub open spec fn status_of(e: ServiceError) -> u16 {
    match e {
        ServiceError::BadRequest => 400,
        ServiceError::Unauthorized => 401,
        ServiceError::NotFound => 404,
        ServiceError::Conflict => 409,
        ServiceError::Internal => 500,
        ServiceError::BadGateway => 502,
    }
}

impl ServiceError {
    /// The HTTP status code that reports this error.
    pub fn status_code(&self) -> (r: u16)
        ensures
            r == status_of(*self),
    {
        match self {
            ServiceError::BadRequest => 400,
            ServiceError::Unauthorized => 401,
            ServiceError::NotFound => 404,
            ServiceError::Conflict => 409,
            ServiceError::Internal => 500,
            ServiceError::BadGateway => 502,
        }
    }
}

} // verus!
