use vstd::prelude::*;

verus! {

/// Answer of the health check.
#[derive(Debug, Clone, PartialEq, Eq)]
pub struct HealthCheckResponse {
    pub status: String,
}

impl HealthCheckResponse {
    pub fn ok() -> (r: Self)
        ensures
            r.status@ == "ok"@,
    {
        HealthCheckResponse { status: String::from_str("ok") }
    }
}

/// Body of an error answer.
#[derive(Debug, Clone, PartialEq, Eq)]
pub struct ErrorResponse {
    pub code: String,
    pub message: String,
}

/// A user to be registered.
#[derive(Debug, Clone, PartialEq, Eq)]
pub struct NewUser {
    pub username: String,
    pub email: String,
}

} // verus!
