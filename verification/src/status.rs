//! The response statuses the service answers with.

use vstd::prelude::*;

verus! {

/// Outcome class of one request, named after the HTTP status it becomes.
#[derive(Clone, Copy, Debug, PartialEq, Eq, Structural)]
pub enum Status {
    Success,
    NoContent,
    Unauthorized,
    NotFound,
    InternalServerError,
}

impl Status {
    /// The numeric HTTP status code.
    pub open spec fn spec_code(self) -> u16 {
        match self {
            Status::Success => 200,
            Status::NoContent => 204,
            Status::Unauthorized => 401,
            Status::NotFound => 404,
            Status::InternalServerError => 500,
        }
    }

    /// The numeric HTTP status code.
    #[verifier::when_used_as_spec(spec_code)]
    pub fn code(self) -> (code: u16)
        ensures
            code == self.spec_code(),
    {
        match self {
            Status::Success => 200,
            Status::NoContent => 204,
            Status::Unauthorized => 401,
            Status::NotFound => 404,
            Status::InternalServerError => 500,
        }
    }

    /// Whether the status reports success (2xx).
    pub fn is_success(self) -> (ok: bool)
        ensures
            ok == (200 <= self.spec_code() < 300),
    {
        match self {
            Status::Success | Status::NoContent => true,
            _ => false,
        }
    }
}

impl View for Status {
    type V = Status;

    open spec fn view(&self) -> Status {
        *self
    }
}

} // verus!
