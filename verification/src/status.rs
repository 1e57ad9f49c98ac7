use vstd::prelude::*;

verus! {

/// The HTTP statuses that the site answers with.
#[derive(Clone, Copy, Debug, PartialEq, Eq, Structural)]
pub enum Status {
    Success,
    Unauthorized,
    PayloadTooLarge,
    InternalServerError,
}

impl Status {
    /// The numeric HTTP code of a status.
    pub open spec fn spec_code(self) -> u16 {
        match self {
            Status::Success => 200,
            Status::Unauthorized => 401,
            Status::PayloadTooLarge => 413,
            Status::InternalServerError => 500,
        }
    }

    /// The numeric HTTP code of this status.
    pub fn code(&self) -> (c: u16)
        ensures
            c == self.spec_code(),
    {
        match self {
            Status::Success => 200,
            Status::Unauthorized => 401,
            Status::PayloadTooLarge => 413,
            Status::InternalServerError => 500,
        }
    }
}

} // verus!
