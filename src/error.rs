use vstd::prelude::*;

verus! {

/// What can go wrong while serving a request.
#[derive(Clone, Copy, Debug, PartialEq, Eq, Structural)]
pub enum ApiError {
    /// The entity asked for does not exist.
    NotFound,
    /// The e-mail address is already registered.
    Conflict,
    /// A line item asks for more than the product has in stock.
    InsufficientStock,
    /// The acting user does not own the order the resource belongs to.
    Forbidden,
    /// No valid credentials or token were presented.
    Unauthorized,
    /// The storage layer failed.
    Storage,
    /// The request is malformed (no line items, a quantity that is not positive).
    Invalid,
}

impl ApiError {
    /// The HTTP status code that reports this error.
    pub open spec fn spec_status_code(self) -> u16 {
        match self {
            ApiError::NotFound => 404,
            ApiError::Conflict => 400,
            ApiError::InsufficientStock => 400,
            ApiError::Forbidden => 403,
            ApiError::Unauthorized => 401,
            ApiError::Storage => 500,
            ApiError::Invalid => 400,
        }
    }

    /// The HTTP status code that reports this error.
    pub fn status_code(&self) -> (r: u16)
        ensures
            r == self.spec_status_code(),
    {
        match self {
            ApiError::NotFound => 404,
            ApiError::Conflict => 400,
            ApiError::InsufficientStock => 400,
            ApiError::Forbidden => 403,
            ApiError::Unauthorized => 401,
            ApiError::Storage => 500,
            ApiError::Invalid => 400,
        }
    }
}

} // verus!
