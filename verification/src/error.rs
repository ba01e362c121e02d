//! The error type every operation returns.

use vstd::prelude::*;

verus! {

/// Message reported when a referenced user does not have the owner role.
pub open spec fn owner_role_message() -> Seq<char> {
    "Related user is not having owner role"@
}

/// Message reported when a named image file is absent.
pub open spec fn image_missing_message() -> Seq<char> {
    "Image not found"@
}

/// Validation failures become `BadRequest`; failures surfaced by the
/// persistence layer are carried through unchanged as `Database`.
#[derive(Debug)]
pub enum Error {
    BadRequest(String),
    Database(String),
}

impl Error {
    /// The human-readable message of the error.
    pub fn message(&self) -> (r: &str)
        ensures
            r@ == match self {
                Error::BadRequest(m) => m@,
                Error::Database(m) => m@,
            },
    {
        match self {
            Error::BadRequest(m) => m.as_str(),
            Error::Database(m) => m.as_str(),
        }
    }

    /// The rejection for an owner reference whose role is not `ParkOwner`.
    pub fn owner_role_rejection() -> (r: Error)
        ensures
            r matches Error::BadRequest(m) && m@ == owner_role_message(),
    {
        Error::BadRequest("Related user is not having owner role".to_owned())
    }

    /// The rejection for an image name with no file behind it.
    pub fn image_missing_rejection() -> (r: Error)
        ensures
            r matches Error::BadRequest(m) && m@ == image_missing_message(),
    {
        Error::BadRequest("Image not found".to_owned())
    }
}

} // verus!
