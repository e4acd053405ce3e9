//! The crate's coarse error type for property lookups.

use vstd::prelude::*;

verus! {

/// A lookup error.
#[derive(Clone, Copy, Debug, PartialEq, Eq, Structural)]
pub enum Error {
    /// No property was found at the requested place.
    NoProperty,
    /// An unclassified failure.
    Unknown,
}

impl Error {
    /// A short description of the error.
    pub fn message(&self) -> (r: &'static str)
        ensures
            *self == Error::NoProperty ==> r@ == "no property found error"@,
            *self == Error::Unknown ==> r@ == "unknown error"@,
    {
        match self {
            Error::NoProperty => "no property found error",
            Error::Unknown => "unknown error",
        }
    }
}

} // verus!
