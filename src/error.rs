//! The errors of the enforcer.
use vstd::prelude::*;

verus! {

/// An error of a policy operation.
#[derive(Clone, Debug)]
pub enum AccessError {
    /// The exclusive lock could not be had in time: try the whole operation
    /// again later.
    RetryLater(String),
    /// The matching engine failed.
    Internal(String),
}

impl AccessError {
    /// The text of the error.
    pub fn message(&self) -> (r: String)
        ensures
            r@ == match self {
                AccessError::RetryLater(m) => m@,
                AccessError::Internal(m) => m@,
            },
    {
        match self {
            AccessError::RetryLater(m) => String::from_str(m.as_str()),
            AccessError::Internal(m) => String::from_str(m.as_str()),
        }
    }
}

} // verus!
