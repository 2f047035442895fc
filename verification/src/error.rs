//! What can go wrong in an operation, and how an outcome is reported.

use vstd::prelude::*;

verus! {

/// Why an operation did not succeed.
#[derive(Clone, Copy, Debug, PartialEq, Eq, Structural)]
pub enum StoreError {
    /// No user is filed under the given user id.
    UserNotFound,
    /// The user exists but owns no task under the given task id.
    TaskNotFound,
    /// Exclusive access to the dataset could not be had. No operation of this
    /// library reports it: the caller that guards the dataset does.
    LockAcquisitionFailed,
}

/// Response status of a successful operation.
pub const STATUS_OK: u16 = 200;

/// Response status where the user or the task does not exist.
pub const STATUS_NOT_FOUND: u16 = 404;

/// Response status where the dataset could not be locked.
pub const STATUS_INTERNAL_ERROR: u16 = 500;

impl StoreError {
    /// The status that reports this error to a client.
    pub open spec fn spec_status_code(self) -> u16 {
        match self {
            StoreError::UserNotFound => STATUS_NOT_FOUND,
            StoreError::TaskNotFound => STATUS_NOT_FOUND,
            StoreError::LockAcquisitionFailed => STATUS_INTERNAL_ERROR,
        }
    }

    /// The status that reports this error to a client.
    #[verifier::when_used_as_spec(spec_status_code)]
    pub fn status_code(self) -> (code: u16)
        ensures
            code == self.spec_status_code(),
    {
        match self {
            StoreError::UserNotFound => STATUS_NOT_FOUND,
            StoreError::TaskNotFound => STATUS_NOT_FOUND,
            StoreError::LockAcquisitionFailed => STATUS_INTERNAL_ERROR,
        }
    }
}

/// The status that reports an operation's outcome to a client: success, or
/// the status of the error.
pub open spec fn spec_status_of<T>(outcome: &Result<T, StoreError>) -> u16 {
    match *outcome {
        Ok(_) => STATUS_OK,
        Err(e) => e.spec_status_code(),
    }
}

/// The status that reports an operation's outcome to a client.
#[verifier::when_used_as_spec(spec_status_of)]
pub fn status_of<T>(outcome: &Result<T, StoreError>) -> (code: u16)
    ensures
        code == spec_status_of(outcome),
{
    match outcome {
        Ok(_) => STATUS_OK,
        Err(e) => e.status_code(),
    }
}

} // verus!
