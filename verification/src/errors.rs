//! The failures that the task service reports to its clients.

use vstd::prelude::*;

verus! {

/// A failure of a request to the task service.
#[derive(Clone, Copy, Debug, PartialEq, Eq, Structural)]
pub enum CustomError {
    /// The request is malformed.
    BadRequest,
    /// No task has the requested id.
    TaskNotFound,
    /// The service failed on its own account.
    InternalServerError,
}

impl CustomError {
    /// The HTTP status code that reports this failure.
    pub fn status_code(&self) -> (code: u16)
        ensures
            code == match *self {
                CustomError::BadRequest => 400u16,
                CustomError::TaskNotFound => 404u16,
                CustomError::InternalServerError => 500u16,
            },
    {
        match self {
            CustomError::BadRequest => 400,
            CustomError::TaskNotFound => 404,
            CustomError::InternalServerError => 500,
        }
    }

    /// The message that reports this failure.
    pub fn message(&self) -> (text: &'static str)
        ensures
            text@ == match *self {
                CustomError::BadRequest => "Bad Request"@,
                CustomError::TaskNotFound => "Task Not Found"@,
                CustomError::InternalServerError => "Internal Server Error"@,
            },
    {
        match self {
            CustomError::BadRequest => "Bad Request",
            CustomError::TaskNotFound => "Task Not Found",
            CustomError::InternalServerError => "Internal Server Error",
        }
    }
}

} // verus!
