//! The error every stage of an application reports.

use vstd::prelude::*;

verus! {

/// A failure of one stage of an application, with the code the process should
/// exit with and a message for the user.
#[derive(Debug)]
pub enum ApplicationError {
    /// The application could not be set up.
    InitError { exit_code: i32, message: String },
    /// The application failed while running.
    RunError { exit_code: i32, message: String },
    /// The application could not be torn down.
    DestroyError { exit_code: i32, message: String },
}

/// What an application stage returns.
pub type ApplicationResult<T> = Result<T, ApplicationError>;

impl ApplicationError {
    /// The exit code carried by the error, whatever its stage.
    pub open spec fn spec_exit_code(&self) -> i32 {
        match self {
            ApplicationError::InitError { exit_code, .. } => *exit_code,
            ApplicationError::RunError { exit_code, .. } => *exit_code,
            ApplicationError::DestroyError { exit_code, .. } => *exit_code,
        }
    }

    /// The message carried by the error, whatever its stage.
    pub open spec fn spec_message(&self) -> Seq<char> {
        match self {
            ApplicationError::InitError { message, .. } => message@,
            ApplicationError::RunError { message, .. } => message@,
            ApplicationError::DestroyError { message, .. } => message@,
        }
    }

    /// The code the process should exit with.
    pub fn get_exit_code(&self) -> (code: i32)
        ensures
            code == self.spec_exit_code(),
    {
        match self {
            ApplicationError::InitError { exit_code, .. } => *exit_code,
            ApplicationError::RunError { exit_code, .. } => *exit_code,
            ApplicationError::DestroyError { exit_code, .. } => *exit_code,
        }
    }

    /// A copy of the message for the user.
    pub fn get_message(&self) -> (message: String)
        ensures
            message@ == self.spec_message(),
    {
        match self {
            ApplicationError::InitError { message, .. } => message.clone(),
            ApplicationError::RunError { message, .. } => message.clone(),
            ApplicationError::DestroyError { message, .. } => message.clone(),
        }
    }
}

} // verus!
