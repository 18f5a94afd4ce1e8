//! Exit codes shared by every application built on this library.

use vstd::prelude::*;

verus! {

/// Exit codes that any application may end with.
///
/// Every code is a negative `i32`; positive codes belong to the applications
/// themselves. `-1` is left to the argument parser, `-2` to `-99` name failures
/// of the standard library, and each further block of a hundred names one
/// dependency.
#[derive(Debug, Clone, Copy, PartialEq, Eq, Structural)]
pub enum CommonExitCodes {
    /// A filesystem call of the standard library failed.
    StdFsFailure,
    /// The platform's directories could not be determined.
    DirectoriesFailure,
    /// The directories of the project could not be determined.
    DirectoriesProjectDirsFailure,
    /// The directories of the user could not be determined.
    DirectoriesUserDirsFailure,
}

impl CommonExitCodes {
    /// The number that stands for this code.
    pub open spec fn spec_code(self) -> int {
        match self {
            CommonExitCodes::StdFsFailure => -2,
            CommonExitCodes::DirectoriesFailure => -100,
            CommonExitCodes::DirectoriesProjectDirsFailure => -101,
            CommonExitCodes::DirectoriesUserDirsFailure => -102,
        }
    }

    /// The number the process exits with for this code.
    pub fn code(self) -> (code: i32)
        ensures
            code == self.spec_code(),
            code < 0,
    {
        match self {
            CommonExitCodes::StdFsFailure => -2,
            CommonExitCodes::DirectoriesFailure => -100,
            CommonExitCodes::DirectoriesProjectDirsFailure => -101,
            CommonExitCodes::DirectoriesUserDirsFailure => -102,
        }
    }
}

/// No two exit codes share a number: the number tells which failure it was.
pub proof fn lemma_codes_distinct(first: CommonExitCodes, second: CommonExitCodes)
    ensures
        first.spec_code() == second.spec_code() <==> first == second,
{
}

/// Exit code of a removal run that could not determine its working directory.
pub const CWD_FAILURE: i32 = 1;

} // verus!
