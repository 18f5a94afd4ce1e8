//! The stages of an application and the exit code it ends with.
//!
//! An application is set up and run in four stages. The caller performs each
//! stage and reports how it went; the first stage that fails ends the
//! application with its exit code, and an application whose stages all
//! succeed ends with zero.

use vstd::prelude::*;

verus! {

/// A stage of an application, in the order in which the stages run.
#[derive(Debug, Clone, Copy, PartialEq, Eq, Structural)]
pub enum Stage {
    /// The application describes itself.
    Metadata,
    /// The application's directories are set up.
    AppData,
    /// The application's configuration is read.
    Config,
    /// The application does its work.
    Run,
}

/// What the caller does after a stage.
#[derive(Debug, Clone, Copy, PartialEq, Eq, Structural)]
pub enum Next {
    /// Perform the given stage.
    Enter(Stage),
    /// End the process with the given code.
    Exit(i32),
}

impl Stage {
    /// The stage that an application starts with.
    pub open spec fn spec_first() -> Stage {
        Stage::Metadata
    }

    /// The stage that follows this one, if any does.
    pub open spec fn following(self) -> Option<Stage> {
        match self {
            Stage::Metadata => Some(Stage::AppData),
            Stage::AppData => Some(Stage::Config),
            Stage::Config => Some(Stage::Run),
            Stage::Run => None,
        }
    }

    /// The number of stages that follow this one.
    pub open spec fn remaining(self) -> nat {
        match self {
            Stage::Metadata => 3,
            Stage::AppData => 2,
            Stage::Config => 1,
            Stage::Run => 0,
        }
    }

    /// The stage that an application starts with.
    pub fn first() -> (stage: Stage)
        ensures
            stage == Stage::spec_first(),
    {
        Stage::Metadata
    }
}

/// What follows a stage that went as `result` says: a failure ends the
/// application with its code, a success leads to the following stage, and
/// success of the last stage ends the application with zero.
pub open spec fn next_of(stage: Stage, result: Result<(), i32>) -> Next {
    match result {
        Err(code) => Next::Exit(code),
        Ok(_) => match stage.following() {
            Some(stage) => Next::Enter(stage),
            None => Next::Exit(0),
        },
    }
}

/// Decides what follows a stage, from how the stage went.
pub fn after_stage(stage: Stage, result: Result<(), i32>) -> (next: Next)
    ensures
        next == next_of(stage, result),
{
    match result {
        Err(code) => Next::Exit(code),
        Ok(_) => match stage {
            Stage::Metadata => Next::Enter(Stage::AppData),
            Stage::AppData => Next::Enter(Stage::Config),
            Stage::Config => Next::Enter(Stage::Run),
            Stage::Run => Next::Exit(0),
        },
    }
}

/// The code that an application ends with when it is at `stage` and each
/// stage, once performed, goes as `results` says.
pub open spec fn exit_from(stage: Stage, results: spec_fn(Stage) -> Result<(), i32>) -> i32
    decreases stage.remaining(),
{
    match next_of(stage, results(stage)) {
        Next::Exit(code) => code,
        Next::Enter(following) => exit_from(following, results),
    }
}

/// An application ends with the exit code of the first stage that fails, and
/// with zero if none does.
pub proof fn lemma_first_failure_decides(results: spec_fn(Stage) -> Result<(), i32>)
    ensures
        exit_from(Stage::spec_first(), results) == if results(Stage::Metadata) is Err {
            results(Stage::Metadata)->Err_0
        } else if results(Stage::AppData) is Err {
            results(Stage::AppData)->Err_0
        } else if results(Stage::Config) is Err {
            results(Stage::Config)->Err_0
        } else if results(Stage::Run) is Err {
            results(Stage::Run)->Err_0
        } else {
            0
        },
{
    reveal_with_fuel(exit_from, 5);
}

} // verus!
