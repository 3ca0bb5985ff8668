//! The one failure that resolution passes on: a package manager that could
//! not be run, or that ran and failed.
use vstd::prelude::*;

verus! {

/// A fatal error, as a message or as a process exit code.
#[derive(Debug)]
pub enum Error {
    Message(String),
    Code(i32),
}

/// How a child process ended: whether it succeeded, and its exit code where
/// it has one (a process ended by a signal has none).
#[derive(Clone, Copy, Debug, PartialEq, Eq, Structural)]
pub struct ExitReport {
    pub success: bool,
    pub code: Option<i32>,
}

/// Turns the outcome of running a process into a result with this crate's error.
pub trait IntoResult<T>: Sized {
    /// The result that `into_result` gives.
    spec fn result_spec(self) -> Result<T, Error>;

    fn into_result(self) -> (r: Result<T, Error>)
        ensures
            r == self.result_spec(),
    ;
}

impl IntoResult<()> for Result<ExitReport, String> {
    /// Success where the process succeeded; its exit code where it failed
    /// (1 where it has none); the message where it could not be run.
    open spec fn result_spec(self) -> Result<(), Error> {
        match self {
            Ok(status) => if status.success {
                Ok(())
            } else {
                Err(
                    Error::Code(
                        match status.code {
                            Some(c) => c,
                            None => 1,
                        },
                    ),
                )
            },
            Err(msg) => Err(Error::Message(msg)),
        }
    }

    fn into_result(self) -> (r: Result<(), Error>) {
        match self {
            Ok(status) => {
                if status.success {
                    Ok(())
                } else {
                    let code = match status.code {
                        Some(c) => c,
                        None => 1,
                    };
                    Err(Error::Code(code))
                }
            },
            Err(err) => Err(Error::Message(err)),
        }
    }
}

} // verus!
