//! The error type shared by every operation that wraps a git subprocess.

use vstd::prelude::*;

verus! {

/// What went wrong while producing a graph.
///
/// `SubprocessFailedWithExplanation` records that an underlying git call
/// exited unsuccessfully; git itself is expected to have explained the
/// failure on stderr, so only the exit code is kept. `Other` is an internal
/// failure (malformed output, ambiguous merge base) with a description.
#[derive(Debug)]
pub enum Error {
    SubprocessFailedWithExplanation { code: Option<i32> },
    Other { message: String },
}

impl Error {
    /// Wraps a description of an internal failure.
    pub fn other(message: String) -> (r: Self)
        ensures
            r == (Error::Other { message }),
    {
        Error::Other { message }
    }

    /// Interprets a subprocess exit code: zero is success, anything else
    /// (including termination without a code) is a subprocess failure.
    pub fn from_status(code: Option<i32>) -> (r: Result<(), Error>)
        ensures
            code == Some(0i32) ==> r == Result::<(), Error>::Ok(()),
            code != Some(0i32) ==> r == Result::<(), Error>::Err(
                Error::SubprocessFailedWithExplanation { code },
            ),
    {
        match code {
            Some(0) => Ok(()),
            _ => Err(Error::SubprocessFailedWithExplanation { code }),
        }
    }

    /// The process exit code this error maps to: a failed subprocess
    /// propagates its own code (or a sentinel when it died without one), and
    /// an internal failure uses a distinct sentinel.
    pub fn exit_code(&self) -> (r: i32)
        ensures
            self matches Error::SubprocessFailedWithExplanation { code: Some(c) } ==> r == c,
            self matches Error::SubprocessFailedWithExplanation { code: None } ==> r == 255i32,
            self is Other ==> r == 254i32,
    {
        match self {
            Error::SubprocessFailedWithExplanation { code: Some(c) } => *c,
            Error::SubprocessFailedWithExplanation { code: None } => 255,
            Error::Other { .. } => 254,
        }
    }
}

} // verus!
