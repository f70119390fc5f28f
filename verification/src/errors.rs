//! The two failure kinds the dispatcher reports: the external tool exited
//! with a failure, or it could not be launched at all.

use vstd::prelude::*;
use vstd::string::StringExecFns;

verus! {

/// A failure reported by the dispatcher.
///
/// `ExternalCommandFailed` carries the captured standard-error text of the
/// external process, verbatim. `ExecutionFailed` covers the inability to even
/// launch the external executable.
#[derive(Debug)]
pub enum CliError {
    ExternalCommandFailed { stderr: String },
    ExecutionFailed { detail: String },
}

/// The human-readable text reported for an error.
pub open spec fn error_text(e: CliError) -> Seq<char> {
    match e {
        CliError::ExternalCommandFailed { stderr } => "Git command failed: "@ + stderr@,
        CliError::ExecutionFailed { detail } => detail@,
    }
}

impl CliError {
    /// The message written to the error stream for this failure.
    pub fn message(&self) -> (m: String)
        ensures
            m@ == error_text(*self),
    {
        match self {
            CliError::ExternalCommandFailed { stderr } => {
                ("Git command failed: ").to_owned().concat(stderr.as_str())
            },
            CliError::ExecutionFailed { detail } => detail.clone(),
        }
    }
}

} // verus!
