//! The ways an operation can fail, each rejected before the side effect it guards.
use vstd::prelude::*;

verus! {

/// Why an invocation or a venv operation did not go ahead.
#[derive(Debug, Clone)]
pub enum AgentError {
    /// An invocation with no program in it: a caller error.
    NoCommand,
    /// The program is not on the executable search path; nothing was started.
    CommandNotFound(String),
    /// The process exited with a nonzero code, or (`None`) was terminated abnormally.
    CommandFailed(Option<i32>),
    /// The operating system could not start the process; the text is its error.
    SpawnFailed(String),
    /// Removal of a directory not named `.venv` without the force override.
    RemovalRefused(String),
    /// Package installation without a venv at the path and without the global override.
    NoVenv(String),
    /// The venv's interpreter is not on disk at `python` for the venv at `venv`.
    VenvPythonMissing { python: String, venv: String },
    /// A requirements file that is not on disk.
    RequirementsMissing(String),
}

/// The mathematical value of an [`AgentError`]: the same variants over character sequences.
pub enum Failure {
    NoCommand,
    CommandNotFound(Seq<char>),
    CommandFailed(Option<i32>),
    SpawnFailed(Seq<char>),
    RemovalRefused(Seq<char>),
    NoVenv(Seq<char>),
    VenvPythonMissing { python: Seq<char>, venv: Seq<char> },
    RequirementsMissing(Seq<char>),
}

impl View for AgentError {
    type V = Failure;

    open spec fn view(&self) -> Failure {
        match self {
            AgentError::NoCommand => Failure::NoCommand,
            AgentError::CommandNotFound(p) => Failure::CommandNotFound(p@),
            AgentError::CommandFailed(c) => Failure::CommandFailed(*c),
            AgentError::SpawnFailed(e) => Failure::SpawnFailed(e@),
            AgentError::RemovalRefused(p) => Failure::RemovalRefused(p@),
            AgentError::NoVenv(p) => Failure::NoVenv(p@),
            AgentError::VenvPythonMissing { python, venv } => Failure::VenvPythonMissing {
                python: python@,
                venv: venv@,
            },
            AgentError::RequirementsMissing(p) => Failure::RequirementsMissing(p@),
        }
    }
}

} // verus!
